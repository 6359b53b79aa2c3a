use oekakusa::errors::ExtractError;
use oekakusa::scanner::{locate_embedded_store, store_tail};

const SIGNATURE: &[u8; 16] = b"SQLite format 3\x00";

#[test]
fn locate_finds_signature_at_offset() {
    let mut buf: Vec<u8> = vec![7u8; 33];
    buf.extend_from_slice(SIGNATURE);
    buf.extend_from_slice(&[1, 2, 3, 4]);
    assert_eq!(locate_embedded_store(&buf).unwrap(), 33);
}

#[test]
fn locate_finds_signature_at_start() {
    let mut buf: Vec<u8> = Vec::new();
    buf.extend_from_slice(SIGNATURE);
    assert_eq!(locate_embedded_store(&buf).unwrap(), 0);
}

#[test]
fn locate_reports_first_of_two_occurrences() {
    let mut buf: Vec<u8> = vec![0u8; 5];
    buf.extend_from_slice(SIGNATURE);
    buf.extend_from_slice(&[9, 9]);
    buf.extend_from_slice(SIGNATURE);
    assert_eq!(locate_embedded_store(&buf).unwrap(), 5);
}

#[test]
fn locate_fails_without_signature() {
    let buf: Vec<u8> = vec![0u8; 256];
    let r = locate_embedded_store(&buf);
    assert!(matches!(r, Err(ExtractError::SignatureNotFound)));
}

#[test]
fn locate_fails_on_truncated_signature() {
    let mut buf: Vec<u8> = Vec::new();
    buf.extend_from_slice(&SIGNATURE[..15]);
    let r = locate_embedded_store(&buf);
    assert!(matches!(r, Err(ExtractError::SignatureNotFound)));
}

#[test]
fn locate_fails_on_empty_buffer() {
    let buf: Vec<u8> = Vec::new();
    let r = locate_embedded_store(&buf);
    assert!(matches!(r, Err(ExtractError::SignatureNotFound)));
}

#[test]
fn store_tail_copies_trailing_range() {
    let buf: Vec<u8> = vec![1, 2, 3, 4, 5];
    assert_eq!(store_tail(&buf, 2), vec![3, 4, 5]);
    assert_eq!(store_tail(&buf, 0), vec![1, 2, 3, 4, 5]);
    assert_eq!(store_tail(&buf, 5), Vec::<u8>::new());
}

#[test]
fn signature_not_found_message_is_stable() {
    assert_eq!(
        ExtractError::SignatureNotFound.message(),
        "SQLite header not found in .clip file"
    );
    assert_eq!(ExtractError::InputNotFound.message(), "Input file not found");
    assert_eq!(
        ExtractError::NoPreviewFound.message(),
        "No thumbnail data found in any known tables"
    );
    assert_eq!(
        ExtractError::DecodeError("bad".to_string()).message(),
        "Failed to decode image: bad"
    );
    assert_eq!(
        ExtractError::WriteError("full image: denied".to_string()).message(),
        "Failed to save full image: denied"
    );
    assert_eq!(
        ExtractError::WriteError("small thumbnail: denied".to_string()).message(),
        "Failed to save small thumbnail: denied"
    );
}

#[test]
fn greeting_names_the_caller() {
    assert_eq!(oekakusa::greet("World"), "Hello, World! You've been greeted from Rust!");
}
