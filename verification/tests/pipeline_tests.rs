use std::io::Cursor;

use oekakusa::errors::ExtractError;
use oekakusa::thumbnail::extract_thumbnail;

const SIGNATURE: &[u8; 16] = b"SQLite format 3\x00";

/// A small but decodable PNG, larger than the selection threshold.
fn png_blob(width: u32, height: u32) -> Vec<u8> {
    let mut img = image::RgbaImage::new(width, height);
    for (x, y, p) in img.enumerate_pixels_mut() {
        *p = image::Rgba([(x % 256) as u8, (y % 256) as u8, 128, 255]);
    }
    let mut bytes: Vec<u8> = Vec::new();
    image::DynamicImage::ImageRgba8(img)
        .write_to(&mut Cursor::new(&mut bytes), image::ImageFormat::Png)
        .unwrap();
    assert!(bytes.len() > 100);
    bytes
}

/// The bytes of a store whose given table holds one row with one binary
/// column, preceded by `junk` bytes of host-container padding.
fn container_with_store(junk: usize, table: &str, blob: &[u8]) -> Vec<u8> {
    let conn = rusqlite::Connection::open_in_memory().unwrap();
    conn.execute_batch(&format!("CREATE TABLE {} (ImageData BLOB);", table))
        .unwrap();
    conn.execute(
        &format!("INSERT INTO {} (ImageData) VALUES (?1)", table),
        (blob,),
    )
    .unwrap();
    let data = conn.serialize(rusqlite::MAIN_DB).unwrap();
    let mut container = vec![0u8; junk];
    container.extend_from_slice(&data);
    container
}

fn temp_dir_string(dir: &tempfile::TempDir) -> String {
    dir.path().to_str().unwrap().to_string()
}

#[test]
fn extraction_succeeds_on_embedded_store() {
    let blob = png_blob(32, 24);
    let container = container_with_store(37, "CanvasPreview", &blob);
    assert_eq!(&container[37..53], SIGNATURE);
    let out = tempfile::TempDir::new().unwrap();
    let out_path = temp_dir_string(&out);
    let res = extract_thumbnail(&"/art/painting.clip".to_string(), &container, &out_path).unwrap();

    assert_eq!(res.status, "success");
    assert_eq!(res.original_file, "/art/painting.clip");
    assert!(res.message.is_none());
    let full = res.thumbnail_full_path.clone().unwrap();
    let small = res.thumbnail_small_path.clone().unwrap();
    assert_eq!(res.thumbnail_path, full);
    assert!(full.starts_with(&out_path));
    assert!(full.ends_with("_full.png"));
    assert!(small.ends_with("_thumb.png"));
    assert!(full.contains("painting_"));

    let full_dims = image::image_dimensions(&full).unwrap();
    assert_eq!(full_dims, (32, 24));
    let small_dims = image::image_dimensions(&small).unwrap();
    assert_eq!(small_dims, (300, 225));
}

#[test]
fn downscale_bounds_hold_for_wide_sources() {
    let blob = png_blob(640, 80);
    let container = container_with_store(0, "Thumbnail", &blob);
    let out = tempfile::TempDir::new().unwrap();
    let res = extract_thumbnail(&"wide.clip".to_string(), &container, &temp_dir_string(&out))
        .unwrap();
    let small = res.thumbnail_small_path.unwrap();
    let (w, h) = image::image_dimensions(&small).unwrap();
    assert!(w.max(h) <= 300);
    assert_eq!((w, h), (300, 38));
}

#[test]
fn extraction_fails_without_signature() {
    let container = vec![0u8; 4096];
    let out = tempfile::TempDir::new().unwrap();
    let r = extract_thumbnail(&"/art/x.clip".to_string(), &container, &temp_dir_string(&out));
    assert!(matches!(r, Err(ExtractError::SignatureNotFound)));
}

#[test]
fn missing_signature_is_decided_before_any_write() {
    // The output directory does not exist: any attempted write would fail
    // with WriteError, but the scan fails first and nothing is written.
    let container = b"no store in here at all".to_vec();
    let r = extract_thumbnail(
        &"/art/x.clip".to_string(),
        &container,
        &"/nonexistent/oekakusa-test-output".to_string(),
    );
    assert!(matches!(r, Err(ExtractError::SignatureNotFound)));
}

#[test]
fn small_blob_yields_no_preview() {
    let short = vec![5u8; 100];
    let container = container_with_store(11, "CanvasPreview", &short);
    let out = tempfile::TempDir::new().unwrap();
    let r = extract_thumbnail(&"x.clip".to_string(), &container, &temp_dir_string(&out));
    assert!(matches!(r, Err(ExtractError::NoPreviewFound)));
}

#[test]
fn unknown_tables_yield_no_preview() {
    let blob = png_blob(16, 16);
    let container = container_with_store(0, "SomethingElse", &blob);
    let out = tempfile::TempDir::new().unwrap();
    let r = extract_thumbnail(&"x.clip".to_string(), &container, &temp_dir_string(&out));
    assert!(matches!(r, Err(ExtractError::NoPreviewFound)));
}

#[test]
fn non_image_blob_fails_to_decode() {
    let junk_blob = vec![0xABu8; 500];
    let container = container_with_store(3, "PreviewImage", &junk_blob);
    let out = tempfile::TempDir::new().unwrap();
    let r = extract_thumbnail(&"x.clip".to_string(), &container, &temp_dir_string(&out));
    assert!(matches!(r, Err(ExtractError::DecodeError(_))));
}

#[test]
fn candidate_order_prefers_canvas_preview() {
    // Two candidate tables populated with different decodable images: the
    // CanvasPreview one wins even though the other is also present.
    let preferred = png_blob(20, 20);
    let other = png_blob(40, 40);
    let conn = rusqlite::Connection::open_in_memory().unwrap();
    conn.execute_batch(
        "CREATE TABLE Thumbnail (ImageData BLOB); CREATE TABLE CanvasPreview (ImageData BLOB);",
    )
    .unwrap();
    conn.execute("INSERT INTO Thumbnail (ImageData) VALUES (?1)", (other.as_slice(),))
        .unwrap();
    conn.execute(
        "INSERT INTO CanvasPreview (ImageData) VALUES (?1)",
        (preferred.as_slice(),),
    )
    .unwrap();
    let data = conn.serialize(rusqlite::MAIN_DB).unwrap();
    let container = data.to_vec();
    let out = tempfile::TempDir::new().unwrap();
    let res = extract_thumbnail(&"x.clip".to_string(), &container, &temp_dir_string(&out))
        .unwrap();
    let full = res.thumbnail_full_path.unwrap();
    assert_eq!(image::image_dimensions(&full).unwrap(), (20, 20));
}

#[test]
fn garbage_after_signature_yields_no_preview() {
    // The signature is present but the trailing range is not a store:
    // every candidate query fails and is skipped, never fatal.
    let mut container = SIGNATURE.to_vec();
    container.extend_from_slice(&[0x5Au8; 300]);
    let out = tempfile::TempDir::new().unwrap();
    let r = extract_thumbnail(&"x.clip".to_string(), &container, &temp_dir_string(&out));
    assert!(matches!(r, Err(ExtractError::NoPreviewFound)));
}

#[test]
fn unwritable_destination_fails_with_write_error() {
    let blob = png_blob(16, 16);
    let container = container_with_store(0, "CanvasPreview", &blob);
    let r = extract_thumbnail(
        &"x.clip".to_string(),
        &container,
        &"/nonexistent-oekakusa-output/dir".to_string(),
    );
    match r {
        Err(e) => {
            assert!(matches!(e, ExtractError::WriteError(_)));
            assert!(e.message().starts_with("Failed to save full image: "));
        }
        Ok(_) => panic!("expected a write error"),
    }
}

#[test]
fn failure_record_carries_message() {
    let r = oekakusa::thumbnail::failure_result(
        &"/art/x.clip".to_string(),
        &ExtractError::SignatureNotFound,
        77,
    );
    assert_eq!(r.status, "failure");
    assert_eq!(r.original_file, "/art/x.clip");
    assert_eq!(r.timestamp, 77);
    assert!(r.thumbnail_full_path.is_none());
    assert!(r.thumbnail_small_path.is_none());
    assert_eq!(r.message.unwrap(), "SQLite header not found in .clip file");
}
