use oekakusa::decimal::{i64_to_string, u64_to_string};
use oekakusa::pathnames::{
    file_stem_of, has_tracked_extension, join_path, make_full_image_name, make_thumb_image_name,
    normalize_key,
};

#[test]
fn decimal_prints_digits() {
    assert_eq!(u64_to_string(0), "0");
    assert_eq!(u64_to_string(7), "7");
    assert_eq!(u64_to_string(12345), "12345");
    assert_eq!(u64_to_string(u64::MAX), "18446744073709551615");
}

#[test]
fn decimal_prints_signed_values() {
    assert_eq!(i64_to_string(0), "0");
    assert_eq!(i64_to_string(1700000000), "1700000000");
    assert_eq!(i64_to_string(-42), "-42");
    assert_eq!(i64_to_string(i64::MIN), "-9223372036854775808");
}

#[test]
fn tracked_extension_accepts_clip_files() {
    assert!(has_tracked_extension("work.clip"));
    assert!(has_tracked_extension("/a/b/painting.clip"));
    assert!(has_tracked_extension("C:\\art\\sketch.clip"));
    assert!(has_tracked_extension("a..clip"));
}

#[test]
fn tracked_extension_rejects_others() {
    assert!(!has_tracked_extension("work.png"));
    assert!(!has_tracked_extension("work.clip.bak"));
    assert!(!has_tracked_extension("work.CLIP"));
    assert!(!has_tracked_extension(".clip"));
    assert!(!has_tracked_extension("/a/.clip"));
    assert!(!has_tracked_extension(""));
}

#[test]
fn normalize_key_strips_extended_prefix() {
    assert_eq!(normalize_key("\\\\?\\C:\\art\\x.clip"), "C:\\art\\x.clip");
    assert_eq!(normalize_key("/plain/path.clip"), "/plain/path.clip");
    assert_eq!(normalize_key("\\\\?"), "\\\\?");
}

#[test]
fn file_stem_drops_directory_and_extension() {
    assert_eq!(file_stem_of("/a/b/painting.clip"), "painting");
    assert_eq!(file_stem_of("C:\\art\\sketch.clip"), "sketch");
    assert_eq!(file_stem_of("noext"), "noext");
    assert_eq!(file_stem_of("archive.tar.gz"), "archive.tar");
    assert_eq!(file_stem_of("/a/b/.hidden"), ".hidden");
}

#[test]
fn file_stem_falls_back_to_unknown() {
    assert_eq!(file_stem_of(""), "unknown");
    assert_eq!(file_stem_of("/a/b/"), "unknown");
}

#[test]
fn join_path_inserts_one_separator() {
    assert_eq!(join_path("/out", "x.png"), "/out/x.png");
    assert_eq!(join_path("/out/", "x.png"), "/out/x.png");
    assert_eq!(join_path("C:\\out", "x.png"), "C:\\out/x.png");
    assert_eq!(join_path("", "x.png"), "x.png");
}

#[test]
fn image_names_carry_stem_and_timestamp() {
    assert_eq!(make_full_image_name("pic", 5), "pic_5_full.png");
    assert_eq!(make_thumb_image_name("pic", 5), "pic_5_thumb.png");
    assert_eq!(make_full_image_name("pic", -3), "pic_-3_full.png");
}
