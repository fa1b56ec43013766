use photo_exif::files::{is_image_extension, mime_for_extension, timestamp_text, FileUtils, PhotoService};
use photo_exif::model::ExifTag;
use photo_exif::photo::{read_photo_result, ExifParseResult, ExifParseStatus, PhotoInfo};
use photo_exif::scan::{contains_text, first_word_of, parse_bounded, trim_text};
use photo_exif::service::Extraction;

fn entry(k: &str, v: &str) -> (String, String) {
    (k.to_string(), v.to_string())
}

#[test]
fn new_record_is_blank() {
    let p = PhotoInfo::new("/a/b.jpg".to_string());
    assert_eq!(p.path, "/a/b.jpg");
    assert_eq!(p.name, "Unknown");
    assert_eq!(p.size, 0);
    assert!(!p.format_supported && !p.exif_available);
    assert!(p.exif_tags.is_empty() && p.file_info.is_empty());
}

#[test]
fn record_reads_file_facts() {
    let tags = vec![ExifTag::new("n".to_string(), "v".to_string(), "Basic".to_string())];
    let info = vec![
        entry("File Name", "b.jpg"),
        entry("File Size", "  2048 bytes"),
        entry("Modified", "2024-01-02 03:04:05"),
        entry("Dimensions", " 4000 x 3000 px"),
    ];
    let p = PhotoInfo::new_with_exif("/a/b.jpg".to_string(), tags, info);
    assert_eq!(p.name, "b.jpg");
    assert_eq!(p.size, 2048);
    assert_eq!(p.modified_at.as_deref(), Some("2024-01-02 03:04:05"));
    assert_eq!((p.width, p.height), (Some(4000), Some(3000)));
    assert!(p.format_supported);
    assert!(p.exif_available);
    assert_eq!(p.file_info.len(), 4);
}

#[test]
fn record_ignores_unreadable_facts() {
    let info = vec![
        entry("File Size", "big"),
        entry("Dimensions", "4000 by 3000"),
        entry("File Name", "first"),
        entry("File Name", "second"),
    ];
    let p = PhotoInfo::new_with_exif("p".to_string(), vec![], info);
    assert_eq!(p.size, 0);
    assert_eq!((p.width, p.height), (None, None));
    assert_eq!(p.name, "first");
    assert!(!p.exif_available);
    let q = PhotoInfo::new_with_exif("p".to_string(), vec![], vec![entry("Dimensions", "99999999999x2")]);
    assert_eq!((q.width, q.height), (None, None));
}

#[test]
fn result_constructors() {
    let ok = ExifParseResult::success(PhotoInfo::new("p".to_string()));
    assert_eq!(ok.parse_status, ExifParseStatus::Success);
    assert!(ok.message.is_none());
    let none = ExifParseResult::no_exif_data(PhotoInfo::new("p".to_string()), "m".to_string());
    assert_eq!(none.parse_status, ExifParseStatus::NoExifData);
    assert_eq!(none.message.as_deref(), Some("m"));
    let u = ExifParseResult::unsupported_format("p".to_string(), "x".to_string());
    assert_eq!(u.parse_status, ExifParseStatus::UnsupportedFormat);
    assert_eq!(u.photo_info.path, "p");
    assert_eq!(ExifParseResult::file_error("p".to_string(), "x".to_string()).parse_status, ExifParseStatus::FileError);
    assert_eq!(ExifParseResult::parse_error("p".to_string(), "x".to_string()).parse_status, ExifParseStatus::ParseError);
}

#[test]
fn request_outcomes() {
    let tags = vec![ExifTag::new("Camera Make".to_string(), "Canon".to_string(), "Basic".to_string())];
    let r = read_photo_result(
        "/x/y.jpg".to_string(),
        Some("y.jpg".to_string()),
        Ok(Extraction { tags, real_count: 1 }),
    );
    assert_eq!(r.parse_status, ExifParseStatus::Success);
    assert_eq!(r.photo_info.name, "y.jpg");
    assert!(r.photo_info.exif_available);
    assert!(r.message.is_none());

    let hint = vec![ExifTag::new("Hint".to_string(), "none".to_string(), "Basic".to_string())];
    let r = read_photo_result("/x/z.png".to_string(), None, Ok(Extraction { tags: hint, real_count: 0 }));
    assert_eq!(r.parse_status, ExifParseStatus::NoExifData);
    assert!(r.message.is_some());
    assert_eq!(r.photo_info.name, "Unknown");

    let r = read_photo_result("/x".to_string(), None, Err("unsupported format: png".to_string()));
    assert_eq!(r.parse_status, ExifParseStatus::UnsupportedFormat);
    assert_eq!(r.message.as_deref(), Some("unsupported format: png"));
    assert!(!r.photo_info.exif_available);
}

#[test]
fn file_extensions() {
    assert_eq!(FileUtils::get_file_extension("/photos/IMG_1.JPG").as_deref(), Some("jpg"));
    assert_eq!(FileUtils::get_file_extension("a.tar.GZ").as_deref(), Some("gz"));
    assert_eq!(FileUtils::get_file_extension("dir.d/file"), None);
    assert_eq!(FileUtils::get_file_extension("/home/.bashrc"), None);
    assert_eq!(FileUtils::get_file_extension("a/.."), None);
    assert_eq!(FileUtils::get_file_extension("shot.png/").as_deref(), Some("png"));
    assert_eq!(FileUtils::get_file_extension("x.").as_deref(), Some(""));
    assert_eq!(FileUtils::get_file_extension(""), None);
}

#[test]
fn image_files() {
    assert!(FileUtils::is_image_file("a/b.Cr2"));
    assert!(!FileUtils::is_image_file("a/b.txt"));
    assert!(!FileUtils::is_image_file("jpg"));
    assert!(is_image_extension("webp"));
    assert!(!is_image_extension("WEBP"));
    let s = PhotoService::new();
    assert!(s.is_supported_image("x.tiff"));
    assert_eq!(s.get_supported_formats().len(), 13);
}

#[test]
fn mime_types() {
    let s = PhotoService::new();
    assert_eq!(s.detect_mime_type("a.JPEG").as_deref(), Some("image/jpeg"));
    assert_eq!(s.detect_mime_type("a.nef").as_deref(), Some("image/x-raw"));
    assert_eq!(s.detect_mime_type("a.heic"), None);
    assert_eq!(s.detect_mime_type("noext"), None);
    assert_eq!(mime_for_extension("tif").as_deref(), Some("image/tiff"));
}

#[test]
fn timestamps() {
    assert_eq!(timestamp_text(0), "1970-01-01 00:00:00");
    assert_eq!(timestamp_text(1431648000), "2015-05-15 00:00:00");
    assert_eq!(timestamp_text(i64::MAX), "Unknown time");
}

#[test]
fn file_description() {
    let s = PhotoService::new();
    let p = s.describe_file("/p/q.PNG".to_string(), None, 10, Some((3, 4)), Some(0), None);
    assert_eq!(p.name, "Unknown");
    assert_eq!(p.size, 10);
    assert_eq!(p.mime_type.as_deref(), Some("image/png"));
    assert_eq!((p.width, p.height), (Some(3), Some(4)));
    assert_eq!(p.modified_at.as_deref(), Some("1970-01-01 00:00:00"));
    assert_eq!(p.created_at, None);
}

#[test]
fn scanning() {
    assert_eq!(parse_bounded("+5", 10), Some(5));
    assert_eq!(parse_bounded("11", 10), None);
    assert_eq!(parse_bounded("", 10), None);
    assert_eq!(parse_bounded("+", 10), None);
    assert_eq!(parse_bounded("-1", 10), None);
    assert_eq!(parse_bounded("18446744073709551615", u64::MAX), Some(u64::MAX));
    assert_eq!(parse_bounded("18446744073709551616", u64::MAX), None);
    assert_eq!(first_word_of("  ab cd").as_deref(), Some("ab"));
    assert_eq!(first_word_of(" \t "), None);
    assert_eq!(trim_text("\u{3000} x y \n"), "x y");
    assert!(contains_text("abc", ""));
    assert!(contains_text("abc", "bc"));
    assert!(!contains_text("abc", "cb"));
}
