use photo_exif::catalog::{symbolic_tag_name, tag_group, tag_name};
use photo_exif::export::{export_csv, export_format, has_real_metadata, ExportFormat};
use photo_exif::format::RawValue;
use photo_exif::model::{ExifGroup, ExifTag, TagContext, TagId};
use photo_exif::photo::{classify, ExifParseStatus};
use photo_exif::service::{ExifService, RawField};

fn tag(context: TagContext, number: u16) -> TagId {
    TagId { context, number }
}

fn field(context: TagContext, number: u16, value: RawValue) -> RawField {
    RawField { tag: tag(context, number), value }
}

#[test]
fn end_to_end_make_and_aperture() {
    let fields = vec![
        field(TagContext::Tiff, 0x10f, RawValue::Ascii(vec![b"Canon\0".to_vec()])),
        field(TagContext::Exif, 0x829d, RawValue::Rational(vec![(28, 10)])),
    ];
    let ex = ExifService::new().extract(&fields);
    assert_eq!(ex.real_count, 2);
    assert_eq!(ex.tags.len(), 2);
    assert_eq!(ex.tags[0].name, "Camera Make");
    assert_eq!(ex.tags[0].value, "Canon");
    assert_eq!(ex.tags[0].group, "Basic");
    assert_eq!(ex.tags[1].name, "Aperture");
    assert_eq!(ex.tags[1].value, "28/10");
    assert_eq!(ex.tags[1].group, "Exposure");
    assert!(ex.tags.iter().all(|t| t.description.is_none()));
    assert_eq!(classify(&Ok(ex.real_count)), ExifParseStatus::Success);
}

#[test]
fn empty_fields_give_hint_only() {
    let ex = ExifService::new().extract(&vec![]);
    assert_eq!(ex.real_count, 0);
    assert_eq!(ex.tags.len(), 1);
    assert_eq!(ex.tags[0].name, "Hint");
    assert_eq!(ex.tags[0].value, "This image contains no EXIF metadata");
    assert_eq!(ex.tags[0].group, "Basic");
    assert_eq!(classify(&Ok(ex.real_count)), ExifParseStatus::NoExifData);
}

#[test]
fn fields_with_empty_values_give_hint_only() {
    let fields = vec![
        field(TagContext::Tiff, 0x10f, RawValue::Ascii(vec![])),
        field(TagContext::Tiff, 0x110, RawValue::Ascii(vec![vec![0, 0]])),
        field(TagContext::Exif, 0x9286, RawValue::Other(String::new())),
    ];
    let ex = ExifService::new().extract(&fields);
    assert_eq!(ex.real_count, 0);
    assert_eq!(ex.tags.len(), 1);
    assert_eq!(ex.tags[0].name, "Hint");
    assert!(!has_real_metadata(&ex.tags));
}

#[test]
fn count_is_number_of_shown_fields() {
    let fields = vec![
        field(TagContext::Tiff, 0x10f, RawValue::Ascii(vec![])),
        field(TagContext::Tiff, 0x112, RawValue::Short(vec![1])),
        field(TagContext::Exif, 0x9286, RawValue::Other(String::new())),
        field(TagContext::Gps, 0x2, RawValue::Rational(vec![(35, 1), (41, 1), (0, 1)])),
    ];
    let ex = ExifService::new().extract(&fields);
    assert_eq!(ex.real_count, 2);
    assert_eq!(ex.tags.len(), 2);
    assert_eq!(ex.tags[0].name, "Orientation");
    assert_eq!(ex.tags[0].value, "1");
    assert_eq!(ex.tags[0].group, "Other");
    assert_eq!(ex.tags[1].name, "GPS Latitude");
    assert_eq!(ex.tags[1].value, "[35/1, 41/1, 0/1]");
    assert_eq!(ex.tags[1].group, "GPS");
    assert!(ex.tags.iter().all(|t| t.name != "Hint"));
    assert!(has_real_metadata(&ex.tags));
    assert_eq!(classify(&Ok(3)), ExifParseStatus::Success);
}

#[test]
fn unlisted_tag_is_other_with_symbolic_name() {
    let t = tag(TagContext::Exif, 0xbeef);
    assert_eq!(tag_group(t), ExifGroup::Other);
    assert_eq!(tag_name(t), "Tag(Exif, 48879)");
    assert!(!tag_name(t).is_empty());
    assert_eq!(symbolic_tag_name(tag(TagContext::Interop, 7)), "Tag(Interop, 7)");
    let service = ExifService::new();
    assert_eq!(service.get_tag_group(tag(TagContext::Tiff, 0)), "Other");
}

#[test]
fn catalog_answers_are_repeatable() {
    let service = ExifService::new();
    for t in [tag(TagContext::Tiff, 0x10f), tag(TagContext::Gps, 0x1d), tag(TagContext::Exif, 1)] {
        assert_eq!(service.get_tag_name(t), service.get_tag_name(t));
        assert_eq!(service.get_tag_group(t), service.get_tag_group(t));
        assert_eq!(tag_group(t), tag_group(t));
    }
}

#[test]
fn catalog_groups() {
    assert_eq!(tag_group(tag(TagContext::Tiff, 0x132)), ExifGroup::Basic);
    assert_eq!(tag_group(tag(TagContext::Exif, 0x920a)), ExifGroup::Camera);
    assert_eq!(tag_group(tag(TagContext::Exif, 0x829a)), ExifGroup::Exposure);
    assert_eq!(tag_group(tag(TagContext::Gps, 0x1d)), ExifGroup::Gps);
    assert_eq!(tag_group(tag(TagContext::Exif, 0x9290)), ExifGroup::DateTime);
    assert_eq!(tag_name(tag(TagContext::Interop, 0x1)), "Interoperability Index");
    assert_eq!(tag_name(tag(TagContext::Exif, 0xa433)), "Lens Make");
    assert_eq!(ExifGroup::DateTime.as_str(), "Date/Time");
    assert_eq!(ExifGroup::Gps.as_str(), "GPS");
}

#[test]
fn format_tag_value_through_service() {
    let service = ExifService::new();
    assert_eq!(service.format_tag_value(&RawValue::Long(vec![300])), "300");
    assert_eq!(service.get_supported_formats(), vec!["jpg", "jpeg", "tiff", "tif"]);
}

#[test]
fn classify_errors() {
    assert_eq!(classify(&Err("unsupported format: foo".to_string())), ExifParseStatus::UnsupportedFormat);
    assert_eq!(classify(&Err("cannot open file".to_string())), ExifParseStatus::FileError);
    assert_eq!(classify(&Err("cannot read file: denied".to_string())), ExifParseStatus::FileError);
    assert_eq!(classify(&Err("file not found".to_string())), ExifParseStatus::FileError);
    assert_eq!(classify(&Err("corrupt header".to_string())), ExifParseStatus::ParseError);
    assert_eq!(classify(&Ok(0)), ExifParseStatus::NoExifData);
    assert_eq!(classify(&Ok(3)), ExifParseStatus::Success);
}

#[test]
fn csv_has_header_and_one_line_per_tag() {
    let tags = vec![
        ExifTag::new("Camera Make".to_string(), "Canon".to_string(), "Basic".to_string()),
        ExifTag::new("Aperture".to_string(), "28/10".to_string(), "Exposure".to_string()),
        ExifTag::new("Note".to_string(), "a,b".to_string(), "Other".to_string()),
    ];
    let csv = export_csv(&tags);
    assert_eq!(
        csv,
        "Tag Name,Value,Group\nCamera Make,Canon,Basic\nAperture,28/10,Exposure\nNote,a,b,Other\n"
    );
    assert_eq!(csv.matches('\n').count(), tags.len() + 1);
    assert_eq!(export_csv(&vec![]), "Tag Name,Value,Group\n");
}

#[test]
fn export_format_names() {
    assert_eq!(export_format("json"), Some(ExportFormat::Json));
    assert_eq!(export_format("csv"), Some(ExportFormat::Csv));
    assert_eq!(export_format("xml"), None);
    assert_eq!(export_format("CSV"), None);
}

#[test]
fn tag_with_description() {
    let t = ExifTag::new("a".to_string(), "b".to_string(), "c".to_string())
        .with_description("d".to_string());
    assert_eq!(t.description.as_deref(), Some("d"));
    assert_eq!(t.name, "a");
}
