//! The photo record, its builder, and the classification of a parse attempt.
use vstd::prelude::*;
use crate::model::{opt_view, ExifTag};
use crate::scan::{
    contains_seq, contains_text, find_char, first_word, first_word_of, index_of, parse_bounded,
    parse_unsigned, trim_text, trimmed, lemma_index_of_bound,
};
use crate::service::{tag_views, Extraction};

verus! {

/// Everything shown about one photo file.
#[derive(Clone, Debug)]
pub struct PhotoInfo {
    pub path: String,
    pub name: String,
    pub size: u64,
    pub mime_type: Option<String>,
    pub width: Option<u32>,
    pub height: Option<u32>,
    pub created_at: Option<String>,
    pub modified_at: Option<String>,
    pub exif_tags: Vec<ExifTag>,
    /// File facts as (key, text) entries; a key's first entry counts.
    pub file_info: Vec<(String, String)>,
    pub format_supported: bool,
    pub exif_available: bool,
}

/// How an attempt to read a photo's metadata ended.
#[derive(Clone, Copy, Debug, PartialEq, Eq, Structural)]
pub enum ExifParseStatus {
    Success,
    NoExifData,
    UnsupportedFormat,
    FileError,
    ParseError,
}

/// A photo record with the outcome of reading its metadata.
#[derive(Clone, Debug)]
pub struct ExifParseResult {
    pub photo_info: PhotoInfo,
    pub parse_status: ExifParseStatus,
    pub message: Option<String>,
}

pub open spec fn entries_view(v: Seq<(String, String)>) -> Seq<(Seq<char>, Seq<char>)> {
    v.map_values(|e: (String, String)| (e.0@, e.1@))
}

/// The text of the first entry under `key`.
pub open spec fn lookup(entries: Seq<(Seq<char>, Seq<char>)>, key: Seq<char>) -> Option<Seq<char>>
    decreases entries.len(),
{
    if entries.len() == 0 {
        None
    } else if entries[0].0 == key {
        Some(entries[0].1)
    } else {
        lookup(entries.drop_first(), key)
    }
}

pub open spec fn name_key() -> Seq<char> {
    "File Name"@
}

pub open spec fn size_key() -> Seq<char> {
    "File Size"@
}

pub open spec fn modified_key() -> Seq<char> {
    "Modified"@
}

pub open spec fn dimensions_key() -> Seq<char> {
    "Dimensions"@
}

/// The byte count a size text starts with (`"2048 bytes"`), or 0.
pub open spec fn size_from(text: Option<Seq<char>>) -> u64 {
    match text {
        Some(t) => match first_word(t) {
            Some(w) => match parse_unsigned(w, u64::MAX as nat) {
                Some(n) => n as u64,
                None => 0,
            },
            None => 0,
        },
        None => 0,
    }
}

/// Width and height from a text of the form `"4000x3000"` (spaces allowed
/// around the numbers, more words after the height).
pub open spec fn dimensions_from(text: Option<Seq<char>>) -> Option<(u32, u32)> {
    match text {
        Some(t) => {
            let k = index_of(t, 'x');
            if k >= t.len() {
                None
            } else {
                let w = parse_unsigned(trimmed(t.take(k as int)), u32::MAX as nat);
                let h = match first_word(t.skip(k + 1 as int)) {
                    Some(word) => parse_unsigned(word, u32::MAX as nat),
                    None => None,
                };
                if w.is_some() && h.is_some() {
                    Some((w.unwrap() as u32, h.unwrap() as u32))
                } else {
                    None
                }
            }
        },
        None => None,
    }
}

/// `info` is the record `new_with_exif` builds from these arguments.
pub open spec fn built_from(
    info: PhotoInfo,
    path: Seq<char>,
    tags: Seq<ExifTag>,
    entries: Seq<(String, String)>,
) -> bool {
    let ev = entries_view(entries);
    &&& info.path@ == path
    &&& info.name@ == (match lookup(ev, name_key()) {
        Some(n) => n,
        None => "Unknown"@,
    })
    &&& info.size == size_from(lookup(ev, size_key()))
    &&& info.mime_type.is_none()
    &&& info.created_at.is_none()
    &&& opt_view(info.modified_at) == lookup(ev, modified_key())
    &&& (match dimensions_from(lookup(ev, dimensions_key())) {
        Some((w, h)) => info.width == Some(w) && info.height == Some(h),
        None => info.width.is_none() && info.height.is_none(),
    })
    &&& tag_views(info.exif_tags@) == tag_views(tags)
    &&& entries_view(info.file_info@) == ev
    &&& info.format_supported
    &&& info.exif_available == (tags.len() > 0)
}

fn find_entry(entries: &Vec<(String, String)>, key: &str) -> (r: Option<usize>)
    ensures
        match r {
            Some(i) => i < entries@.len() && lookup(entries_view(entries@), key@) == Some(
                entries@[i as int].1@,
            ),
            None => lookup(entries_view(entries@), key@).is_none(),
        },
{
    let ghost ev = entries_view(entries@);
    let target = String::from_str(key);
    let mut i: usize = 0;
    assert(ev.skip(0) =~= ev);
    while i < entries.len()
        invariant
            i <= entries@.len(),
            ev == entries_view(entries@),
            target@ == key@,
            lookup(ev, key@) == lookup(ev.skip(i as int), key@),
        decreases entries.len() - i,
    {
        assert(ev.skip(i as int)[0] == (entries@[i as int].0@, entries@[i as int].1@));
        if entries[i].0 == target {
            return Some(i);
        }
        assert(ev.skip(i as int).drop_first() =~= ev.skip(i + 1));
        i = i + 1;
    }
    None
}

fn size_of_text(text: &str) -> (r: u64)
    ensures
        r == size_from(Some(text@)),
{
    match first_word_of(text) {
        Some(word) => match parse_bounded(word.as_str(), u64::MAX) {
            Some(n) => n,
            None => 0,
        },
        None => 0,
    }
}

fn dimensions_of_text(text: &str) -> (r: Option<(u32, u32)>)
    ensures
        r == dimensions_from(Some(text@)),
{
    let k = find_char(text, 'x');
    let n = text.unicode_len();
    proof {
        lemma_index_of_bound(text@, 'x');
    }
    if k >= n {
        return None;
    }
    let before = trim_text(text.substring_char(0, k));
    let w = parse_bounded(before.as_str(), u32::MAX as u64);
    let after = text.substring_char(k + 1, n);
    assert(after@ =~= text@.skip(k + 1));
    assert(text@.subrange(0, k as int) =~= text@.take(k as int));
    let h = match first_word_of(after) {
        Some(word) => parse_bounded(word.as_str(), u32::MAX as u64),
        None => None,
    };
    match (w, h) {
        (Some(w), Some(h)) => Some((w as u32, h as u32)),
        _ => None,
    }
}

fn clone_text(s: &String) -> (r: String)
    ensures
        r@ == s@,
{
    String::from_str(s.as_str())
}

impl PhotoInfo {
    /// A record for `path` with nothing known about the file yet.
    pub fn new(path: String) -> (r: PhotoInfo)
        ensures
            r.path@ == path@,
            r.name@ == "Unknown"@,
            r.size == 0,
            r.mime_type.is_none(),
            r.width.is_none(),
            r.height.is_none(),
            r.created_at.is_none(),
            r.modified_at.is_none(),
            r.exif_tags@.len() == 0,
            r.file_info@.len() == 0,
            !r.format_supported,
            !r.exif_available,
    {
        PhotoInfo {
            path,
            name: String::from_str("Unknown"),
            size: 0,
            mime_type: None,
            width: None,
            height: None,
            created_at: None,
            modified_at: None,
            exif_tags: Vec::new(),
            file_info: Vec::new(),
            format_supported: false,
            exif_available: false,
        }
    }

    /// A record for a file whose metadata was extracted: the tags, the file
    /// facts, and what the facts say of name, size, modification time and
    /// pixel dimensions.
    pub fn new_with_exif(path: String, exif_tags: Vec<ExifTag>, file_info: Vec<(String, String)>) -> (r: PhotoInfo)
        ensures
            built_from(r, path@, exif_tags@, file_info@),
    {
        let ghost ev = entries_view(file_info@);
        let ghost tags = exif_tags@;
        let mut info = PhotoInfo::new(path);
        match find_entry(&file_info, "File Name") {
            Some(i) => {
                info.name = clone_text(&file_info[i].1);
            },
            None => {},
        }
        match find_entry(&file_info, "File Size") {
            Some(i) => {
                info.size = size_of_text(file_info[i].1.as_str());
            },
            None => {},
        }
        match find_entry(&file_info, "Modified") {
            Some(i) => {
                info.modified_at = Some(clone_text(&file_info[i].1));
            },
            None => {},
        }
        match find_entry(&file_info, "Dimensions") {
            Some(i) => match dimensions_of_text(file_info[i].1.as_str()) {
                Some((w, h)) => {
                    info.width = Some(w);
                    info.height = Some(h);
                },
                None => {},
            },
            None => {},
        }
        info.format_supported = true;
        info.exif_available = exif_tags.len() > 0;
        info.exif_tags = exif_tags;
        info.file_info = file_info;
        info
    }
}

/// Status of a failed attempt, from its message: an unknown container
/// format, a file that could not be opened or read, or anything else.
pub open spec fn error_status(message: Seq<char>) -> ExifParseStatus {
    if contains_seq(message, "unsupported format"@) {
        ExifParseStatus::UnsupportedFormat
    } else if contains_seq(message, "file not found"@) || contains_seq(message, "cannot open"@)
        || contains_seq(message, "cannot read"@) {
        ExifParseStatus::FileError
    } else {
        ExifParseStatus::ParseError
    }
}

/// Status of an attempt: `Ok` carries the number of real tags found.
pub open spec fn attempt_status(attempt: Result<usize, String>) -> ExifParseStatus {
    match attempt {
        Ok(n) => if n == 0 {
            ExifParseStatus::NoExifData
        } else {
            ExifParseStatus::Success
        },
        Err(m) => error_status(m@),
    }
}

/// Message given with a `NoExifData` outcome.
pub open spec fn no_data_message() -> Seq<char> {
    "The file was read, but it holds no EXIF metadata. Its format may not carry EXIF, or the metadata was lost in editing."@
}

/// The outcome of a metadata read attempt: `Ok` with the number of real
/// (non-placeholder) tags found, or `Err` with the failure's message.
pub fn classify(attempt: &Result<usize, String>) -> (r: ExifParseStatus)
    ensures
        r == attempt_status(*attempt),
{
    match attempt {
        Ok(n) => if *n == 0 {
            ExifParseStatus::NoExifData
        } else {
            ExifParseStatus::Success
        },
        Err(m) => {
            if contains_text(m.as_str(), "unsupported format") {
                ExifParseStatus::UnsupportedFormat
            } else if contains_text(m.as_str(), "file not found") || contains_text(
                m.as_str(),
                "cannot open",
            ) || contains_text(m.as_str(), "cannot read") {
                ExifParseStatus::FileError
            } else {
                ExifParseStatus::ParseError
            }
        },
    }
}

impl ExifParseResult {
    pub fn success(photo_info: PhotoInfo) -> (r: ExifParseResult)
        ensures
            r.photo_info == photo_info,
            r.parse_status == ExifParseStatus::Success,
            r.message.is_none(),
    {
        ExifParseResult { photo_info, parse_status: ExifParseStatus::Success, message: None }
    }

    pub fn no_exif_data(photo_info: PhotoInfo, message: String) -> (r: ExifParseResult)
        ensures
            r.photo_info == photo_info,
            r.parse_status == ExifParseStatus::NoExifData,
            r.message == Some(message),
    {
        ExifParseResult {
            photo_info,
            parse_status: ExifParseStatus::NoExifData,
            message: Some(message),
        }
    }

    /// A failure outcome: a bare record for `path` with `status` and `message`.
    fn failure(path: String, status: ExifParseStatus, message: String) -> (r: ExifParseResult)
        ensures
            r.photo_info.path@ == path@,
            r.photo_info.name@ == "Unknown"@,
            r.photo_info.exif_tags@.len() == 0,
            !r.photo_info.format_supported,
            !r.photo_info.exif_available,
            r.parse_status == status,
            r.message == Some(message),
    {
        ExifParseResult { photo_info: PhotoInfo::new(path), parse_status: status, message: Some(message) }
    }

    pub fn unsupported_format(path: String, message: String) -> (r: ExifParseResult)
        ensures
            r.photo_info.path@ == path@,
            r.photo_info.name@ == "Unknown"@,
            r.photo_info.exif_tags@.len() == 0,
            !r.photo_info.format_supported,
            !r.photo_info.exif_available,
            r.parse_status == ExifParseStatus::UnsupportedFormat,
            r.message == Some(message),
    {
        Self::failure(path, ExifParseStatus::UnsupportedFormat, message)
    }

    pub fn file_error(path: String, message: String) -> (r: ExifParseResult)
        ensures
            r.photo_info.path@ == path@,
            r.photo_info.name@ == "Unknown"@,
            r.photo_info.exif_tags@.len() == 0,
            !r.photo_info.format_supported,
            !r.photo_info.exif_available,
            r.parse_status == ExifParseStatus::FileError,
            r.message == Some(message),
    {
        Self::failure(path, ExifParseStatus::FileError, message)
    }

    pub fn parse_error(path: String, message: String) -> (r: ExifParseResult)
        ensures
            r.photo_info.path@ == path@,
            r.photo_info.name@ == "Unknown"@,
            r.photo_info.exif_tags@.len() == 0,
            !r.photo_info.format_supported,
            !r.photo_info.exif_available,
            r.parse_status == ExifParseStatus::ParseError,
            r.message == Some(message),
    {
        Self::failure(path, ExifParseStatus::ParseError, message)
    }
}

/// The file facts known before extraction: the file name, when there is one.
pub open spec fn name_entries(file_name: Option<String>) -> Seq<(Seq<char>, Seq<char>)> {
    match file_name {
        Some(n) => seq![(name_key(), n@)],
        None => Seq::empty(),
    }
}

/// The outcome of one metadata request for `path`: on a successful
/// extraction, the record built from its tags and the file name, with status
/// `Success` or `NoExifData` by the number of real tags; on a failure, a bare
/// record with the status the message indicates and the message itself.
pub fn read_photo_result(path: String, file_name: Option<String>, attempt: Result<Extraction, String>) -> (r: ExifParseResult)
    ensures
        match attempt {
            Ok(ex) => {
                &&& built_from(r.photo_info, path@, ex.tags@, r.photo_info.file_info@)
                &&& entries_view(r.photo_info.file_info@) == name_entries(file_name)
                &&& r.parse_status == attempt_status(Ok(ex.real_count))
                &&& opt_view(r.message) == (if ex.real_count == 0 {
                    Some(no_data_message())
                } else {
                    None::<Seq<char>>
                })
            },
            Err(m) => {
                &&& r.photo_info.path@ == path@
                &&& r.photo_info.exif_tags@.len() == 0
                &&& !r.photo_info.exif_available
                &&& r.parse_status == error_status(m@)
                &&& r.message == Some(m)
            },
        },
{
    match attempt {
        Ok(ex) => {
            let mut file_info: Vec<(String, String)> = Vec::new();
            match file_name {
                Some(n) => {
                    file_info.push((String::from_str("File Name"), n));
                },
                None => {},
            }
            assert(entries_view(file_info@) =~= name_entries(file_name));
            let status = classify(&Ok(ex.real_count));
            let info = PhotoInfo::new_with_exif(path, ex.tags, file_info);
            if ex.real_count == 0 {
                ExifParseResult::no_exif_data(info, String::from_str(
                    "The file was read, but it holds no EXIF metadata. Its format may not carry EXIF, or the metadata was lost in editing.",
                ))
            } else {
                ExifParseResult::success(info)
            }
        },
        Err(m) => {
            let status = classify(&Err(m.clone()));
            ExifParseResult::failure(path, status, m)
        },
    }
}

} // verus!
