//! File names and types: extensions, image formats, MIME types, and the
//! record of a file's facts.
use vstd::prelude::*;
use crate::model::opt_view;
use crate::photo::PhotoInfo;

verus! {

/// What `str::to_lowercase` makes of a text.
pub uninterp spec fn lower_of(s: Seq<char>) -> Seq<char>;

/// Relies on `str::to_lowercase`: the Unicode lowercase mapping of the text,
/// which depends on its characters alone.
#[verifier::external_body]
fn lowercase(s: &str) -> (r: String)
    ensures
        r@ == lower_of(s@),
{
    s.to_lowercase()
}

/// What chrono renders for a Unix timestamp in UTC as `%Y-%m-%d %H:%M:%S`,
/// or `None` where the timestamp is outside chrono's range.
pub uninterp spec fn utc_text(secs: int) -> Option<Seq<char>>;

/// Relies on `chrono::DateTime::<Utc>::from_timestamp` (`None` out of range)
/// and `DateTime::format` with `"%Y-%m-%d %H:%M:%S"`.
#[verifier::external_body]
fn utc_timestamp(secs: i64) -> (r: Option<String>)
    ensures
        match r {
            Some(s) => utc_text(secs as int) == Some(s@),
            None => utc_text(secs as int).is_none(),
        },
{
    match chrono::DateTime::from_timestamp(secs, 0) {
        Some(dt) => Some(dt.format("%Y-%m-%d %H:%M:%S").to_string()),
        None => None,
    }
}

/// How a file time is shown: chrono's UTC rendering, or `Unknown time`
/// outside chrono's range.
pub open spec fn time_text(secs: int) -> Seq<char> {
    match utc_text(secs) {
        Some(t) => t,
        None => "Unknown time"@,
    }
}

pub open spec fn time_view(secs: Option<i64>) -> Option<Seq<char>> {
    match secs {
        Some(s) => Some(time_text(s as int)),
        None => None,
    }
}

/// The text shown for a file time given in seconds since the Unix epoch.
pub fn timestamp_text(secs: i64) -> (r: String)
    ensures
        r@ == time_text(secs as int),
{
    match utc_timestamp(secs) {
        Some(t) => t,
        None => String::from_str("Unknown time"),
    }
}

fn time_option(secs: Option<i64>) -> (r: Option<String>)
    ensures
        opt_view(r) == time_view(secs),
{
    match secs {
        Some(s) => Some(timestamp_text(s)),
        None => None,
    }
}

/// `s` without the `/` characters at its end.
pub open spec fn without_trailing_slashes(s: Seq<char>) -> Seq<char>
    decreases s.len(),
{
    if s.len() > 0 && s.last() == '/' {
        without_trailing_slashes(s.drop_last())
    } else {
        s
    }
}

/// The position just after the last `c` in `s`, or 0 where there is none.
pub open spec fn after_last(s: Seq<char>, c: char) -> nat
    decreases s.len(),
{
    if s.len() == 0 {
        0
    } else if s.last() == c {
        s.len()
    } else {
        after_last(s.drop_last(), c)
    }
}

/// The last `/`-separated component of a path, trailing `/` ignored.
pub open spec fn final_component(path: Seq<char>) -> Seq<char> {
    let t = without_trailing_slashes(path);
    t.skip(after_last(t, '/') as int)
}

/// The extension of a path: what follows the last `.` of its final
/// component, where that `.` is not the component's first character; none
/// for `..`.
pub open spec fn extension_of(path: Seq<char>) -> Option<Seq<char>> {
    let name = final_component(path);
    let k = after_last(name, '.');
    if name == ".."@ || k <= 1 {
        None
    } else {
        Some(name.skip(k as int))
    }
}

/// The image extensions the viewer recognises (lowercase).
pub open spec fn is_image_extension_text(e: Seq<char>) -> bool {
    e == "jpg"@ || e == "jpeg"@ || e == "png"@ || e == "gif"@ || e == "bmp"@ || e == "tiff"@
        || e == "tif"@ || e == "webp"@ || e == "raw"@ || e == "cr2"@ || e == "nef"@ || e == "arw"@
        || e == "dng"@
}

/// The MIME type of a (lowercase) extension.
pub open spec fn mime_of(e: Seq<char>) -> Option<Seq<char>> {
    if e == "jpg"@ || e == "jpeg"@ {
        Some("image/jpeg"@)
    } else if e == "png"@ {
        Some("image/png"@)
    } else if e == "gif"@ {
        Some("image/gif"@)
    } else if e == "bmp"@ {
        Some("image/bmp"@)
    } else if e == "tiff"@ || e == "tif"@ {
        Some("image/tiff"@)
    } else if e == "webp"@ {
        Some("image/webp"@)
    } else if e == "raw"@ || e == "cr2"@ || e == "nef"@ || e == "arw"@ || e == "dng"@ {
        Some("image/x-raw"@)
    } else {
        None
    }
}

/// The lowercase extension of a path, if it has one.
pub open spec fn lower_extension(path: Seq<char>) -> Option<Seq<char>> {
    match extension_of(path) {
        Some(e) => Some(lower_of(e)),
        None => None,
    }
}

fn last_not_slash_end(s: &str) -> (r: usize)
    ensures
        r <= s@.len(),
        s@.take(r as int) == without_trailing_slashes(s@),
{
    let mut end = s.unicode_len();
    assert(s@.take(end as int) =~= s@);
    while end > 0 && s.get_char(end - 1) == '/'
        invariant
            end <= s@.len(),
            without_trailing_slashes(s@) == without_trailing_slashes(s@.take(end as int)),
        decreases end,
    {
        assert(s@.take(end as int).drop_last() =~= s@.take(end - 1));
        end = end - 1;
    }
    assert(end > 0 ==> s@.take(end as int).last() == s@[end - 1]);
    end
}

/// The position after the last `c` in `s[..end]`, or 0.
fn after_last_in(s: &str, end: usize, c: char) -> (r: usize)
    requires
        end <= s@.len(),
    ensures
        r == after_last(s@.take(end as int), c),
        r <= end,
{
    let mut k = end;
    while k > 0 && s.get_char(k - 1) != c
        invariant
            k <= end <= s@.len(),
            after_last(s@.take(end as int), c) == after_last(s@.take(k as int), c),
        decreases k,
    {
        assert(s@.take(k as int).drop_last() =~= s@.take(k - 1));
        k = k - 1;
    }
    assert(k > 0 ==> s@.take(k as int).last() == s@[k - 1]);
    k
}

fn is_dot_dot(s: &str) -> (r: bool)
    ensures
        r == (s@ == ".."@),
{
    String::from_str(s) == String::from_str("..")
}

/// The extension of `path` as written, before lowercasing.
fn raw_extension(path: &str) -> (r: Option<String>)
    ensures
        match r {
            Some(e) => extension_of(path@) == Some(e@),
            None => extension_of(path@).is_none(),
        },
{
    let end = last_not_slash_end(path);
    let start = after_last_in(path, end, '/');
    let name = path.substring_char(start, end);
    let ghost t = without_trailing_slashes(path@);
    assert(name@ =~= t.skip(after_last(t, '/') as int));
    let k = after_last_in(name, name.unicode_len(), '.');
    assert(name@.take(name@.len() as int) =~= name@);
    if is_dot_dot(name) || k <= 1 {
        None
    } else {
        let ext = name.substring_char(k, name.unicode_len());
        assert(ext@ =~= name@.skip(k as int));
        Some(String::from_str(ext))
    }
}

fn text_is(s: &String, lit: &str) -> (r: bool)
    ensures
        r == (s@ == lit@),
{
    *s == String::from_str(lit)
}

/// Whether a lowercase extension is one of the image formats recognised.
pub fn is_image_extension(ext: &str) -> (r: bool)
    ensures
        r == is_image_extension_text(ext@),
{
    let e = String::from_str(ext);
    text_is(&e, "jpg") || text_is(&e, "jpeg") || text_is(&e, "png") || text_is(&e, "gif")
        || text_is(&e, "bmp") || text_is(&e, "tiff") || text_is(&e, "tif") || text_is(&e, "webp")
        || text_is(&e, "raw") || text_is(&e, "cr2") || text_is(&e, "nef") || text_is(&e, "arw")
        || text_is(&e, "dng")
}

/// The MIME type of a lowercase extension, if it is a recognised image format.
pub fn mime_for_extension(ext: &str) -> (r: Option<String>)
    ensures
        match r {
            Some(m) => mime_of(ext@) == Some(m@),
            None => mime_of(ext@).is_none(),
        },
{
    let e = String::from_str(ext);
    if text_is(&e, "jpg") || text_is(&e, "jpeg") {
        Some(String::from_str("image/jpeg"))
    } else if text_is(&e, "png") {
        Some(String::from_str("image/png"))
    } else if text_is(&e, "gif") {
        Some(String::from_str("image/gif"))
    } else if text_is(&e, "bmp") {
        Some(String::from_str("image/bmp"))
    } else if text_is(&e, "tiff") || text_is(&e, "tif") {
        Some(String::from_str("image/tiff"))
    } else if text_is(&e, "webp") {
        Some(String::from_str("image/webp"))
    } else if text_is(&e, "raw") || text_is(&e, "cr2") || text_is(&e, "nef") || text_is(&e, "arw")
        || text_is(&e, "dng") {
        Some(String::from_str("image/x-raw"))
    } else {
        None
    }
}

/// Path helpers.
pub struct FileUtils;

impl FileUtils {
    /// The lowercase extension of `path`; paths are split on `/`.
    pub fn get_file_extension(path: &str) -> (r: Option<String>)
        ensures
            match r {
                Some(e) => lower_extension(path@) == Some(e@),
                None => lower_extension(path@).is_none(),
            },
    {
        match raw_extension(path) {
            Some(e) => Some(lowercase(e.as_str())),
            None => None,
        }
    }

    /// Whether `path` names a file of a recognised image format.
    pub fn is_image_file(path: &str) -> (r: bool)
        ensures
            r == (match lower_extension(path@) {
                Some(e) => is_image_extension_text(e),
                None => false,
            }),
    {
        match Self::get_file_extension(path) {
            Some(e) => is_image_extension(e.as_str()),
            None => false,
        }
    }
}

/// Stateless access to file-type decisions.
pub struct PhotoService;

impl PhotoService {
    pub fn new() -> (r: PhotoService) {
        PhotoService
    }

    /// Whether `path` names a file of a recognised image format.
    pub fn is_supported_image(&self, path: &str) -> (r: bool)
        ensures
            r == (match lower_extension(path@) {
                Some(e) => is_image_extension_text(e),
                None => false,
            }),
    {
        FileUtils::is_image_file(path)
    }

    /// The image extensions the viewer recognises.
    pub fn get_supported_formats(&self) -> (r: Vec<&'static str>)
        ensures
            r@.len() == 13,
            forall|i: int| 0 <= i < r@.len() ==> is_image_extension_text(#[trigger] r@[i]@),
            forall|e: Seq<char>| is_image_extension_text(e) ==> exists|i: int| 0 <= i < r@.len() && #[trigger] r@[i]@ == e,
    {
        let r = vec![
            "jpg", "jpeg", "png", "gif", "bmp", "tiff", "tif", "webp", "raw", "cr2", "nef", "arw", "dng",
        ];
        assert forall|e: Seq<char>| is_image_extension_text(e) implies exists|i: int| 0 <= i < r@.len() && #[trigger] r@[i]@ == e by {
            if e == "jpg"@ { assert(r@[0]@ == e); }
            else if e == "jpeg"@ { assert(r@[1]@ == e); }
            else if e == "png"@ { assert(r@[2]@ == e); }
            else if e == "gif"@ { assert(r@[3]@ == e); }
            else if e == "bmp"@ { assert(r@[4]@ == e); }
            else if e == "tiff"@ { assert(r@[5]@ == e); }
            else if e == "tif"@ { assert(r@[6]@ == e); }
            else if e == "webp"@ { assert(r@[7]@ == e); }
            else if e == "raw"@ { assert(r@[8]@ == e); }
            else if e == "cr2"@ { assert(r@[9]@ == e); }
            else if e == "nef"@ { assert(r@[10]@ == e); }
            else if e == "arw"@ { assert(r@[11]@ == e); }
            else { assert(r@[12]@ == e); }
        }
        r
    }

    /// The record of a file from the facts the file system gave: its name
    /// (`Unknown` without one), size, pixel dimensions and the modification
    /// and creation times in seconds since the Unix epoch; the MIME type comes
    /// from the path's extension.
    pub fn describe_file(
        &self,
        path: String,
        name: Option<String>,
        size: u64,
        dimensions: Option<(u32, u32)>,
        modified_secs: Option<i64>,
        created_secs: Option<i64>,
    ) -> (r: PhotoInfo)
        ensures
            r.path@ == path@,
            r.name@ == (match name {
                Some(n) => n@,
                None => "Unknown"@,
            }),
            r.size == size,
            match r.mime_type {
                Some(m) => lower_extension(path@) matches Some(e) && mime_of(e) == Some(m@),
                None => match lower_extension(path@) {
                    Some(e) => mime_of(e).is_none(),
                    None => true,
                },
            },
            match dimensions {
                Some((w, h)) => r.width == Some(w) && r.height == Some(h),
                None => r.width.is_none() && r.height.is_none(),
            },
            opt_view(r.modified_at) == time_view(modified_secs),
            opt_view(r.created_at) == time_view(created_secs),
            r.exif_tags@.len() == 0,
            r.file_info@.len() == 0,
            !r.format_supported,
            !r.exif_available,
    {
        let mime = self.detect_mime_type(path.as_str());
        let mut info = PhotoInfo::new(path);
        match name {
            Some(n) => {
                info.name = n;
            },
            None => {},
        }
        info.size = size;
        info.mime_type = mime;
        match dimensions {
            Some((w, h)) => {
                info.width = Some(w);
                info.height = Some(h);
            },
            None => {},
        }
        info.modified_at = time_option(modified_secs);
        info.created_at = time_option(created_secs);
        info
    }

    /// The MIME type of `path`, from its extension.
    pub fn detect_mime_type(&self, path: &str) -> (r: Option<String>)
        ensures
            match r {
                Some(m) => lower_extension(path@) matches Some(e) && mime_of(e) == Some(m@),
                None => match lower_extension(path@) {
                    Some(e) => mime_of(e).is_none(),
                    None => true,
                },
            },
    {
        match FileUtils::get_file_extension(path) {
            Some(e) => mime_for_extension(e.as_str()),
            None => None,
        }
    }
}

} // verus!
