//! The library's data: tag identifiers, groups, display tags, photo records
//! and parse outcomes.
use vstd::prelude::*;

verus! {

/// The directory a tag number is interpreted in.
#[derive(Clone, Copy, Debug, PartialEq, Eq, Structural)]
pub enum TagContext {
    Tiff,
    Exif,
    Gps,
    Interop,
}

/// A tag identifier: its context and its number within that context.
#[derive(Clone, Copy, Debug, PartialEq, Eq, Structural)]
pub struct TagId {
    pub context: TagContext,
    pub number: u16,
}

/// The semantic group a tag is shown under.
#[derive(Clone, Copy, Debug, PartialEq, Eq, Structural)]
pub enum ExifGroup {
    Basic,
    Camera,
    Exposure,
    Gps,
    DateTime,
    Other,
}

impl ExifGroup {
    /// The display label of the group.
    pub open spec fn label(self) -> Seq<char> {
        match self {
            ExifGroup::Basic => "Basic"@,
            ExifGroup::Camera => "Camera"@,
            ExifGroup::Exposure => "Exposure"@,
            ExifGroup::Gps => "GPS"@,
            ExifGroup::DateTime => "Date/Time"@,
            ExifGroup::Other => "Other"@,
        }
    }

    pub fn as_str(&self) -> (r: &'static str)
        ensures
            r@ == self.label(),
    {
        match self {
            ExifGroup::Basic => "Basic",
            ExifGroup::Camera => "Camera",
            ExifGroup::Exposure => "Exposure",
            ExifGroup::Gps => "GPS",
            ExifGroup::DateTime => "Date/Time",
            ExifGroup::Other => "Other",
        }
    }
}

/// What a display tag holds, as text.
pub struct TagModel {
    pub name: Seq<char>,
    pub value: Seq<char>,
    pub group: Seq<char>,
    pub description: Option<Seq<char>>,
}

/// One line of display metadata.
#[derive(Clone, Debug)]
pub struct ExifTag {
    pub name: String,
    pub value: String,
    pub group: String,
    pub description: Option<String>,
}

pub open spec fn opt_view(o: Option<String>) -> Option<Seq<char>> {
    match o {
        Some(s) => Some(s@),
        None => None,
    }
}

impl View for ExifTag {
    type V = TagModel;

    open spec fn view(&self) -> TagModel {
        TagModel {
            name: self.name@,
            value: self.value@,
            group: self.group@,
            description: opt_view(self.description),
        }
    }
}

impl ExifTag {
    pub fn new(name: String, value: String, group: String) -> (r: ExifTag)
        ensures
            r@ == (TagModel { name: name@, value: value@, group: group@, description: None }),
    {
        ExifTag { name, value, group, description: None }
    }

    pub fn with_description(self, description: String) -> (r: ExifTag)
        ensures
            r@ == (TagModel { description: Some(description@), ..self@ }),
    {
        let mut t = self;
        t.description = Some(description);
        t
    }
}

} // verus!
