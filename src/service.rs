//! The metadata extractor: decoded fields to display tags.
use vstd::prelude::*;
use crate::catalog::{group_of, name_of, tag_group, tag_name};
use crate::format::{format_value, value_text, RawValue};
use crate::model::{ExifGroup, ExifTag, TagId, TagModel};

verus! {

/// One decoded field: a tag identifier and its raw value.
#[derive(Clone, Debug)]
pub struct RawField {
    pub tag: TagId,
    pub value: RawValue,
}

/// The tags made from a field sequence, with the number of them that came
/// from fields (the placeholder tag, when present, is not counted).
#[derive(Clone, Debug)]
pub struct Extraction {
    pub tags: Vec<ExifTag>,
    pub real_count: usize,
}

/// Name of the placeholder tag shown when no field has a value to show.
pub open spec fn hint_name() -> Seq<char> {
    "Hint"@
}

/// Value of the placeholder tag.
pub open spec fn hint_text() -> Seq<char> {
    "This image contains no EXIF metadata"@
}

/// The placeholder tag.
pub open spec fn hint_tag() -> TagModel {
    TagModel {
        name: hint_name(),
        value: hint_text(),
        group: ExifGroup::Basic.label(),
        description: None,
    }
}

/// A field is shown when its value has non-empty display text.
pub open spec fn shown(f: RawField) -> bool {
    value_text(f.value).len() > 0
}

/// The tag a field is shown as.
pub open spec fn tag_of(f: RawField) -> TagModel {
    TagModel {
        name: name_of(f.tag),
        value: value_text(f.value),
        group: group_of(f.tag).label(),
        description: None,
    }
}

/// The tags of the shown fields, in the fields' order.
pub open spec fn real_tags(fields: Seq<RawField>) -> Seq<TagModel> {
    fields.filter(|f: RawField| shown(f)).map_values(|f: RawField| tag_of(f))
}

/// The extractor's tag sequence: the real tags, or the placeholder alone.
pub open spec fn extracted(fields: Seq<RawField>) -> Seq<TagModel> {
    if real_tags(fields).len() == 0 {
        seq![hint_tag()]
    } else {
        real_tags(fields)
    }
}

pub open spec fn tag_views(tags: Seq<ExifTag>) -> Seq<TagModel> {
    tags.map_values(|t: ExifTag| t@)
}

/// Stateless access to the catalog, the formatter and the extractor.
pub struct ExifService;

impl ExifService {
    pub fn new() -> (r: ExifService) {
        ExifService
    }

    /// The display name of `tag`.
    pub fn get_tag_name(&self, tag: TagId) -> (r: String)
        ensures
            r@ == name_of(tag),
    {
        tag_name(tag)
    }

    /// The label of the group of `tag`.
    pub fn get_tag_group(&self, tag: TagId) -> (r: String)
        ensures
            r@ == group_of(tag).label(),
    {
        String::from_str(tag_group(tag).as_str())
    }

    /// The display text of `value`.
    pub fn format_tag_value(&self, value: &RawValue) -> (r: String)
        ensures
            r@ == value_text(*value),
    {
        format_value(value)
    }

    /// The file extensions whose containers the decoder reads.
    pub fn get_supported_formats(&self) -> (r: Vec<&'static str>)
        ensures
            r@.map_values(|s: &str| s@) == seq!["jpg"@, "jpeg"@, "tiff"@, "tif"@],
    {
        let r = vec!["jpg", "jpeg", "tiff", "tif"];
        assert(r@.map_values(|s: &str| s@) =~= seq!["jpg"@, "jpeg"@, "tiff"@, "tif"@]);
        r
    }

    /// The display tags of `fields`, in order, skipping fields whose value
    /// has empty display text; the placeholder tag alone where none is left.
    pub fn extract(&self, fields: &Vec<RawField>) -> (r: Extraction)
        ensures
            tag_views(r.tags@) == extracted(fields@),
            r.real_count == real_tags(fields@).len(),
    {
        let mut tags: Vec<ExifTag> = Vec::new();
        let mut i: usize = 0;
        while i < fields.len()
            invariant
                i <= fields.len(),
                tag_views(tags@) == real_tags(fields@.subrange(0, i as int)),
            decreases fields.len() - i,
        {
            let ghost before = fields@.subrange(0, i as int);
            let ghost after = fields@.subrange(0, i as int + 1);
            assert(after.drop_last() =~= before);
            assert(after.last() == fields@[i as int]);
            proof {
                reveal(Seq::filter);
            }
            let field = &fields[i];
            let value = self.format_tag_value(&field.value);
            if value.unicode_len() > 0 {
                let name = self.get_tag_name(field.tag);
                let group = self.get_tag_group(field.tag);
                let ghost old_tags = tags@;
                tags.push(ExifTag::new(name, value, group));
                assert(tag_views(tags@) =~= tag_views(old_tags).push(tag_of(fields@[i as int])));
                assert(after.filter(|f: RawField| shown(f)) == before.filter(|f: RawField| shown(f)).push(fields@[i as int]));
                assert(real_tags(after) =~= real_tags(before).push(tag_of(fields@[i as int])));
            } else {
                assert(after.filter(|f: RawField| shown(f)) == before.filter(|f: RawField| shown(f)));
            }
            i = i + 1;
        }
        assert(fields@.subrange(0, fields.len() as int) =~= fields@);
        let real_count = tags.len();
        if real_count == 0 {
            let ghost old_tags = tags@;
            let name = String::from_str("Hint");
            let value = String::from_str("This image contains no EXIF metadata");
            let group = String::from_str(ExifGroup::Basic.as_str());
            tags.push(ExifTag::new(name, value, group));
            assert(tag_views(tags@) =~= seq![hint_tag()]);
        }
        Extraction { tags, real_count }
    }
}

/// With no field whose value has display text (an empty sequence included),
/// the extractor yields exactly one tag, the placeholder.
pub proof fn lemma_nothing_shown(fields: Seq<RawField>)
    requires
        forall|i: int| 0 <= i < fields.len() ==> !shown(#[trigger] fields[i]),
    ensures
        real_tags(fields).len() == 0,
        extracted(fields) == seq![hint_tag()],
    decreases fields.len(),
{
    reveal(Seq::filter);
    if fields.len() > 0 {
        assert forall|i: int| 0 <= i < fields.drop_last().len() implies !shown(
            #[trigger] fields.drop_last()[i],
        ) by {
            assert(fields.drop_last()[i] == fields[i]);
        }
        lemma_nothing_shown(fields.drop_last());
        assert(!shown(fields[fields.len() - 1]));
    }
}

/// With at least one field whose value has display text, the number of real
/// tags is the number of such fields, and no placeholder is added.
pub proof fn lemma_something_shown(fields: Seq<RawField>)
    requires
        exists|i: int| 0 <= i < fields.len() && shown(#[trigger] fields[i]),
    ensures
        real_tags(fields).len() == fields.filter(|f: RawField| shown(f)).len(),
        real_tags(fields).len() > 0,
        extracted(fields) == real_tags(fields),
{
    let i = choose|i: int| 0 <= i < fields.len() && shown(#[trigger] fields[i]);
    fields.lemma_filter_contains(|f: RawField| shown(f), i);
}

} // verus!
