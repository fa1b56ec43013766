//! Export of display tags: the CSV text and the choice of export format.
use vstd::prelude::*;
use crate::model::{ExifTag, TagModel};
use crate::service::{hint_name, tag_views};

verus! {

/// The export formats offered.
#[derive(Clone, Copy, Debug, PartialEq, Eq, Structural)]
pub enum ExportFormat {
    Json,
    Csv,
}

/// The format a request names: `"json"` or `"csv"`.
pub open spec fn format_named(name: Seq<char>) -> Option<ExportFormat> {
    if name == "json"@ {
        Some(ExportFormat::Json)
    } else if name == "csv"@ {
        Some(ExportFormat::Csv)
    } else {
        None
    }
}

/// The export format named `name`, if it is one of those offered.
pub fn export_format(name: &str) -> (r: Option<ExportFormat>)
    ensures
        r == format_named(name@),
{
    let given = String::from_str(name);
    if given == String::from_str("json") {
        Some(ExportFormat::Json)
    } else if given == String::from_str("csv") {
        Some(ExportFormat::Csv)
    } else {
        None
    }
}

pub open spec fn csv_header() -> Seq<char> {
    "Tag Name,Value,Group"@.push('\n')
}

/// One CSV line: name, value and group, comma separated, unescaped.
pub open spec fn csv_row(t: TagModel) -> Seq<char> {
    t.name + seq![','] + t.value + seq![','] + t.group + seq!['\n']
}

pub open spec fn csv_rows(tags: Seq<TagModel>) -> Seq<char>
    decreases tags.len(),
{
    if tags.len() == 0 {
        Seq::empty()
    } else {
        csv_rows(tags.drop_last()) + csv_row(tags.last())
    }
}

/// The CSV export: the header line, then one line per tag.
pub open spec fn csv_text(tags: Seq<TagModel>) -> Seq<char> {
    csv_header() + csv_rows(tags)
}

/// The CSV export of `tags`. Fields are written as they are: a comma or a
/// line break inside one is not escaped.
pub fn export_csv(tags: &Vec<ExifTag>) -> (r: String)
    ensures
        r@ == csv_text(tag_views(tags@)),
{
    let mut r = String::from_str("Tag Name,Value,Group\n");
    proof {
        reveal_strlit("Tag Name,Value,Group\n");
        reveal_strlit("Tag Name,Value,Group");
    }
    assert(r@ =~= csv_header());
    let ghost views = tag_views(tags@);
    let mut i: usize = 0;
    while i < tags.len()
        invariant
            i <= tags@.len(),
            views == tag_views(tags@),
            r@ == csv_header() + csv_rows(views.take(i as int)),
        decreases tags.len() - i,
    {
        proof {
            reveal_strlit(",");
            reveal_strlit("\n");
        }
        let ghost r0 = r@;
        let t = &tags[i];
        r.append(t.name.as_str());
        r.append(",");
        r.append(t.value.as_str());
        r.append(",");
        r.append(t.group.as_str());
        r.append("\n");
        assert(views.take(i + 1).drop_last() =~= views.take(i as int));
        assert(views.take(i + 1).last() == t@);
        assert(r@ =~= r0 + csv_row(t@));
        i = i + 1;
    }
    assert(views.take(tags.len() as int) =~= views);
    r
}

/// Number of line breaks in `s`.
pub open spec fn line_count(s: Seq<char>) -> nat
    decreases s.len(),
{
    if s.len() == 0 {
        0
    } else {
        line_count(s.drop_last()) + if s.last() == '\n' { 1nat } else { 0nat }
    }
}

pub open spec fn no_line_break(s: Seq<char>) -> bool {
    forall|i: int| 0 <= i < s.len() ==> s[i] != '\n'
}

proof fn lemma_line_count_concat(a: Seq<char>, b: Seq<char>)
    ensures
        line_count(a + b) == line_count(a) + line_count(b),
    decreases b.len(),
{
    if b.len() == 0 {
        assert(a + b =~= a);
    } else {
        lemma_line_count_concat(a, b.drop_last());
        assert((a + b).drop_last() =~= a + b.drop_last());
    }
}

proof fn lemma_line_count_none(s: Seq<char>)
    requires
        no_line_break(s),
    ensures
        line_count(s) == 0,
    decreases s.len(),
{
    if s.len() > 0 {
        lemma_line_count_none(s.drop_last());
    }
}

proof fn lemma_row_lines(t: TagModel)
    requires
        no_line_break(t.name),
        no_line_break(t.value),
        no_line_break(t.group),
    ensures
        line_count(csv_row(t)) == 1,
{
    let body = t.name + seq![','] + t.value + seq![','] + t.group;
    assert(csv_row(t) =~= body.push('\n'));
    assert(body.push('\n').drop_last() =~= body);
    assert(no_line_break(body));
    lemma_line_count_none(body);
}

/// When no tag's name, value or group holds a line break, the CSV export has
/// one line more than there are tags: the header.
pub proof fn lemma_csv_line_count(tags: Seq<TagModel>)
    requires
        forall|i: int|
            0 <= i < tags.len() ==> no_line_break(#[trigger] tags[i].name) && no_line_break(
                tags[i].value,
            ) && no_line_break(tags[i].group),
    ensures
        line_count(csv_text(tags)) == tags.len() + 1,
    decreases tags.len(),
{
    if tags.len() == 0 {
        reveal_strlit("Tag Name,Value,Group");
        lemma_line_count_none("Tag Name,Value,Group"@);
        assert(csv_header().drop_last() =~= "Tag Name,Value,Group"@);
        assert(csv_text(tags) =~= csv_header());
    } else {
        let rest = tags.drop_last();
        assert forall|i: int| 0 <= i < rest.len() implies no_line_break(#[trigger] rest[i].name)
            && no_line_break(rest[i].value) && no_line_break(rest[i].group) by {
            assert(rest[i] == tags[i]);
        }
        lemma_csv_line_count(rest);
        let last = tags.last();
        assert(no_line_break(tags[tags.len() - 1].name));
        lemma_row_lines(last);
        assert(csv_text(tags) =~= csv_text(rest) + csv_row(last));
        lemma_line_count_concat(csv_text(rest), csv_row(last));
    }
}

/// Whether any tag is a real one rather than the placeholder.
pub fn has_real_metadata(tags: &Vec<ExifTag>) -> (r: bool)
    ensures
        r == exists|i: int| 0 <= i < tags@.len() && #[trigger] tags@[i].name@ != hint_name(),
{
    let hint = String::from_str("Hint");
    let mut i: usize = 0;
    while i < tags.len()
        invariant
            i <= tags@.len(),
            hint@ == hint_name(),
            forall|j: int| 0 <= j < i ==> #[trigger] tags@[j].name@ == hint_name(),
        decreases tags.len() - i,
    {
        if tags[i].name != hint {
            return true;
        }
        i = i + 1;
    }
    false
}

} // verus!
