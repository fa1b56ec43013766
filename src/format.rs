//! The value formatter: raw typed tag values to display text.
use vstd::prelude::*;
use crate::text::{bracketed, decimal, signed_decimal, render_decimal, render_signed, render_list};

verus! {

/// A raw tag value as the container decoder hands it over.
#[derive(Clone, Debug)]
pub enum RawValue {
    /// Text pieces, each a byte string.
    Ascii(Vec<Vec<u8>>),
    Short(Vec<u16>),
    Long(Vec<u32>),
    /// Unsigned (numerator, denominator) pairs.
    Rational(Vec<(u32, u32)>),
    /// Signed (numerator, denominator) pairs.
    SRational(Vec<(i32, i32)>),
    /// Opaque bytes.
    Undefined(Vec<u8>),
    /// Any other kind, already in its textual form.
    Other(String),
}

/// Byte strings longer than this are summarised by their length.
pub const MAX_LISTED_BYTES: usize = 32;

/// What `String::from_utf8_lossy` makes of a byte string.
pub uninterp spec fn lossy_text(bytes: Seq<u8>) -> Seq<char>;

/// Relies on `String::from_utf8_lossy`: the bytes read as UTF-8, each invalid
/// sequence replaced; the text depends on the bytes alone.
#[verifier::external_body]
fn decode_lossy(bytes: &[u8]) -> (r: String)
    ensures
        r@ == lossy_text(bytes@),
{
    String::from_utf8_lossy(bytes).into_owned()
}

/// `s` without the NUL characters at its end.
pub open spec fn without_trailing_nuls(s: Seq<char>) -> Seq<char>
    decreases s.len(),
{
    if s.len() > 0 && s.last() == '\0' {
        without_trailing_nuls(s.drop_last())
    } else {
        s
    }
}

/// `num/den`.
pub open spec fn ratio_text(num: int, den: int) -> Seq<char> {
    signed_decimal(num) + seq!['/'] + signed_decimal(den)
}

pub open spec fn u16_texts(xs: Seq<u16>) -> Seq<Seq<char>> {
    xs.map_values(|x: u16| decimal(x as nat))
}

pub open spec fn u32_texts(xs: Seq<u32>) -> Seq<Seq<char>> {
    xs.map_values(|x: u32| decimal(x as nat))
}

pub open spec fn u8_texts(xs: Seq<u8>) -> Seq<Seq<char>> {
    xs.map_values(|x: u8| decimal(x as nat))
}

pub open spec fn ratio_texts(xs: Seq<(u32, u32)>) -> Seq<Seq<char>> {
    xs.map_values(|p: (u32, u32)| ratio_text(p.0 as int, p.1 as int))
}

pub open spec fn signed_ratio_texts(xs: Seq<(i32, i32)>) -> Seq<Seq<char>> {
    xs.map_values(|p: (i32, i32)| ratio_text(p.0 as int, p.1 as int))
}

/// The display text of a value; empty means the tag is not shown.
pub open spec fn value_text(v: RawValue) -> Seq<char> {
    match v {
        RawValue::Ascii(parts) => {
            if parts@.len() == 0 {
                Seq::empty()
            } else {
                without_trailing_nuls(lossy_text(parts@[0]@))
            }
        },
        RawValue::Short(xs) => {
            if xs@.len() == 1 { decimal(xs@[0] as nat) } else { bracketed(u16_texts(xs@)) }
        },
        RawValue::Long(xs) => {
            if xs@.len() == 1 { decimal(xs@[0] as nat) } else { bracketed(u32_texts(xs@)) }
        },
        RawValue::Rational(xs) => {
            if xs@.len() == 1 {
                ratio_text(xs@[0].0 as int, xs@[0].1 as int)
            } else {
                bracketed(ratio_texts(xs@))
            }
        },
        RawValue::SRational(xs) => {
            if xs@.len() == 1 {
                ratio_text(xs@[0].0 as int, xs@[0].1 as int)
            } else {
                bracketed(signed_ratio_texts(xs@))
            }
        },
        RawValue::Undefined(bytes) => {
            if bytes@.len() <= MAX_LISTED_BYTES {
                bracketed(u8_texts(bytes@))
            } else {
                "data length: "@ + decimal(bytes@.len()) + " bytes"@
            }
        },
        RawValue::Other(s) => s@,
    }
}

/// `s` with the NUL characters at its end removed.
pub fn strip_trailing_nuls(s: &str) -> (r: String)
    ensures
        r@ == without_trailing_nuls(s@),
{
    let mut k: usize = s.unicode_len();
    assert(s@.subrange(0, k as int) =~= s@);
    while k > 0 && s.get_char(k - 1) == '\0'
        invariant
            k <= s@.len(),
            without_trailing_nuls(s@) == without_trailing_nuls(s@.subrange(0, k as int)),
        decreases k,
    {
        assert(s@.subrange(0, k as int).drop_last() =~= s@.subrange(0, k - 1));
        k = k - 1;
    }
    assert(k > 0 ==> s@.subrange(0, k as int).last() == s@[k - 1]);
    String::from_str(s.substring_char(0, k))
}

fn ratio_string(num: i64, den: i64) -> (r: String)
    ensures
        r@ == ratio_text(num as int, den as int),
{
    let mut r = render_signed(num);
    r.append("/");
    proof { reveal_strlit("/"); }
    let d = render_signed(den);
    r.append(d.as_str());
    r
}

fn u16_strings(xs: &Vec<u16>) -> (r: Vec<String>)
    ensures
        r@.map_values(|s: String| s@) == u16_texts(xs@),
{
    let mut r: Vec<String> = Vec::new();
    let mut i: usize = 0;
    while i < xs.len()
        invariant
            i <= xs.len(),
            r@.len() == i,
            forall|j: int| 0 <= j < i ==> #[trigger] r@[j]@ == decimal(xs@[j] as nat),
        decreases xs.len() - i,
    {
        let x = xs[i];
        r.push(render_decimal(x as u64));
        i = i + 1;
    }
    assert(r@.map_values(|s: String| s@) =~= u16_texts(xs@));
    r
}

fn u32_strings(xs: &Vec<u32>) -> (r: Vec<String>)
    ensures
        r@.map_values(|s: String| s@) == u32_texts(xs@),
{
    let mut r: Vec<String> = Vec::new();
    let mut i: usize = 0;
    while i < xs.len()
        invariant
            i <= xs.len(),
            r@.len() == i,
            forall|j: int| 0 <= j < i ==> #[trigger] r@[j]@ == decimal(xs@[j] as nat),
        decreases xs.len() - i,
    {
        let x = xs[i];
        r.push(render_decimal(x as u64));
        i = i + 1;
    }
    assert(r@.map_values(|s: String| s@) =~= u32_texts(xs@));
    r
}

fn u8_strings(xs: &Vec<u8>) -> (r: Vec<String>)
    ensures
        r@.map_values(|s: String| s@) == u8_texts(xs@),
{
    let mut r: Vec<String> = Vec::new();
    let mut i: usize = 0;
    while i < xs.len()
        invariant
            i <= xs.len(),
            r@.len() == i,
            forall|j: int| 0 <= j < i ==> #[trigger] r@[j]@ == decimal(xs@[j] as nat),
        decreases xs.len() - i,
    {
        let x = xs[i];
        r.push(render_decimal(x as u64));
        i = i + 1;
    }
    assert(r@.map_values(|s: String| s@) =~= u8_texts(xs@));
    r
}

fn ratio_strings(xs: &Vec<(u32, u32)>) -> (r: Vec<String>)
    ensures
        r@.map_values(|s: String| s@) == ratio_texts(xs@),
{
    let mut r: Vec<String> = Vec::new();
    let mut i: usize = 0;
    while i < xs.len()
        invariant
            i <= xs.len(),
            r@.len() == i,
            forall|j: int| 0 <= j < i ==> #[trigger] r@[j]@ == ratio_text(xs@[j].0 as int, xs@[j].1 as int),
        decreases xs.len() - i,
    {
        let x = xs[i];
        r.push(ratio_string(x.0 as i64, x.1 as i64));
        i = i + 1;
    }
    assert(r@.map_values(|s: String| s@) =~= ratio_texts(xs@));
    r
}

fn signed_ratio_strings(xs: &Vec<(i32, i32)>) -> (r: Vec<String>)
    ensures
        r@.map_values(|s: String| s@) == signed_ratio_texts(xs@),
{
    let mut r: Vec<String> = Vec::new();
    let mut i: usize = 0;
    while i < xs.len()
        invariant
            i <= xs.len(),
            r@.len() == i,
            forall|j: int| 0 <= j < i ==> #[trigger] r@[j]@ == ratio_text(xs@[j].0 as int, xs@[j].1 as int),
        decreases xs.len() - i,
    {
        let x = xs[i];
        r.push(ratio_string(x.0 as i64, x.1 as i64));
        i = i + 1;
    }
    assert(r@.map_values(|s: String| s@) =~= signed_ratio_texts(xs@));
    r
}

/// The display text of `v`: empty where the tag is not to be shown.
pub fn format_value(v: &RawValue) -> (r: String)
    ensures
        r@ == value_text(*v),
{
    match v {
        RawValue::Ascii(parts) => {
            if parts.len() == 0 {
                String::new()
            } else {
                let text = decode_lossy(parts[0].as_slice());
                strip_trailing_nuls(text.as_str())
            }
        },
        RawValue::Short(xs) => {
            if xs.len() == 1 { render_decimal(xs[0] as u64) } else { render_list(&u16_strings(xs)) }
        },
        RawValue::Long(xs) => {
            if xs.len() == 1 { render_decimal(xs[0] as u64) } else { render_list(&u32_strings(xs)) }
        },
        RawValue::Rational(xs) => {
            if xs.len() == 1 {
                ratio_string(xs[0].0 as i64, xs[0].1 as i64)
            } else {
                render_list(&ratio_strings(xs))
            }
        },
        RawValue::SRational(xs) => {
            if xs.len() == 1 {
                ratio_string(xs[0].0 as i64, xs[0].1 as i64)
            } else {
                render_list(&signed_ratio_strings(xs))
            }
        },
        RawValue::Undefined(bytes) => {
            if bytes.len() <= MAX_LISTED_BYTES {
                render_list(&u8_strings(bytes))
            } else {
                let mut r = String::from_str("data length: ");
                let n = render_decimal(bytes.len() as u64);
                r.append(n.as_str());
                r.append(" bytes");
                r
            }
        },
        RawValue::Other(s) => s.clone(),
    }
}

} // verus!
