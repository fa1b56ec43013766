//! Plain-text rendering of integers and lists, as the metadata panel shows them.
use vstd::prelude::*;

verus! {

/// The character of a decimal digit.
pub open spec fn digit_char(d: nat) -> char {
    if d == 0 { '0' }
    else if d == 1 { '1' }
    else if d == 2 { '2' }
    else if d == 3 { '3' }
    else if d == 4 { '4' }
    else if d == 5 { '5' }
    else if d == 6 { '6' }
    else if d == 7 { '7' }
    else if d == 8 { '8' }
    else { '9' }
}

/// Decimal notation of a natural number, without leading zeros.
pub open spec fn decimal(n: nat) -> Seq<char>
    decreases n,
{
    if n < 10 {
        seq![digit_char(n)]
    } else {
        decimal(n / 10).push(digit_char(n % 10))
    }
}

/// Decimal notation of an integer, with a leading minus sign when negative.
pub open spec fn signed_decimal(i: int) -> Seq<char> {
    if i < 0 {
        seq!['-'] + decimal((-i) as nat)
    } else {
        decimal(i as nat)
    }
}

/// Items separated by a comma and a space.
pub open spec fn joined(items: Seq<Seq<char>>) -> Seq<char>
    decreases items.len(),
{
    if items.len() == 0 {
        Seq::empty()
    } else if items.len() == 1 {
        items[0]
    } else {
        joined(items.drop_last()) + seq![',', ' '] + items.last()
    }
}

/// Items in list notation: `[a, b, c]`.
pub open spec fn bracketed(items: Seq<Seq<char>>) -> Seq<char> {
    seq!['['] + joined(items) + seq![']']
}

pub proof fn lemma_decimal_nonempty(n: nat)
    ensures
        decimal(n).len() > 0,
    decreases n,
{
    if n >= 10 {
        lemma_decimal_nonempty(n / 10);
    }
}

fn digit_str(d: u64) -> (r: &'static str)
    requires
        d < 10,
    ensures
        r@ == seq![digit_char(d as nat)],
{
    proof {
        reveal_strlit("0");
        reveal_strlit("1");
        reveal_strlit("2");
        reveal_strlit("3");
        reveal_strlit("4");
        reveal_strlit("5");
        reveal_strlit("6");
        reveal_strlit("7");
        reveal_strlit("8");
        reveal_strlit("9");
    }
    if d == 0 { "0" }
    else if d == 1 { "1" }
    else if d == 2 { "2" }
    else if d == 3 { "3" }
    else if d == 4 { "4" }
    else if d == 5 { "5" }
    else if d == 6 { "6" }
    else if d == 7 { "7" }
    else if d == 8 { "8" }
    else { "9" }
}

/// Decimal notation of `n`.
pub fn render_decimal(n: u64) -> (r: String)
    ensures
        r@ == decimal(n as nat),
    decreases n,
{
    if n < 10 {
        String::from_str(digit_str(n))
    } else {
        let mut s = render_decimal(n / 10);
        s.append(digit_str(n % 10));
        proof {
            assert(seq![digit_char((n % 10) as nat)] =~= Seq::<char>::empty().push(digit_char((n % 10) as nat)));
        }
        s
    }
}

/// Decimal notation of `i`, negative numbers with a leading minus sign.
pub fn render_signed(i: i64) -> (r: String)
    ensures
        r@ == signed_decimal(i as int),
{
    if i < 0 {
        let magnitude: u64 = if i == i64::MIN { 9223372036854775808u64 } else { (-i) as u64 };
        let mut s = String::from_str("-");
        proof { reveal_strlit("-"); }
        let digits = render_decimal(magnitude);
        s.append(digits.as_str());
        s
    } else {
        render_decimal(i as u64)
    }
}

/// List notation of already rendered items: `[a, b, c]`.
pub fn render_list(items: &Vec<String>) -> (r: String)
    ensures
        r@ == bracketed(items@.map_values(|s: String| s@)),
{
    let ghost views = items@.map_values(|s: String| s@);
    let mut r = String::from_str("[");
    proof { reveal_strlit("["); reveal_strlit(", "); reveal_strlit("]"); }
    let mut i: usize = 0;
    while i < items.len()
        invariant
            i <= items.len(),
            views == items@.map_values(|s: String| s@),
            r@ == seq!['['] + joined(views.subrange(0, i as int)),
        decreases items.len() - i,
    {
        let ghost before = views.subrange(0, i as int);
        let ghost after = views.subrange(0, i as int + 1);
        assert(after.drop_last() =~= before);
        let ghost r0 = r@;
        if i > 0 {
            r.append(", ");
            proof { reveal_strlit(", "); }
            assert(", "@ =~= seq![',', ' ']);
            assert(r@ == r0 + seq![',', ' ']);
        }
        let ghost r1 = r@;
        r.append(items[i].as_str());
        assert(views[i as int] == items@[i as int]@);
        i = i + 1;
        proof {
            if before.len() == 0 {
                assert(joined(after) == after[0]);
                assert(r@ =~= seq!['['] + joined(after));
            } else {
                assert(after.last() == items@[i - 1]@);
                assert(joined(after) == joined(before) + seq![',', ' '] + after.last());
                assert(r@ == r1 + after.last());
                assert(r@ =~= seq!['['] + joined(after));
            }
        }
    }
    assert(views.subrange(0, items.len() as int) =~= views);
    r.append("]");
    proof { reveal_strlit("]"); }
    r
}

} // verus!
