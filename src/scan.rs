//! Scanning of short texts: whitespace, words, unsigned numbers, substrings.
use vstd::prelude::*;

verus! {

/// Unicode white space, as `char::is_whitespace` classifies it.
pub open spec fn is_space(c: char) -> bool {
    let u = c as u32;
    (9 <= u <= 13) || u == 32 || u == 0x85 || u == 0xa0 || u == 0x1680 || (0x2000 <= u <= 0x200a)
        || u == 0x2028 || u == 0x2029 || u == 0x202f || u == 0x205f || u == 0x3000
}

pub fn char_is_space(c: char) -> (r: bool)
    ensures
        r == is_space(c),
{
    let u = c as u32;
    (9 <= u && u <= 13) || u == 32 || u == 0x85 || u == 0xa0 || u == 0x1680 || (0x2000 <= u
        && u <= 0x200a) || u == 0x2028 || u == 0x2029 || u == 0x202f || u == 0x205f || u == 0x3000
}

/// Length of the longest prefix of `s` whose characters are all white space
/// (`spaces`) or all not white space (`!spaces`).
pub open spec fn run_len(s: Seq<char>, spaces: bool) -> nat
    decreases s.len(),
{
    if s.len() > 0 && is_space(s[0]) == spaces {
        1 + run_len(s.drop_first(), spaces)
    } else {
        0
    }
}

/// The first white-space separated word of `s`, if any.
pub open spec fn first_word(s: Seq<char>) -> Option<Seq<char>> {
    let t = s.skip(run_len(s, true) as int);
    if t.len() == 0 {
        None
    } else {
        Some(t.take(run_len(t, false) as int))
    }
}

/// Length of the longest suffix of `s` made of white space.
pub open spec fn trailing_space_len(s: Seq<char>) -> nat
    decreases s.len(),
{
    if s.len() > 0 && is_space(s.last()) {
        1 + trailing_space_len(s.drop_last())
    } else {
        0
    }
}

/// `s` without white space at either end.
pub open spec fn trimmed(s: Seq<char>) -> Seq<char> {
    let t = s.skip(run_len(s, true) as int);
    t.take(t.len() - trailing_space_len(t))
}

pub open spec fn is_digit(c: char) -> bool {
    '0' <= c && c <= '9'
}

/// The number that a string of decimal digits spells.
pub open spec fn digits_value(s: Seq<char>) -> nat
    decreases s.len(),
{
    if s.len() == 0 {
        0
    } else {
        digits_value(s.drop_last()) * 10 + ((s.last() as u32) - ('0' as u32)) as nat
    }
}

pub open spec fn all_digits(s: Seq<char>) -> bool {
    forall|i: int| 0 <= i < s.len() ==> is_digit(#[trigger] s[i])
}

/// An unsigned number in decimal, with an optional leading `+`, as long as
/// it does not exceed `max`.
pub open spec fn parse_unsigned(s: Seq<char>, max: nat) -> Option<nat> {
    let d = if s.len() > 0 && s[0] == '+' { s.drop_first() } else { s };
    if d.len() > 0 && all_digits(d) && digits_value(d) <= max {
        Some(digits_value(d))
    } else {
        None
    }
}

/// Whether `pat` occurs in `s`.
pub open spec fn contains_seq(s: Seq<char>, pat: Seq<char>) -> bool {
    exists|i: int| 0 <= i <= s.len() - pat.len() && #[trigger] s.subrange(i, i + pat.len()) == pat
}

/// Position of the first `c` in `s`, or its length where there is none.
pub open spec fn index_of(s: Seq<char>, c: char) -> nat
    decreases s.len(),
{
    if s.len() == 0 || s[0] == c {
        0
    } else {
        1 + index_of(s.drop_first(), c)
    }
}

pub proof fn lemma_index_of_bound(s: Seq<char>, c: char)
    ensures
        index_of(s, c) <= s.len(),
        index_of(s, c) < s.len() ==> s[index_of(s, c) as int] == c,
    decreases s.len(),
{
    if s.len() > 0 && s[0] != c {
        lemma_index_of_bound(s.drop_first(), c);
    }
}

/// `from` plus the length of the run of white space (or of non-white space)
/// that starts at `from`.
pub fn run_end(s: &str, from: usize, spaces: bool) -> (r: usize)
    requires
        from <= s@.len(),
    ensures
        r == from + run_len(s@.skip(from as int), spaces),
        r <= s@.len(),
{
    let n = s.unicode_len();
    let mut i = from;
    while i < n && char_is_space(s.get_char(i)) == spaces
        invariant
            from <= i <= n,
            n == s@.len(),
            from + run_len(s@.skip(from as int), spaces) == i + run_len(s@.skip(i as int), spaces),
        decreases n - i,
    {
        assert(s@.skip(i as int).drop_first() =~= s@.skip(i + 1));
        i = i + 1;
    }
    assert(i < n ==> s@.skip(i as int)[0] == s@[i as int]);
    i
}

/// The first white-space separated word of `s`.
pub fn first_word_of(s: &str) -> (r: Option<String>)
    ensures
        match r {
            Some(w) => first_word(s@) == Some(w@),
            None => first_word(s@).is_none(),
        },
{
    let start = run_end(s, 0, true);
    assert(s@.skip(0) =~= s@);
    let n = s.unicode_len();
    if start == n {
        None
    } else {
        let end = run_end(s, start, false);
        let ghost t = s@.skip(start as int);
        assert(s@.subrange(start as int, end as int) =~= t.take(run_len(t, false) as int));
        Some(String::from_str(s.substring_char(start, end)))
    }
}

/// `s` without white space at either end.
pub fn trim_text(s: &str) -> (r: String)
    ensures
        r@ == trimmed(s@),
{
    let start = run_end(s, 0, true);
    assert(s@.skip(0) =~= s@);
    let ghost t = s@.skip(start as int);
    let mut end = s.unicode_len();
    assert(s@.subrange(start as int, end as int) =~= t);
    while end > start && char_is_space(s.get_char(end - 1))
        invariant
            start <= end <= s@.len(),
            t == s@.skip(start as int),
            trailing_space_len(t) == (s@.len() - end) + trailing_space_len(
                s@.subrange(start as int, end as int),
            ),
        decreases end,
    {
        assert(s@.subrange(start as int, end as int).drop_last() =~= s@.subrange(
            start as int,
            end - 1,
        ));
        end = end - 1;
    }
    assert(end > start ==> s@.subrange(start as int, end as int).last() == s@[end - 1]);
    assert(s@.subrange(start as int, end as int) =~= t.take(t.len() - trailing_space_len(t)));
    String::from_str(s.substring_char(start, end))
}

/// Position of the first `c` in `s`, or its length where there is none.
pub fn find_char(s: &str, c: char) -> (r: usize)
    ensures
        r == index_of(s@, c),
{
    let n = s.unicode_len();
    let mut i: usize = 0;
    assert(s@.skip(0) =~= s@);
    while i < n && s.get_char(i) != c
        invariant
            i <= n,
            n == s@.len(),
            index_of(s@, c) == i + index_of(s@.skip(i as int), c),
        decreases n - i,
    {
        assert(s@.skip(i as int).drop_first() =~= s@.skip(i + 1));
        i = i + 1;
    }
    assert(i < n ==> s@.skip(i as int)[0] == s@[i as int]);
    i
}

proof fn lemma_digits_prefix(s: Seq<char>, k: int)
    requires
        0 <= k <= s.len(),
    ensures
        digits_value(s.take(k)) <= digits_value(s),
    decreases s.len(),
{
    if k < s.len() {
        lemma_digits_prefix(s.drop_last(), k);
        assert(s.drop_last().take(k) =~= s.take(k));
    } else {
        assert(s.take(k) =~= s);
    }
}

/// `text` read as an unsigned decimal number no larger than `max`.
pub fn parse_bounded(text: &str, max: u64) -> (r: Option<u64>)
    ensures
        match r {
            Some(v) => parse_unsigned(text@, max as nat) == Some(v as nat),
            None => parse_unsigned(text@, max as nat).is_none(),
        },
{
    let n = text.unicode_len();
    let start: usize = if n > 0 && text.get_char(0) == '+' { 1 } else { 0 };
    let ghost d = text@.skip(start as int);
    assert(start == 1 ==> d =~= text@.drop_first());
    assert(start == 0 ==> d =~= text@);
    if start == n {
        return None;
    }
    let mut value: u64 = 0;
    let mut i = start;
    while i < n
        invariant
            start <= i <= n,
            n == text@.len(),
            d == text@.skip(start as int),
            d == (if text@.len() > 0 && text@[0] == '+' { text@.drop_first() } else { text@ }),
            value as nat == digits_value(d.take(i - start)),
            value <= max,
            forall|j: int| 0 <= j < i - start ==> is_digit(#[trigger] d[j]),
        decreases n - i,
    {
        let c = text.get_char(i);
        assert(d[i - start] == c);
        if c < '0' || c > '9' {
            assert(!is_digit(d[i - start]));
            assert(!all_digits(d));
            assert(parse_unsigned(text@, max as nat).is_none());
            return None;
        }
        let digit = (c as u32 - '0' as u32) as u64;
        assert(d.take(i - start + 1).drop_last() =~= d.take(i - start));
        assert(d.take(i - start + 1).last() == c);
        assert(digits_value(d.take(i - start + 1)) == value * 10 + digit);
        if digit > max || value > (max - digit) / 10 {
            proof {
                if digit <= max {
                    assert(value * 10 + digit > max) by (nonlinear_arith)
                        requires
                            value > (max - digit) / 10,
                            digit <= max,
                    ;
                }
                lemma_digits_prefix(d, i - start + 1);
                assert(digits_value(d) > max);
                assert(parse_unsigned(text@, max as nat).is_none());
            }
            return None;
        }
        proof {
            assert(value * 10 + digit <= max) by (nonlinear_arith)
                requires
                    value <= (max - digit) / 10,
                    digit <= max,
            ;
        }
        value = value * 10 + digit;
        i = i + 1;
    }
    assert(d.take(n - start) =~= d);
    Some(value)
}

/// Whether `pat` occurs in `s`.
pub fn contains_text(s: &str, pat: &str) -> (r: bool)
    ensures
        r == contains_seq(s@, pat@),
{
    let n = s.unicode_len();
    let m = pat.unicode_len();
    if m > n {
        return false;
    }
    if m == 0 {
        assert(s@.subrange(0, 0 + pat@.len() as int) =~= pat@);
        return true;
    }
    let target = String::from_str(pat);
    let mut i: usize = 0;
    while i <= n - m
        invariant
            0 < m <= n,
            n == s@.len(),
            m == pat@.len(),
            target@ == pat@,
            forall|j: int| 0 <= j < i ==> #[trigger] s@.subrange(j, j + m) != pat@,
        decreases n - m + 1 - i,
    {
        let window = String::from_str(s.substring_char(i, i + m));
        if window == target {
            return true;
        }
        i = i + 1;
    }
    false
}

} // verus!
