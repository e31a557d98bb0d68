//! Strings as sequences of characters.

use vstd::prelude::*;

verus! {

/// The texts of a list of strings.
pub open spec fn texts(strings: Seq<String>) -> Seq<Seq<char>> {
    Seq::new(strings.len(), |i: int| strings[i]@)
}

/// The characters of `s`, in order.
pub fn chars_of(s: &str) -> (v: Vec<char>)
    ensures
        v@ == s@,
{
    broadcast use vstd::string::group_string_axioms;

    let mut v: Vec<char> = Vec::new();
    for c in iter: s.chars()
        invariant
            iter.seq() == s@,
            v@.len() == iter.index(),
            forall|i: int| 0 <= i < v@.len() ==> v@[i] == iter.seq()[i],
    {
        v.push(c);
    }
    assert(v@ =~= s@);
    v
}

/// Whether `c` is white space, as `char::is_whitespace` has it.
pub uninterp spec fn is_white_space(c: char) -> bool;

/// Calls `char::is_whitespace`. Nothing is claimed but that the answer is a
/// function of the character, called [`is_white_space`].
#[verifier::external_body]
fn is_whitespace(c: char) -> (white: bool)
    ensures
        white == is_white_space(c),
{
    c.is_whitespace()
}

/// The first position from `from` on that holds no white space; the length of
/// `s` where there is none.
pub open spec fn first_ink(s: Seq<char>, from: int) -> int
    decreases s.len() - from,
{
    if from >= s.len() {
        s.len() as int
    } else if from < 0 || !is_white_space(s[from]) {
        from
    } else {
        first_ink(s, from + 1)
    }
}

/// The position behind the last character before `end` that is no white
/// space, looking no further back than `start`.
pub open spec fn last_ink(s: Seq<char>, start: int, end: int) -> int
    decreases end - start,
{
    if end <= start {
        start
    } else if end > s.len() || !is_white_space(s[end - 1]) {
        end
    } else {
        last_ink(s, start, end - 1)
    }
}

/// `s` without the white space at its two ends.
pub open spec fn trimmed(s: Seq<char>) -> Seq<char> {
    let start = first_ink(s, 0);
    s.subrange(start, last_ink(s, start, s.len() as int))
}

/// The text without the white space at its two ends.
pub fn trim(text: &str) -> (inner: &str)
    ensures
        inner@ == trimmed(text@),
{
    let chars = chars_of(text);
    let n = chars.len();
    let mut start: usize = 0;
    while start < n && is_whitespace(chars[start])
        invariant
            n == chars@.len(),
            start <= n,
            first_ink(chars@, 0) == first_ink(chars@, start as int),
        decreases n - start,
    {
        start += 1;
    }
    let mut end: usize = n;
    while end > start && is_whitespace(chars[end - 1])
        invariant
            n == chars@.len(),
            start <= end <= n,
            last_ink(chars@, start as int, n as int) == last_ink(chars@, start as int, end as int),
        decreases end - start,
    {
        end -= 1;
    }
    text.substring_char(start, end)
}

/// What is left after trimming neither begins nor ends with white space,
/// and it is a stretch of what was there.
pub proof fn lemma_trimmed(s: Seq<char>)
    ensures
        trimmed(s).len() > 0 ==> !is_white_space(trimmed(s).first()) && !is_white_space(
            trimmed(s).last(),
        ),
        0 <= first_ink(s, 0) <= last_ink(s, first_ink(s, 0), s.len() as int) <= s.len(),
{
    lemma_first_ink(s, 0);
    lemma_last_ink(s, first_ink(s, 0), s.len() as int);
}

/// Where `first_ink` stops there is no white space, unless it stops at the end.
pub proof fn lemma_first_ink(s: Seq<char>, from: int)
    requires
        0 <= from <= s.len(),
    ensures
        from <= first_ink(s, from) <= s.len(),
        first_ink(s, from) < s.len() ==> !is_white_space(s[first_ink(s, from)]),
        forall|i: int| from <= i < first_ink(s, from) ==> is_white_space(s[i]),
    decreases s.len() - from,
{
    if from < s.len() && is_white_space(s[from]) {
        lemma_first_ink(s, from + 1);
    }
}

/// Before the place where `last_ink` stops there is no white space, unless it
/// stops at `start`.
pub proof fn lemma_last_ink(s: Seq<char>, start: int, end: int)
    requires
        0 <= start <= end <= s.len(),
    ensures
        start <= last_ink(s, start, end) <= end,
        last_ink(s, start, end) > start ==> !is_white_space(s[last_ink(s, start, end) - 1]),
        forall|i: int| last_ink(s, start, end) <= i < end ==> is_white_space(s[i]),
    decreases end - start,
{
    if end > start && is_white_space(s[end - 1]) {
        lemma_last_ink(s, start, end - 1);
    }
}

/// Trimming twice is trimming once.
pub proof fn lemma_trim_idempotent(s: Seq<char>)
    ensures
        trimmed(trimmed(s)) == trimmed(s),
{
    let t = trimmed(s);
    lemma_trimmed(s);
    if t.len() > 0 {
        assert(first_ink(t, 0) == 0);
        assert(last_ink(t, 0, t.len() as int) == t.len());
        assert(t.subrange(0, t.len() as int) =~= t);
    } else {
        assert(first_ink(t, 0) == 0);
        assert(last_ink(t, 0, 0) == 0);
        assert(t.subrange(0, 0) =~= t);
    }
}

} // verus!
