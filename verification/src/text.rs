//! Whitespace and trimming over character sequences.

use vstd::prelude::*;

verus! {

/// Whether `c` carries the Unicode `White_Space` property.
pub open spec fn is_whitespace(c: char) -> bool {
    let n = c as u32;
    ||| 0x09 <= n <= 0x0D
    ||| n == 0x20
    ||| n == 0x85
    ||| n == 0xA0
    ||| n == 0x1680
    ||| 0x2000 <= n <= 0x200A
    ||| n == 0x2028
    ||| n == 0x2029
    ||| n == 0x202F
    ||| n == 0x205F
    ||| n == 0x3000
}

/// `s` without its leading whitespace.
pub open spec fn trimmed_start(s: Seq<char>) -> Seq<char>
    decreases s.len(),
{
    if s.len() > 0 && is_whitespace(s.first()) {
        trimmed_start(s.drop_first())
    } else {
        s
    }
}

/// `s` without its trailing whitespace.
pub open spec fn trimmed_end(s: Seq<char>) -> Seq<char>
    decreases s.len(),
{
    if s.len() > 0 && is_whitespace(s.last()) {
        trimmed_end(s.drop_last())
    } else {
        s
    }
}

/// `s` without leading and trailing whitespace.
pub open spec fn trimmed(s: Seq<char>) -> Seq<char> {
    trimmed_end(trimmed_start(s))
}

/// Decides [`is_whitespace`] for one character.
pub fn char_is_whitespace(c: char) -> (yes: bool)
    ensures
        yes == is_whitespace(c),
{
    let n: u32 = c as u32;
    (0x09 <= n && n <= 0x0D) || n == 0x20 || n == 0x85 || n == 0xA0 || n == 0x1680 || (0x2000 <= n
        && n <= 0x200A) || n == 0x2028 || n == 0x2029 || n == 0x202F || n == 0x205F || n == 0x3000
}

/// Removes leading and trailing whitespace.
pub fn trim(s: &str) -> (out: String)
    ensures
        out@ == trimmed(s@),
{
    let len: usize = s.unicode_len();
    let mut start: usize = 0;
    assert(s@.skip(0) =~= s@);
    while start < len && char_is_whitespace(s.get_char(start))
        invariant
            len == s@.len(),
            start <= len,
            trimmed_start(s@) == trimmed_start(s@.skip(start as int)),
        decreases len - start,
    {
        assert(s@.skip(start as int).drop_first() =~= s@.skip(start as int + 1));
        start = start + 1;
    }
    let mut end: usize = len;
    assert(s@.subrange(start as int, len as int) =~= s@.skip(start as int));
    while end > start && char_is_whitespace(s.get_char(end - 1))
        invariant
            len == s@.len(),
            start <= end <= len,
            trimmed_start(s@) == s@.skip(start as int),
            trimmed(s@) == trimmed_end(s@.subrange(start as int, end as int)),
        decreases end - start,
    {
        assert(s@.subrange(start as int, end as int).drop_last() =~= s@.subrange(
            start as int,
            end as int - 1,
        ));
        end = end - 1;
    }
    s.substring_char(start, end).to_owned()
}

/// Leading whitespace is all that `trimmed_start` removes: what is left is
/// empty or starts with a character that is not whitespace, and it is a
/// suffix of `s`.
pub proof fn lemma_trimmed_start_is_clean(s: Seq<char>)
    ensures
        trimmed_start(s).len() == 0 || !is_whitespace(trimmed_start(s).first()),
        trimmed_start(s).is_suffix_of(s),
    decreases s.len(),
{
    if s.len() > 0 && is_whitespace(s.first()) {
        lemma_trimmed_start_is_clean(s.drop_first());
        let rest = trimmed_start(s.drop_first());
        assert(rest =~= s.subrange(s.len() - rest.len(), s.len() as int));
    } else {
        assert(s =~= s.subrange(0, s.len() as int));
    }
}

/// Trailing whitespace is all that `trimmed_end` removes: what is left is
/// empty or ends with a character that is not whitespace, and it is a
/// prefix of `s`.
pub proof fn lemma_trimmed_end_is_clean(s: Seq<char>)
    ensures
        trimmed_end(s).len() == 0 || !is_whitespace(trimmed_end(s).last()),
        trimmed_end(s).is_prefix_of(s),
    decreases s.len(),
{
    if s.len() > 0 && is_whitespace(s.last()) {
        lemma_trimmed_end_is_clean(s.drop_last());
        let rest = trimmed_end(s.drop_last());
        assert(rest =~= s.subrange(0, rest.len() as int));
    } else {
        assert(s =~= s.subrange(0, s.len() as int));
    }
}

/// A trimmed sequence neither starts nor ends with whitespace.
pub proof fn lemma_trimmed_is_clean(s: Seq<char>)
    ensures
        trimmed(s).len() > 0 ==> !is_whitespace(trimmed(s).first()) && !is_whitespace(
            trimmed(s).last(),
        ),
{
    lemma_trimmed_start_is_clean(s);
    lemma_trimmed_end_is_clean(trimmed_start(s));
}

/// A sequence that neither starts nor ends with whitespace is its own trim.
pub proof fn lemma_clean_is_trimmed(s: Seq<char>)
    requires
        s.len() > 0 ==> !is_whitespace(s.first()) && !is_whitespace(s.last()),
    ensures
        trimmed(s) == s,
{
}

/// Where `a` is all whitespace, trimming the start of `a + b` trims `b`.
pub proof fn lemma_trimmed_start_skips_blank(a: Seq<char>, b: Seq<char>)
    requires
        trimmed_start(a).len() == 0,
    ensures
        trimmed_start(a + b) == trimmed_start(b),
    decreases a.len(),
{
    if a.len() == 0 {
        assert(a + b =~= b);
    } else {
        assert((a + b).drop_first() =~= a.drop_first() + b);
        lemma_trimmed_start_skips_blank(a.drop_first(), b);
    }
}

/// Where `a` holds more than whitespace, trimming the start of `a + b`
/// leaves `b` as it is.
pub proof fn lemma_trimmed_start_keeps_tail(a: Seq<char>, b: Seq<char>)
    requires
        trimmed_start(a).len() > 0,
    ensures
        trimmed_start(a + b) == trimmed_start(a) + b,
    decreases a.len(),
{
    if is_whitespace(a.first()) {
        assert((a + b).drop_first() =~= a.drop_first() + b);
        lemma_trimmed_start_keeps_tail(a.drop_first(), b);
    }
}

} // verus!
