//! Removing the white space around a text.

use crate::text::{all_white_space, is_white_space, trim_end, trim_start, trimmed};
use vstd::prelude::*;
use vstd::string::{StrSliceExecFns, StringSliceAdditionalSpecFns};
use vstd::utf8::encode_utf8;

verus! {

/// Leading white space does not survive `trim_start`.
pub proof fn lemma_trim_start_skips(pad: Seq<char>, s: Seq<char>)
    requires
        all_white_space(pad),
    ensures
        trim_start(pad + s) == trim_start(s),
    decreases pad.len(),
{
    if pad.len() == 0 {
        assert(pad + s =~= s);
    } else {
        assert((pad + s).first() == pad[0]);
        assert((pad + s).drop_first() =~= pad.drop_first() + s);
        lemma_trim_start_skips(pad.drop_first(), s);
    }
}

/// Trailing white space does not survive `trim_end`.
pub proof fn lemma_trim_end_skips(s: Seq<char>, pad: Seq<char>)
    requires
        all_white_space(pad),
    ensures
        trim_end(s + pad) == trim_end(s),
    decreases pad.len(),
{
    if pad.len() == 0 {
        assert(s + pad =~= s);
    } else {
        assert((s + pad).last() == pad.last());
        assert((s + pad).drop_last() =~= s + pad.drop_last());
        lemma_trim_end_skips(s, pad.drop_last());
    }
}

/// `trim_start` removes a prefix made of white space and nothing else.
pub proof fn lemma_trim_start_splits(s: Seq<char>) -> (n: int)
    ensures
        0 <= n <= s.len(),
        all_white_space(s.subrange(0, n)),
        trim_start(s) == s.subrange(n, s.len() as int),
        n < s.len() ==> !is_white_space(s[n]),
    decreases s.len(),
{
    if s.len() > 0 && is_white_space(s.first()) {
        let rest = s.drop_first();
        let m = lemma_trim_start_splits(rest);
        assert(rest.subrange(m, rest.len() as int) =~= s.subrange(m + 1, s.len() as int));
        assert forall|i: int| 0 <= i < m + 1 implies is_white_space(
            #[trigger] s.subrange(0, m + 1)[i],
        ) by {
            if i > 0 {
                assert(s.subrange(0, m + 1)[i] == rest.subrange(0, m)[i - 1]);
            }
        }
        m + 1
    } else {
        assert(s.subrange(0, s.len() as int) =~= s);
        0
    }
}

/// A text that neither starts nor ends with white space is its own trimming.
pub proof fn lemma_trimmed_fixed(s: Seq<char>)
    requires
        s.len() > 0 ==> !is_white_space(s.first()) && !is_white_space(s.last()),
    ensures
        trimmed(s) == s,
{
}

/// White space on either side of a text does not change its trimming.
pub proof fn lemma_trimmed_ignores_padding(left: Seq<char>, s: Seq<char>, right: Seq<char>)
    requires
        all_white_space(left),
        all_white_space(right),
    ensures
        trimmed(left + s + right) == trimmed(s),
{
    let n = lemma_trim_start_splits(s);
    let head = s.subrange(0, n);
    let body = s.subrange(n, s.len() as int);
    assert(s =~= head + body);
    if n < s.len() {
        // The trimmed start of `s` is non-empty, so that of the padded text
        // is the same body followed by the right padding.
        assert(left + s + right =~= (left + head) + (body + right));
        assert(all_white_space(left + head));
        lemma_trim_start_skips(left + head, body + right);
        assert((body + right).first() == s[n]);
        assert(trim_start(body + right) == body + right);
        lemma_trim_end_skips(body, right);
    } else {
        // `s` is white space throughout, and so is the padded text.
        assert(body =~= Seq::<char>::empty());
        let whole = left + s + right;
        assert(all_white_space(whole));
        assert(whole =~= whole + Seq::<char>::empty());
        lemma_trim_start_skips(whole, Seq::<char>::empty());
        assert(s =~= s + Seq::<char>::empty());
        lemma_trim_start_skips(s, Seq::<char>::empty());
    }
}

/// A text is the text between its leading and its trailing white space.
pub proof fn lemma_trimmed_is_range(s: Seq<char>, start: int, end: int)
    requires
        0 <= start <= end <= s.len(),
        forall|k: int| 0 <= k < start ==> is_white_space(s[k]),
        forall|k: int| end <= k < s.len() ==> is_white_space(s[k]),
        start < end ==> !is_white_space(s[start]) && !is_white_space(s[end - 1]),
    ensures
        trimmed(s) == s.subrange(start, end),
{
    let left = s.subrange(0, start);
    let middle = s.subrange(start, end);
    let right = s.subrange(end, s.len() as int);
    assert(s =~= left + middle + right);
    lemma_trimmed_ignores_padding(left, middle, right);
    lemma_trimmed_fixed(middle);
}

/// A text has at most as many characters as its UTF-8 encoding has bytes.
pub proof fn lemma_encoding_length(s: Seq<char>)
    ensures
        s.len() <= encode_utf8(s).len(),
    decreases s.len(),
{
    if s.len() > 0 {
        lemma_encoding_length(s.drop_first());
    }
}

/// Whether `c` is white space.
pub(crate) fn white_space(c: char) -> (white: bool)
    ensures
        white == is_white_space(c),
{
    let n: u32 = c as u32;
    (0x0009 <= n && n <= 0x000D) || n == 0x0020 || n == 0x0085 || n == 0x00A0 || n == 0x1680
        || (0x2000 <= n && n <= 0x200A) || n == 0x2028 || n == 0x2029 || n == 0x202F
        || n == 0x205F || n == 0x3000
}

/// The part of `s` that is left when leading and trailing white space is
/// removed.
pub(crate) fn trim(s: &str) -> (t: &str)
    ensures
        t@ == trimmed(s@),
{
    let bound: usize = s.as_bytes().len();
    proof {
        lemma_encoding_length(s@);
    }
    if bound == 0 {
        return s;
    }
    // `start` counts the leading white space; `end` stands behind the last
    // character seen that is not white space, or at `start` if there is none.
    let mut start: usize = 0;
    let mut end: usize = 0;
    let mut i: usize = 0;
    for c in chars: s.chars()
        invariant
            i == chars.index(),
            chars.seq() == s@,
            s@.len() <= bound,
            start <= end <= i,
            start == end ==> start == i,
            forall|k: int| 0 <= k < start ==> is_white_space(s@[k]),
            forall|k: int| end <= k < i ==> is_white_space(s@[k]),
            start < end ==> !is_white_space(s@[start as int]) && !is_white_space(s@[end - 1]),
    {
        if !white_space(c) {
            end = i + 1;
        } else if start == end {
            start = i + 1;
            end = i + 1;
        }
        i += 1;
    }
    proof {
        lemma_trimmed_is_range(s@, start as int, end as int);
    }
    s.substring_char(start, end)
}

} // verus!
