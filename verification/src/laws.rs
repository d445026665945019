//! What holds of the classification on every input, proved from its
//! definition.

use crate::matcher::{classify, matches_terms};
use crate::terms::{
    lemma_falsey_tokens_spelled, lemma_truey_tokens_spelled, stock_falsey_lowercase,
    stock_falsey_precise, stock_tables, stock_truey_lowercase, stock_truey_precise, TermTables,
};
use crate::text::{all_white_space, ascii_lowercase, is_white_space, lower_char, trimmed};
use crate::trimming::{lemma_trimmed_fixed, lemma_trimmed_ignores_padding};
use vstd::prelude::*;

verus! {

/// A built-in token, precise or lowercase, is not changed by trimming.
pub proof fn lemma_stock_tokens_trimmed(t: Seq<char>)
    requires
        stock_falsey_precise().contains(t) || stock_truey_precise().contains(t)
            || stock_falsey_lowercase().contains(t) || stock_truey_lowercase().contains(t),
    ensures
        trimmed(t) == t,
{
    lemma_falsey_tokens_spelled();
    lemma_truey_tokens_spelled();
    lemma_trimmed_fixed(t);
}

/// No built-in precise token belongs to both polarities.
pub proof fn lemma_stock_precise_disjoint(t: Seq<char>)
    ensures
        !(stock_falsey_precise().contains(t) && stock_truey_precise().contains(t)),
{
    lemma_falsey_tokens_spelled();
    lemma_truey_tokens_spelled();
    let fp = stock_falsey_precise();
    let tp = stock_truey_precise();
    assert forall|i: int, j: int| 0 <= i < fp.len() && 0 <= j < tp.len() implies fp[i] != tp[j] by {
        assert(fp[i].len() != tp[j].len() || fp[i][0] != tp[j][0]);
    }
}

/// No built-in lowercase token belongs to both polarities.
pub proof fn lemma_stock_lowercase_disjoint(t: Seq<char>)
    ensures
        !(stock_falsey_lowercase().contains(t) && stock_truey_lowercase().contains(t)),
{
    lemma_falsey_tokens_spelled();
    lemma_truey_tokens_spelled();
    let fl = stock_falsey_lowercase();
    let tl = stock_truey_lowercase();
    assert forall|i: int, j: int| 0 <= i < fl.len() && 0 <= j < tl.len() implies fl[i] != tl[j] by {
        assert(fl[i].len() != tl[j].len() || fl[i][0] != tl[j][0]);
    }
}

/// The lower-casing of a built-in precise token is a built-in lowercase
/// token of the same polarity.
pub proof fn lemma_stock_precise_lowercased(t: Seq<char>)
    ensures
        stock_falsey_precise().contains(t) ==> stock_falsey_lowercase().contains(
            ascii_lowercase(t),
        ),
        stock_truey_precise().contains(t) ==> stock_truey_lowercase().contains(
            ascii_lowercase(t),
        ),
{
    lemma_falsey_tokens_spelled();
    lemma_truey_tokens_spelled();
    let l = ascii_lowercase(t);
    if stock_falsey_precise().contains(t) {
        let fl = stock_falsey_lowercase();
        assert(l =~= fl[0] || l =~= fl[1] || l =~= fl[2] || l =~= fl[3]);
    }
    if stock_truey_precise().contains(t) {
        let tl = stock_truey_lowercase();
        assert(l =~= tl[0] || l =~= tl[1] || l =~= tl[2] || l =~= tl[3]);
    }
}

/// Every built-in lowercase token is also a built-in precise token of the
/// same polarity.
pub proof fn lemma_stock_lowercase_precise(t: Seq<char>)
    ensures
        stock_falsey_lowercase().contains(t) ==> stock_falsey_precise().contains(t),
        stock_truey_lowercase().contains(t) ==> stock_truey_precise().contains(t),
{
    let fp = stock_falsey_precise();
    let tp = stock_truey_precise();
    assert(fp[7] == "false"@ && fp[8] == "no"@ && fp[9] == "off"@ && fp[0] == "0"@);
    assert(tp[8] == "true"@ && tp[9] == "yes"@ && tp[7] == "on"@ && tp[0] == "1"@);
}

/// Every built-in falsey precise token is falsey: `string_is_falsey` holds
/// of it and `string_is_truthy` classifies it as `Some(false)`.
pub proof fn lemma_falsey_tokens_classified(t: Seq<char>)
    requires
        stock_falsey_precise().contains(t),
    ensures
        matches_terms(t, stock_falsey_precise(), stock_falsey_lowercase()),
        classify(t, stock_tables()) == Some(false),
{
    lemma_stock_tokens_trimmed(t);
}

/// Every built-in truey precise token is truey: `string_is_truey` holds of
/// it and `string_is_truthy` classifies it as `Some(true)`.
pub proof fn lemma_truey_tokens_classified(t: Seq<char>)
    requires
        stock_truey_precise().contains(t),
    ensures
        matches_terms(t, stock_truey_precise(), stock_truey_lowercase()),
        classify(t, stock_tables()) == Some(true),
{
    lemma_stock_tokens_trimmed(t);
    lemma_stock_precise_disjoint(t);
}

/// White space of any kind around a text changes nothing: whatever the
/// tables, the padded text is classified as the text itself, and matches a
/// polarity exactly when the text does.
pub proof fn lemma_padding_ignored(
    left: Seq<char>,
    s: Seq<char>,
    right: Seq<char>,
    tables: TermTables,
)
    requires
        all_white_space(left),
        all_white_space(right),
    ensures
        classify(left + s + right, tables) == classify(s, tables),
        matches_terms(left + s + right, tables.falsey_precise, tables.falsey_lowercase)
            == matches_terms(s, tables.falsey_precise, tables.falsey_lowercase),
        matches_terms(left + s + right, tables.truey_precise, tables.truey_lowercase)
            == matches_terms(s, tables.truey_precise, tables.truey_lowercase),
{
    lemma_trimmed_ignores_padding(left, s, right);
}

/// Spaces before and after a text change nothing: the padded text is
/// classified as the text itself, and matches a polarity exactly when the
/// text does.
pub proof fn lemma_space_padding_ignored(
    left: Seq<char>,
    s: Seq<char>,
    right: Seq<char>,
    tables: TermTables,
)
    requires
        forall|i: int| 0 <= i < left.len() ==> left[i] == ' ',
        forall|i: int| 0 <= i < right.len() ==> right[i] == ' ',
    ensures
        classify(left + s + right, tables) == classify(s, tables),
        matches_terms(left + s + right, tables.falsey_precise, tables.falsey_lowercase)
            == matches_terms(s, tables.falsey_precise, tables.falsey_lowercase),
        matches_terms(left + s + right, tables.truey_precise, tables.truey_lowercase)
            == matches_terms(s, tables.truey_precise, tables.truey_lowercase),
{
    lemma_padding_ignored(left, s, right, tables);
}

/// Lower-casing leaves no character white space that was not, and makes
/// none of one that was.
proof fn lemma_lower_char_keeps_white_space(c: char)
    ensures
        is_white_space(lower_char(c)) == is_white_space(c),
{
    if 0x41 <= c as u32 <= 0x5A {
        let u: u32 = ((c as u32) + 0x20) as u32;
        assert(0x61 <= u <= 0x7A);
        assert((u as char) as u32 == u);
    }
}

/// A casing variant of a built-in lowercase token is classified by the
/// built-in tables as the token itself.
pub proof fn lemma_case_variant_classified(v: Seq<char>, t: Seq<char>)
    requires
        stock_falsey_lowercase().contains(t) || stock_truey_lowercase().contains(t),
        ascii_lowercase(v) == t,
    ensures
        classify(v, stock_tables()) == classify(t, stock_tables()),
{
    lemma_stock_tokens_trimmed(t);
    // The variant has white space where the token has, that is nowhere at
    // its ends.
    assert(trimmed(v) == v) by {
        lemma_falsey_tokens_spelled();
        lemma_truey_tokens_spelled();
        assert(v.len() == t.len());
        assert(t[0] == lower_char(v[0]));
        assert(t[t.len() - 1] == lower_char(v[v.len() - 1]));
        lemma_lower_char_keeps_white_space(v.first());
        lemma_lower_char_keeps_white_space(v.last());
        lemma_trimmed_fixed(v);
    }
    lemma_stock_precise_lowercased(v);
    lemma_stock_precise_lowercased(t);
    lemma_stock_lowercase_precise(t);
    lemma_stock_lowercase_disjoint(t);
    lemma_stock_precise_disjoint(t);
}

/// By the built-in tables the single-polarity checks follow the
/// classification: a text matches the falsey terms exactly when it is
/// classified `Some(false)`, and the truey terms exactly when it is
/// classified `Some(true)`. So a text that is not classified matches
/// neither, and the two checks are not each other's negation.
pub proof fn lemma_polarities_follow_classification(s: Seq<char>)
    ensures
        matches_terms(s, stock_falsey_precise(), stock_falsey_lowercase()) == (classify(
            s,
            stock_tables(),
        ) == Some(false)),
        matches_terms(s, stock_truey_precise(), stock_truey_lowercase()) == (classify(
            s,
            stock_tables(),
        ) == Some(true)),
{
    let t = trimmed(s);
    lemma_stock_precise_lowercased(t);
    lemma_stock_lowercase_disjoint(ascii_lowercase(t));
    lemma_stock_precise_disjoint(t);
}

/// The two single-polarity checks are not each other's negation: a text can
/// match neither polarity, as the empty text does.
pub proof fn lemma_polarities_not_complementary()
    ensures
        !matches_terms(Seq::empty(), stock_falsey_precise(), stock_falsey_lowercase()),
        !matches_terms(Seq::empty(), stock_truey_precise(), stock_truey_lowercase()),
        classify(Seq::empty(), stock_tables()) is None,
{
    let empty = Seq::<char>::empty();
    lemma_falsey_tokens_spelled();
    lemma_truey_tokens_spelled();
    assert(trimmed(empty) == empty);
    assert(ascii_lowercase(empty) =~= empty);
}

} // verus!
