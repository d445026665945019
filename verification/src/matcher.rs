//! The classification itself: trim the input, look it up exactly, then look
//! its lower-casing up.

use crate::lookup::{ascending, scan, scan_lowered, search, texts};
use crate::terms::{
    falsey_lowercase_strings, falsey_precise_strings, lemma_stock_precise_ascending,
    stock_falsey_lowercase, stock_falsey_precise, stock_tables, stock_truey_lowercase,
    stock_truey_precise, truey_lowercase_strings, truey_precise_strings, TermTables, Terms,
};
use crate::text::{ascii_lowercase, trimmed};
use crate::trimming::trim;
use vstd::prelude::*;

verus! {

/// Whether `s` matches one polarity: its trimming is a precise token, or the
/// lower-casing of its trimming is a lowercase token.
pub open spec fn matches_terms(
    s: Seq<char>,
    precise: Seq<Seq<char>>,
    lowercase: Seq<Seq<char>>,
) -> bool {
    let t = trimmed(s);
    precise.contains(t) || lowercase.contains(ascii_lowercase(t))
}

/// How `s` is classified against `tables`: `Some(false)` for falsey,
/// `Some(true)` for truey, `None` for neither.
///
/// The precise tables are consulted before the lowercase ones, and within
/// each tier falsey before truey; the first table to hold the text decides.
pub open spec fn classify(s: Seq<char>, tables: TermTables) -> Option<bool> {
    let t = trimmed(s);
    let l = ascii_lowercase(t);
    if tables.falsey_precise.contains(t) {
        Some(false)
    } else if tables.truey_precise.contains(t) {
        Some(true)
    } else if tables.falsey_lowercase.contains(l) {
        Some(false)
    } else if tables.truey_lowercase.contains(l) {
        Some(true)
    } else {
        None
    }
}

/// The tables that `terms` selects when the built-in ones are those given.
spec fn selected_tables(
    terms: Terms,
    stock_falsey_precise: Seq<Seq<char>>,
    stock_falsey_lowercase: Seq<Seq<char>>,
    stock_truey_precise: Seq<Seq<char>>,
    stock_truey_lowercase: Seq<Seq<char>>,
) -> TermTables {
    match terms {
        Terms::Default => TermTables {
            falsey_precise: stock_falsey_precise,
            falsey_lowercase: stock_falsey_lowercase,
            truey_precise: stock_truey_precise,
            truey_lowercase: stock_truey_lowercase,
        },
        Terms::Strings { .. } => terms@,
    }
}

/// Whether `s` matches one polarity, given the sorted precise table and the
/// lowercase table of that polarity.
fn string_is_truthy_against_(
    s: &str,
    sorted_precise_strings: &[&str],
    lowercase_strings: &[&str],
) -> (matched: bool)
    requires
        ascending(texts(sorted_precise_strings)),
    ensures
        matched == matches_terms(s@, texts(sorted_precise_strings), texts(lowercase_strings)),
{
    let s = trim(s);

    if search(sorted_precise_strings, s) {
        true
    } else {
        scan_lowered(lowercase_strings, s)
    }
}

/// Classifies `s` by the tables that `terms` selects. The built-in tables are
/// handed in by the caller, the precise ones sorted, and are searched as
/// such; tables that come with `terms` are scanned.
fn string_is_truthy_with_(
    s: &str,
    terms: Terms,
    stock_falsey_sorted_precise_strings: &[&str],
    stock_falsey_lowercase_strings: &[&str],
    stock_truey_sorted_precise_strings: &[&str],
    stock_truey_lowercase_strings: &[&str],
) -> (class: Option<bool>)
    requires
        ascending(texts(stock_falsey_sorted_precise_strings)),
        ascending(texts(stock_truey_sorted_precise_strings)),
    ensures
        class == classify(
            s@,
            selected_tables(
                terms,
                texts(stock_falsey_sorted_precise_strings),
                texts(stock_falsey_lowercase_strings),
                texts(stock_truey_sorted_precise_strings),
                texts(stock_truey_lowercase_strings),
            ),
        ),
{
    let s = trim(s);

    match terms {
        Terms::Default => {
            if search(stock_falsey_sorted_precise_strings, s) {
                return Some(false);
            }
            if search(stock_truey_sorted_precise_strings, s) {
                return Some(true);
            }
        },
        Terms::Strings { falsey_precise_strings, truey_precise_strings, .. } => {
            if scan(falsey_precise_strings, s) {
                return Some(false);
            }
            if scan(truey_precise_strings, s) {
                return Some(true);
            }
        },
    };

    let (falsey_lowercase_strings, truey_lowercase_strings) = match terms {
        Terms::Default => (stock_falsey_lowercase_strings, stock_truey_lowercase_strings),
        Terms::Strings { falsey_lowercase_strings, truey_lowercase_strings, .. } => (
            falsey_lowercase_strings,
            truey_lowercase_strings,
        ),
    };

    if scan_lowered(falsey_lowercase_strings, s) {
        return Some(false);
    }
    if scan_lowered(truey_lowercase_strings, s) {
        return Some(true);
    }

    None
}

/// Indicates that the given string, when trimmed, is deemed "falsey" by the
/// built-in tables.
///
/// This is decided from the falsey tables alone, as `string_is_truey` is
/// from the truey ones: neither is defined as the negation of the other.
pub fn string_is_falsey(s: &str) -> (falsey: bool)
    ensures
        falsey == matches_terms(s@, stock_falsey_precise(), stock_falsey_lowercase()),
{
    proof {
        lemma_stock_precise_ascending();
    }
    string_is_truthy_against_(s, falsey_precise_strings(), falsey_lowercase_strings())
}

/// Indicates that the given string, when trimmed, is deemed "truey" by the
/// built-in tables.
///
/// This is decided from the truey tables alone, as `string_is_falsey` is
/// from the falsey ones: neither is defined as the negation of the other.
pub fn string_is_truey(s: &str) -> (truey: bool)
    ensures
        truey == matches_terms(s@, stock_truey_precise(), stock_truey_lowercase()),
{
    proof {
        lemma_stock_precise_ascending();
    }
    string_is_truthy_against_(s, truey_precise_strings(), truey_lowercase_strings())
}

/// Indicates whether the given string is "truthy" by the built-in tables
/// and, if so, whether it is "truey" or "falsey".
///
/// Returns `None` where the string is not classified, `Some(false)` where it
/// is deemed falsey and `Some(true)` where it is deemed truey.
pub fn string_is_truthy(s: &str) -> (class: Option<bool>)
    ensures
        class == classify(s@, stock_tables()),
{
    proof {
        lemma_stock_precise_ascending();
    }
    string_is_truthy_with_(
        s,
        Terms::Default,
        falsey_precise_strings(),
        falsey_lowercase_strings(),
        truey_precise_strings(),
        truey_lowercase_strings(),
    )
}

/// Indicates whether the given string is "truthy" when evaluated against the
/// given terms and, if so, whether it is "truey" or "falsey".
///
/// Tables that the caller supplies are scanned token by token, so the result
/// does not depend on their order.
pub fn string_is_truthy_with(s: &str, terms: Terms) -> (class: Option<bool>)
    ensures
        class == classify(s@, terms@),
{
    proof {
        lemma_stock_precise_ascending();
    }
    string_is_truthy_with_(
        s,
        terms,
        falsey_precise_strings(),
        falsey_lowercase_strings(),
        truey_precise_strings(),
        truey_lowercase_strings(),
    )
}

} // verus!
