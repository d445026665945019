//! The term tables: the built-in ones, and the configuration by which a
//! caller selects them or supplies tables of their own.

use crate::lookup::{ascending, texts};
use crate::text::{bytes_less, text_less};
use vstd::prelude::*;
use vstd::utf8::is_ascii_chars;

verus! {

/// Four tables of tokens, which is all that a classification consults.
///
/// The two precise tables are compared with the trimmed input as it stands,
/// the two lowercase tables with its ASCII lower-casing.
pub struct TermTables {
    pub falsey_precise: Seq<Seq<char>>,
    pub falsey_lowercase: Seq<Seq<char>>,
    pub truey_precise: Seq<Seq<char>>,
    pub truey_lowercase: Seq<Seq<char>>,
}

/// The built-in falsey tokens that are compared exactly, in ascending order.
pub open spec fn stock_falsey_precise() -> Seq<Seq<char>> {
    seq![
        "0"@,
        "FALSE"@,
        "False"@,
        "NO"@,
        "No"@,
        "OFF"@,
        "Off"@,
        "false"@,
        "no"@,
        "off"@,
    ]
}

/// The built-in truey tokens that are compared exactly, in ascending order.
pub open spec fn stock_truey_precise() -> Seq<Seq<char>> {
    seq![
        "1"@,
        "ON"@,
        "On"@,
        "TRUE"@,
        "True"@,
        "YES"@,
        "Yes"@,
        "on"@,
        "true"@,
        "yes"@,
    ]
}

/// The built-in falsey tokens that are compared with the lower-cased input.
pub open spec fn stock_falsey_lowercase() -> Seq<Seq<char>> {
    seq!["false"@, "no"@, "off"@, "0"@]
}

/// The built-in truey tokens that are compared with the lower-cased input.
pub open spec fn stock_truey_lowercase() -> Seq<Seq<char>> {
    seq!["true"@, "yes"@, "on"@, "1"@]
}

/// The built-in tables together.
pub open spec fn stock_tables() -> TermTables {
    TermTables {
        falsey_precise: stock_falsey_precise(),
        falsey_lowercase: stock_falsey_lowercase(),
        truey_precise: stock_truey_precise(),
        truey_lowercase: stock_truey_lowercase(),
    }
}

/// Directs which term tables a classification uses.
#[derive(Debug)]
pub enum Terms<'a> {
    /// Use the built-in tables.
    Default,
    /// Use the given tables. They are consulted as they stand: nothing is
    /// trimmed, sorted or deduplicated, and no order is asked of them.
    Strings {
        falsey_precise_strings: &'a [&'a str],
        falsey_lowercase_strings: &'a [&'a str],
        truey_precise_strings: &'a [&'a str],
        truey_lowercase_strings: &'a [&'a str],
    },
}

impl<'a> Clone for Terms<'a> {
    /// A copy that selects the same tables.
    fn clone(&self) -> (copy: Self)
        ensures
            copy == *self,
    {
        match *self {
            Terms::Default => Terms::Default,
            Terms::Strings {
                falsey_precise_strings,
                falsey_lowercase_strings,
                truey_precise_strings,
                truey_lowercase_strings,
            } => Terms::Strings {
                falsey_precise_strings,
                falsey_lowercase_strings,
                truey_precise_strings,
                truey_lowercase_strings,
            },
        }
    }
}

impl<'a> View for Terms<'a> {
    type V = TermTables;

    /// The tables that the configuration selects.
    open spec fn view(&self) -> TermTables {
        match *self {
            Terms::Default => stock_tables(),
            Terms::Strings {
                falsey_precise_strings,
                falsey_lowercase_strings,
                truey_precise_strings,
                truey_lowercase_strings,
            } => TermTables {
                falsey_precise: texts(falsey_precise_strings),
                falsey_lowercase: texts(falsey_lowercase_strings),
                truey_precise: texts(truey_precise_strings),
                truey_lowercase: texts(truey_lowercase_strings),
            },
        }
    }
}

/// The characters of the built-in falsey tokens.
pub proof fn lemma_falsey_tokens_spelled()
    ensures
        "0"@ =~= seq!['0'],
        "FALSE"@ =~= seq!['F', 'A', 'L', 'S', 'E'],
        "False"@ =~= seq!['F', 'a', 'l', 's', 'e'],
        "NO"@ =~= seq!['N', 'O'],
        "No"@ =~= seq!['N', 'o'],
        "OFF"@ =~= seq!['O', 'F', 'F'],
        "Off"@ =~= seq!['O', 'f', 'f'],
        "false"@ =~= seq!['f', 'a', 'l', 's', 'e'],
        "no"@ =~= seq!['n', 'o'],
        "off"@ =~= seq!['o', 'f', 'f'],
{
    reveal_strlit("0");
    reveal_strlit("FALSE");
    reveal_strlit("False");
    reveal_strlit("NO");
    reveal_strlit("No");
    reveal_strlit("OFF");
    reveal_strlit("Off");
    reveal_strlit("false");
    reveal_strlit("no");
    reveal_strlit("off");
}

/// The characters of the built-in truey tokens.
pub proof fn lemma_truey_tokens_spelled()
    ensures
        "1"@ =~= seq!['1'],
        "ON"@ =~= seq!['O', 'N'],
        "On"@ =~= seq!['O', 'n'],
        "TRUE"@ =~= seq!['T', 'R', 'U', 'E'],
        "True"@ =~= seq!['T', 'r', 'u', 'e'],
        "YES"@ =~= seq!['Y', 'E', 'S'],
        "Yes"@ =~= seq!['Y', 'e', 's'],
        "on"@ =~= seq!['o', 'n'],
        "true"@ =~= seq!['t', 'r', 'u', 'e'],
        "yes"@ =~= seq!['y', 'e', 's'],
{
    reveal_strlit("1");
    reveal_strlit("ON");
    reveal_strlit("On");
    reveal_strlit("TRUE");
    reveal_strlit("True");
    reveal_strlit("YES");
    reveal_strlit("Yes");
    reveal_strlit("on");
    reveal_strlit("true");
    reveal_strlit("yes");
}

/// The built-in precise tables are sorted, as binary search needs them.
pub proof fn lemma_stock_precise_ascending()
    ensures
        ascending(stock_falsey_precise()),
        ascending(stock_truey_precise()),
{
    broadcast use vstd::utf8::is_ascii_chars_encode_utf8;

    reveal_with_fuel(bytes_less, 3);
    lemma_falsey_tokens_spelled();
    lemma_truey_tokens_spelled();
    let falsey = stock_falsey_precise();
    let truey = stock_truey_precise();
    // Every token is ASCII, so its encoding is its characters, one byte each.
    assert forall|i: int| 0 <= i < 10 implies is_ascii_chars(#[trigger] falsey[i])
        && is_ascii_chars(#[trigger] truey[i]) by {}
    assert forall|i: int, j: int| 0 <= i < j < 10 implies !text_less(falsey[j], falsey[i]) by {}
    assert forall|i: int, j: int| 0 <= i < j < 10 implies !text_less(truey[j], truey[i]) by {}
}

/// The built-in falsey tokens that are compared exactly.
pub(crate) fn falsey_precise_strings() -> (table: &'static [&'static str])
    ensures
        texts(table) == stock_falsey_precise(),
{
    let table: &'static [&'static str] = &[
        "0",
        "FALSE",
        "False",
        "NO",
        "No",
        "OFF",
        "Off",
        "false",
        "no",
        "off",
    ];
    assert(texts(table) =~= stock_falsey_precise());
    table
}

/// The built-in truey tokens that are compared exactly.
pub(crate) fn truey_precise_strings() -> (table: &'static [&'static str])
    ensures
        texts(table) == stock_truey_precise(),
{
    let table: &'static [&'static str] = &[
        "1",
        "ON",
        "On",
        "TRUE",
        "True",
        "YES",
        "Yes",
        "on",
        "true",
        "yes",
    ];
    assert(texts(table) =~= stock_truey_precise());
    table
}

/// The built-in falsey tokens that are compared with the lower-cased input.
pub(crate) fn falsey_lowercase_strings() -> (table: &'static [&'static str])
    ensures
        texts(table) == stock_falsey_lowercase(),
{
    let table: &'static [&'static str] = &["false", "no", "off", "0"];
    assert(texts(table) =~= stock_falsey_lowercase());
    table
}

/// The built-in truey tokens that are compared with the lower-cased input.
pub(crate) fn truey_lowercase_strings() -> (table: &'static [&'static str])
    ensures
        texts(table) == stock_truey_lowercase(),
{
    let table: &'static [&'static str] = &["true", "yes", "on", "1"];
    assert(texts(table) =~= stock_truey_lowercase());
    table
}

/// The built-in tables as a caller-supplied configuration, so that a caller
/// can keep some of them and replace the others.
pub fn stock_term_strings() -> (terms: Terms<'static>)
    ensures
        terms is Strings,
        terms@ == stock_tables(),
{
    Terms::Strings {
        falsey_precise_strings: falsey_precise_strings(),
        falsey_lowercase_strings: falsey_lowercase_strings(),
        truey_precise_strings: truey_precise_strings(),
        truey_lowercase_strings: truey_lowercase_strings(),
    }
}

} // verus!
