//! Looking a text up in a table of tokens: by linear scan in any table, by
//! binary search in one that is sorted.

use crate::comparison::{
    lemma_text_less_irreflexive, lemma_text_less_total, same_text, same_text_lowered, text_before,
};
use crate::text::{ascii_lowercase, text_less};
use vstd::prelude::*;

verus! {

/// The tokens of a table, each as the sequence of its characters.
pub open spec fn texts(table: &[&str]) -> Seq<Seq<char>> {
    Seq::new(table@.len(), |i: int| table@[i]@)
}

/// Whether a table is sorted in ascending ordinal order: no token comes
/// before one that stands earlier in the table.
pub open spec fn ascending(table: Seq<Seq<char>>) -> bool {
    forall|i: int, j: int| 0 <= i < j < table.len() ==> !text_less(table[j], table[i])
}

/// Whether `needle` is one of the tokens of `table`, found by comparing it
/// with each token in turn.
pub(crate) fn scan(table: &[&str], needle: &str) -> (found: bool)
    ensures
        found == texts(table).contains(needle@),
{
    let mut i: usize = 0;
    while i < table.len()
        invariant
            i <= table.len(),
            forall|k: int| 0 <= k < i ==> texts(table)[k] != needle@,
        decreases table.len() - i,
    {
        if same_text(table[i], needle) {
            assert(texts(table)[i as int] == needle@);
            return true;
        }
        i += 1;
    }
    false
}

/// Whether the ASCII lower-casing of `needle` is one of the tokens of
/// `table`, found by comparing it with each token in turn.
pub(crate) fn scan_lowered(table: &[&str], needle: &str) -> (found: bool)
    ensures
        found == texts(table).contains(ascii_lowercase(needle@)),
{
    let mut i: usize = 0;
    while i < table.len()
        invariant
            i <= table.len(),
            forall|k: int| 0 <= k < i ==> texts(table)[k] != ascii_lowercase(needle@),
        decreases table.len() - i,
    {
        if same_text_lowered(table[i], needle) {
            assert(texts(table)[i as int] == ascii_lowercase(needle@));
            return true;
        }
        i += 1;
    }
    false
}

/// Whether `needle` is one of the tokens of the sorted `table`, found by
/// halving the range that can still hold it.
pub(crate) fn search(table: &[&str], needle: &str) -> (found: bool)
    requires
        ascending(texts(table)),
    ensures
        found == texts(table).contains(needle@),
{
    let mut low: usize = 0;
    let mut high: usize = table.len();
    while low < high
        invariant
            low <= high <= table.len(),
            ascending(texts(table)),
            forall|k: int| 0 <= k < low ==> texts(table)[k] != needle@,
            forall|k: int| high <= k < table.len() ==> texts(table)[k] != needle@,
        decreases high - low,
    {
        let mid: usize = low + (high - low) / 2;
        let token: &str = table[mid];
        assert(texts(table)[mid as int] == token@);
        if same_text(token, needle) {
            return true;
        } else if text_before(token, needle) {
            // Nothing up to `mid` can equal the needle: it would come after
            // the token at `mid` while standing no later in the table.
            proof {
                lemma_text_less_irreflexive(token@);
            }
            low = mid + 1;
        } else {
            // The needle comes before the token at `mid`, and so before
            // every token from `mid` on.
            proof {
                lemma_text_less_total(token@, needle@);
            }
            high = mid;
        }
    }
    false
}

} // verus!
