//! Comparing texts by the bytes of their UTF-8 encoding: for equality, for
//! equality up to ASCII case, and for order.

use crate::text::{ascii_lowercase, bytes_less, lower_char, text_less};
use vstd::prelude::*;
use vstd::string::StringSliceAdditionalSpecFns;
use vstd::utf8::{char_is_scalar, encode_scalar, encode_utf8, encode_utf8_decode_utf8};

verus! {

/// No byte string comes before itself.
pub proof fn lemma_bytes_less_irreflexive(a: Seq<u8>)
    ensures
        !bytes_less(a, a),
    decreases a.len(),
{
    if a.len() > 0 {
        lemma_bytes_less_irreflexive(a.drop_first());
    }
}

/// Of two different byte strings, one comes before the other.
pub proof fn lemma_bytes_less_total(a: Seq<u8>, b: Seq<u8>)
    ensures
        a == b || bytes_less(a, b) || bytes_less(b, a),
    decreases a.len(),
{
    if a.len() > 0 && b.len() > 0 && a.first() == b.first() {
        lemma_bytes_less_total(a.drop_first(), b.drop_first());
        if a.drop_first() == b.drop_first() {
            assert(a =~= seq![a.first()] + a.drop_first());
            assert(b =~= seq![b.first()] + b.drop_first());
        }
    } else if a.len() == 0 && b.len() == 0 {
        assert(a =~= b);
    }
}

/// Two texts with the same UTF-8 encoding are the same text.
pub proof fn lemma_encoding_injective(a: Seq<char>, b: Seq<char>)
    requires
        encode_utf8(a) == encode_utf8(b),
    ensures
        a == b,
{
    encode_utf8_decode_utf8(a);
    encode_utf8_decode_utf8(b);
}

/// No text comes before itself.
pub proof fn lemma_text_less_irreflexive(a: Seq<char>)
    ensures
        !text_less(a, a),
{
    lemma_bytes_less_irreflexive(encode_utf8(a));
}

/// Of two different texts, one comes before the other.
pub proof fn lemma_text_less_total(a: Seq<char>, b: Seq<char>)
    ensures
        a == b || text_less(a, b) || text_less(b, a),
{
    lemma_bytes_less_total(encode_utf8(a), encode_utf8(b));
    if encode_utf8(a) == encode_utf8(b) {
        lemma_encoding_injective(a, b);
    }
}

/// The ASCII lower-case equivalent of the byte `b`.
pub open spec fn lower_byte(b: u8) -> u8 {
    if 0x41 <= b <= 0x5A {
        (b + 0x20) as u8
    } else {
        b
    }
}

/// `bytes` with each byte replaced by its ASCII lower-case equivalent.
pub open spec fn lowercase_bytes(bytes: Seq<u8>) -> Seq<u8> {
    Seq::new(bytes.len(), |i: int| lower_byte(bytes[i]))
}

/// Lower-casing a character lower-cases the bytes of its encoding: a
/// capital letter is one byte, and no byte of a character beyond ASCII is in
/// the range of the capital letters.
pub proof fn lemma_lower_char_encoding(c: char)
    ensures
        encode_scalar(lower_char(c) as u32) == lowercase_bytes(encode_scalar(c as u32)),
{
    let v: u32 = c as u32;
    let bytes = encode_scalar(v);
    char_is_scalar(c);
    if 0x41 <= v <= 0x5A {
        let w: u32 = (v + 0x20) as u32;
        assert((w as char) as u32 == w);
        assert((v & 0x7F) as u8 == v && (w & 0x7F) as u8 == v + 0x20) by (bit_vector)
            requires
                0x41 <= v <= 0x5A,
                w == v + 0x20,
        ;
        assert(encode_scalar(w) =~= lowercase_bytes(bytes));
    } else if v <= 0x7F {
        assert((v & 0x7F) as u8 == v) by (bit_vector)
            requires
                v <= 0x7F,
        ;
        assert(bytes =~= lowercase_bytes(bytes));
    } else {
        assert(forall|x: u8| #![auto] (0x80 | x) >= 0x80) by (bit_vector);
        assert(forall|x: u8| #![auto] (0xC0 | x) >= 0x80) by (bit_vector);
        assert(forall|x: u8| #![auto] (0xE0 | x) >= 0x80) by (bit_vector);
        assert(forall|x: u8| #![auto] (0xF0 | x) >= 0x80) by (bit_vector);
        assert(bytes =~= lowercase_bytes(bytes));
    }
}

/// Lower-casing a text lower-cases the bytes of its encoding.
pub proof fn lemma_lowercase_encoding(s: Seq<char>)
    ensures
        encode_utf8(ascii_lowercase(s)) == lowercase_bytes(encode_utf8(s)),
    decreases s.len(),
{
    let l = ascii_lowercase(s);
    if s.len() == 0 {
        assert(encode_utf8(l) =~= lowercase_bytes(encode_utf8(s)));
    } else {
        lemma_lower_char_encoding(s[0]);
        lemma_lowercase_encoding(s.drop_first());
        assert(l.drop_first() =~= ascii_lowercase(s.drop_first()));
        assert(encode_utf8(l) =~= lowercase_bytes(encode_utf8(s)));
    }
}

/// Computes `lower_byte`.
fn lower(b: u8) -> (l: u8)
    ensures
        l == lower_byte(b),
{
    if 0x41 <= b && b <= 0x5A {
        b + 0x20
    } else {
        b
    }
}

/// Whether `token` is the ASCII lower-casing of `s`, decided by comparing
/// the bytes of the one with the lower-cased bytes of the other.
pub(crate) fn same_text_lowered(token: &str, s: &str) -> (same: bool)
    ensures
        same == (token@ == ascii_lowercase(s@)),
{
    let x = token.as_bytes();
    let y = s.as_bytes();
    proof {
        lemma_lowercase_encoding(s@);
    }
    if x.len() != y.len() {
        return false;
    }
    let mut i: usize = 0;
    while i < x.len()
        invariant
            i <= x.len(),
            x.len() == y.len(),
            x@ == encode_utf8(token@),
            lowercase_bytes(y@) == encode_utf8(ascii_lowercase(s@)),
            forall|k: int| 0 <= k < i ==> x[k] == lower_byte(y[k]),
        decreases x.len() - i,
    {
        if x[i] != lower(y[i]) {
            assert(x@[i as int] != lowercase_bytes(y@)[i as int]);
            return false;
        }
        i += 1;
    }
    proof {
        assert(x@ =~= lowercase_bytes(y@));
        lemma_encoding_injective(token@, ascii_lowercase(s@));
    }
    true
}

/// Whether two string slices hold the same text, decided by comparing their
/// bytes.
pub(crate) fn same_text(a: &str, b: &str) -> (same: bool)
    ensures
        same == (a@ == b@),
{
    let x = a.as_bytes();
    let y = b.as_bytes();
    if x.len() != y.len() {
        return false;
    }
    let mut i: usize = 0;
    while i < x.len()
        invariant
            i <= x.len(),
            x.len() == y.len(),
            x@ == encode_utf8(a@),
            y@ == encode_utf8(b@),
            forall|k: int| 0 <= k < i ==> x[k] == y[k],
        decreases x.len() - i,
    {
        if x[i] != y[i] {
            return false;
        }
        i += 1;
    }
    proof {
        assert(x@ =~= y@);
        lemma_encoding_injective(a@, b@);
    }
    true
}

/// Whether `a` comes before `b` in ordinal order, decided at the first byte
/// in which the two differ, or by their lengths where one is a prefix of the
/// other.
pub(crate) fn text_before(a: &str, b: &str) -> (before: bool)
    ensures
        before == text_less(a@, b@),
{
    let x = a.as_bytes();
    let y = b.as_bytes();
    let mut i: usize = 0;
    proof {
        assert(x@.skip(0) =~= x@);
        assert(y@.skip(0) =~= y@);
    }
    while i < x.len() && i < y.len()
        invariant
            i <= x.len(),
            i <= y.len(),
            x@ == encode_utf8(a@),
            y@ == encode_utf8(b@),
            bytes_less(x@, y@) == bytes_less(x@.skip(i as int), y@.skip(i as int)),
        decreases x.len() - i,
    {
        assert(x@.skip(i as int).first() == x[i as int]);
        assert(y@.skip(i as int).first() == y[i as int]);
        if x[i] != y[i] {
            return x[i] < y[i];
        }
        proof {
            assert(x@.skip(i as int).drop_first() =~= x@.skip(i + 1));
            assert(y@.skip(i as int).drop_first() =~= y@.skip(i + 1));
        }
        i += 1;
    }
    i < y.len()
}

} // verus!
