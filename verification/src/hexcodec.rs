//! Hexadecimal encoding and decoding of byte strings, done by the `hex`
//! crate, with what its documentation states of the results.

use vstd::prelude::*;

verus! {

/// The value of a hexadecimal digit of either case.
pub open spec fn spec_hex_value(c: char) -> Option<u8> {
    if '0' <= c && c <= '9' {
        Some((c as int - '0' as int) as u8)
    } else if 'a' <= c && c <= 'f' {
        Some((c as int - 'a' as int + 10) as u8)
    } else if 'A' <= c && c <= 'F' {
        Some((c as int - 'A' as int + 10) as u8)
    } else {
        None
    }
}

/// The bytes a hexadecimal string encodes, two digits per byte with the
/// high nibble first; `None` when the length is odd or a character is not a
/// hexadecimal digit.
pub open spec fn spec_hex_decode(s: Seq<char>) -> Option<Seq<u8>>
    decreases s.len(),
{
    if s.len() == 0 {
        Some(seq![])
    } else if s.len() == 1 {
        None
    } else {
        match (spec_hex_value(s[0]), spec_hex_value(s[1]), spec_hex_decode(s.skip(2))) {
            (Some(a), Some(b), Some(rest)) => Some(seq![(a * 16 + b) as u8] + rest),
            _ => None,
        }
    }
}

/// The upper case hexadecimal encoding of `bytes`.
///
/// Trusted: calls `hex::encode_upper`, which the crate documents as
/// encoding each byte as two upper case hexadecimal digits, high nibble
/// first.
#[verifier::external_body]
pub(crate) fn encode_upper(bytes: &[u8]) -> (r: String)
    ensures
        r@ == crate::text::spec_hex_bytes(bytes@, true, seq![]),
{
    hex::encode_upper(bytes)
}

/// The lower case hexadecimal encoding of `bytes`.
///
/// Trusted: calls `hex::encode`, which the crate documents as encoding each
/// byte as two lower case hexadecimal digits, high nibble first.
#[verifier::external_body]
pub(crate) fn encode_lower(bytes: &[u8]) -> (r: String)
    ensures
        r@ == crate::text::spec_hex_bytes(bytes@, false, seq![]),
{
    hex::encode(bytes)
}

/// The bytes a hexadecimal string encodes, or `None` when it is not one.
///
/// Trusted: calls `hex::decode`, which the crate documents as decoding
/// digits of either case in pairs and failing on an odd length or on any
/// other character (a character that is not an ASCII hexadecimal digit
/// makes at least one of its UTF-8 bytes invalid).
#[verifier::external_body]
pub(crate) fn decode(s: &str) -> (r: Option<Vec<u8>>)
    ensures
        match r {
            Some(v) => spec_hex_decode(s@) == Some(v@),
            None => spec_hex_decode(s@) is None,
        },
{
    hex::decode(s).ok()
}

/// A hexadecimal digit reads back as its value.
proof fn lemma_hex_digit_value(v: int, upper: bool)
    requires
        0 <= v < 16,
    ensures
        spec_hex_value(crate::text::spec_hex_digit(v, upper)) == Some(v as u8),
{
}

/// Without a separator, the hexadecimal rendering of a non-empty byte
/// string is that of its first byte followed by that of the rest.
pub proof fn lemma_hex_bytes_first(s: Seq<u8>, upper: bool)
    requires
        s.len() >= 1,
    ensures
        crate::text::spec_hex_bytes(s, upper, seq![]) == crate::text::spec_hex_byte(s[0], upper)
            + crate::text::spec_hex_bytes(s.skip(1), upper, seq![]),
    decreases s.len(),
{
    if s.len() == 1 {
        assert(s.skip(1) =~= Seq::<u8>::empty());
        assert(crate::text::spec_hex_byte(s[0], upper) + Seq::<char>::empty() =~= crate::text::spec_hex_byte(s[0], upper));
    } else {
        lemma_hex_bytes_first(s.drop_last(), upper);
        assert(s.drop_last().skip(1) =~= s.skip(1).drop_last());
        assert(s.skip(1).last() == s.last());
        let t = s.skip(1);
        if t.len() == 1 {
            assert(t.drop_last() =~= Seq::<u8>::empty());
        }
        assert(crate::text::spec_hex_bytes(s, upper, seq![]) =~= crate::text::spec_hex_byte(s[0], upper)
            + crate::text::spec_hex_bytes(s.skip(1), upper, seq![]));
    }
}

/// Decoding the hexadecimal rendering of bytes, of either case and without
/// a separator, gives the bytes back.
pub proof fn lemma_hex_roundtrip(s: Seq<u8>, upper: bool)
    ensures
        spec_hex_decode(crate::text::spec_hex_bytes(s, upper, seq![])) == Some(s),
    decreases s.len(),
{
    if s.len() > 0 {
        lemma_hex_bytes_first(s, upper);
        lemma_hex_roundtrip(s.skip(1), upper);
        let h = crate::text::spec_hex_bytes(s, upper, seq![]);
        let hi_d = s[0] as int / 16;
        let lo_d = s[0] as int % 16;
        lemma_hex_digit_value(hi_d, upper);
        lemma_hex_digit_value(lo_d, upper);
        assert(h.skip(2) =~= crate::text::spec_hex_bytes(s.skip(1), upper, seq![]));
        assert(h[0] == crate::text::spec_hex_digit(hi_d, upper));
        assert(h[1] == crate::text::spec_hex_digit(lo_d, upper));
        assert(((hi_d * 16 + lo_d) as u8) == s[0]);
        assert(seq![s[0]] + s.skip(1) =~= s);
    } else {
        assert(crate::text::spec_hex_bytes(s, upper, seq![]) =~= Seq::<char>::empty());
        assert(s =~= Seq::<u8>::empty());
    }
}

} // verus!
