//! Byte string helpers shared by the decoders: bounded reads, copies of
//! ranges and big/little-endian 16-bit values.

use vstd::prelude::*;

verus! {

/// The byte at `i`, or `default` when `s` is too short.
pub open spec fn spec_byte_or(s: Seq<u8>, i: int, default: u8) -> u8 {
    if 0 <= i < s.len() {
        s[i]
    } else {
        default
    }
}

/// The byte at `i`, or `default` when `s` is too short.
pub fn byte_or(s: &[u8], i: usize, default: u8) -> (r: u8)
    ensures
        r == spec_byte_or(s@, i as int, default),
{
    if i < s.len() {
        s[i]
    } else {
        default
    }
}

/// A copy of `s[from..to]`.
pub fn copy_range(s: &[u8], from: usize, to: usize) -> (r: Vec<u8>)
    requires
        from <= to <= s.len(),
    ensures
        r@ == s@.subrange(from as int, to as int),
{
    let mut r: Vec<u8> = Vec::new();
    let mut i: usize = from;
    while i < to
        invariant
            from <= i <= to <= s.len(),
            r@ == s@.subrange(from as int, i as int),
        decreases to - i,
    {
        r.push(s[i]);
        i = i + 1;
        assert(r@ =~= s@.subrange(from as int, i as int));
    }
    r
}

/// Appends `s` to `out`.
pub fn append_bytes(out: &mut Vec<u8>, s: &[u8])
    ensures
        final(out)@ == old(out)@ + s@,
{
    let ghost start = out@;
    let mut i: usize = 0;
    while i < s.len()
        invariant
            i <= s.len(),
            out@ == start + s@.take(i as int),
        decreases s.len() - i,
    {
        out.push(s[i]);
        i = i + 1;
        assert(out@ =~= start + s@.take(i as int));
    }
    assert(s@.take(s.len() as int) =~= s@);
}

/// Appends `n` copies of `b` to `out`.
pub fn append_fill(out: &mut Vec<u8>, b: u8, n: usize)
    ensures
        final(out)@ == old(out)@ + Seq::new(n as nat, |_i: int| b),
{
    let ghost start = out@;
    let mut i: usize = 0;
    while i < n
        invariant
            i <= n,
            out@ == start + Seq::new(i as nat, |_i: int| b),
        decreases n - i,
    {
        out.push(b);
        i = i + 1;
        assert(out@ =~= start + Seq::new(i as nat, |_i: int| b));
    }
}

/// The big-endian 16-bit value of two bytes.
pub open spec fn spec_be16(hi: u8, lo: u8) -> u16 {
    (hi as int * 256 + lo as int) as u16
}

/// The big-endian 16-bit value of two bytes.
pub fn be16(hi: u8, lo: u8) -> (r: u16)
    ensures
        r == spec_be16(hi, lo),
{
    (hi as u16) * 256 + (lo as u16)
}

/// The high byte of a 16-bit value.
pub open spec fn spec_hi(v: u16) -> u8 {
    (v / 256) as u8
}

/// The low byte of a 16-bit value.
pub open spec fn spec_lo(v: u16) -> u8 {
    (v % 256) as u8
}

/// The high byte of a 16-bit value.
pub fn hi(v: u16) -> (r: u8)
    ensures
        r == spec_hi(v),
{
    (v / 256) as u8
}

/// The low byte of a 16-bit value.
pub fn lo(v: u16) -> (r: u8)
    ensures
        r == spec_lo(v),
{
    (v % 256) as u8
}

/// Splitting a value into high and low bytes and joining them again gives
/// the value back.
pub proof fn lemma_be16_split(v: u16)
    ensures
        spec_be16(spec_hi(v), spec_lo(v)) == v,
{
}

/// Joining two bytes and splitting the value gives the bytes back.
pub proof fn lemma_be16_join(hi: u8, lo: u8)
    ensures
        spec_hi(spec_be16(hi, lo)) == hi,
        spec_lo(spec_be16(hi, lo)) == lo,
{
}

/// The byte string with no byte.
pub open spec fn bytes0() -> Seq<u8> {
    Seq::empty()
}

/// The byte string of one byte.
pub open spec fn bytes1(a: u8) -> Seq<u8> {
    seq![a]
}

/// The byte string of two bytes.
pub open spec fn bytes2(a: u8, b: u8) -> Seq<u8> {
    seq![a, b]
}

/// The byte string of three bytes.
pub open spec fn bytes3(a: u8, b: u8, c: u8) -> Seq<u8> {
    seq![a, b, c]
}

} // verus!
