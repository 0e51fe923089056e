//! Big-endian byte encodings used to build schema digests.

use vstd::prelude::*;

verus! {

/// The eight big-endian bytes of `x`.
pub open spec fn be_u64(x: u64) -> Seq<u8> {
    seq![
        (x >> 56u64) as u8,
        (x >> 48u64) as u8,
        (x >> 40u64) as u8,
        (x >> 32u64) as u8,
        (x >> 24u64) as u8,
        (x >> 16u64) as u8,
        (x >> 8u64) as u8,
        x as u8,
    ]
}

/// The four big-endian bytes of `x`.
pub open spec fn be_u32(x: u32) -> Seq<u8> {
    seq![(x >> 24u32) as u8, (x >> 16u32) as u8, (x >> 8u32) as u8, x as u8]
}

/// Eight zero bytes.
pub open spec fn zero_u64_bytes() -> Seq<u8> {
    seq![0u8, 0u8, 0u8, 0u8, 0u8, 0u8, 0u8, 0u8]
}

/// A length-prefixed byte string: the big-endian length followed by the bytes.
pub open spec fn framed(bytes: Seq<u8>) -> Seq<u8> {
    be_u64(bytes.len() as u64) + bytes
}

/// A length-prefixed UTF-8 text.
pub open spec fn framed_text(text: Seq<char>) -> Seq<u8> {
    framed(vstd::utf8::encode_utf8(text))
}

/// Append one byte.
pub fn push_u8(out: &mut Vec<u8>, b: u8)
    ensures
        final(out)@ == old(out)@ + seq![b],
{
    out.push(b);
}

/// Append the big-endian bytes of `x`.
pub fn push_be_u64(out: &mut Vec<u8>, x: u64)
    ensures
        final(out)@ == old(out)@ + be_u64(x),
{
    out.push((x >> 56u64) as u8);
    out.push((x >> 48u64) as u8);
    out.push((x >> 40u64) as u8);
    out.push((x >> 32u64) as u8);
    out.push((x >> 24u64) as u8);
    out.push((x >> 16u64) as u8);
    out.push((x >> 8u64) as u8);
    out.push(x as u8);
}

/// Append the big-endian bytes of `x`.
pub fn push_be_u32(out: &mut Vec<u8>, x: u32)
    ensures
        final(out)@ == old(out)@ + be_u32(x),
{
    out.push((x >> 24u32) as u8);
    out.push((x >> 16u32) as u8);
    out.push((x >> 8u32) as u8);
    out.push(x as u8);
}

/// Append eight zero bytes.
pub fn push_zero_u64(out: &mut Vec<u8>)
    ensures
        final(out)@ == old(out)@ + zero_u64_bytes(),
{
    let mut i: usize = 0;
    let ghost start = out@;
    while i < 8
        invariant
            0 <= i <= 8,
            out@ == start + zero_u64_bytes().subrange(0, i as int),
        decreases 8 - i,
    {
        out.push(0u8);
        i += 1;
        assert(out@ =~= start + zero_u64_bytes().subrange(0, i as int));
    }
    assert(zero_u64_bytes().subrange(0, 8) =~= zero_u64_bytes());
}

/// Append every byte of `bytes`.
pub fn push_all(out: &mut Vec<u8>, bytes: &[u8])
    ensures
        final(out)@ == old(out)@ + bytes@,
{
    let ghost start = out@;
    let mut i: usize = 0;
    while i < bytes.len()
        invariant
            0 <= i <= bytes@.len(),
            out@ == start + bytes@.subrange(0, i as int),
        decreases bytes@.len() - i,
    {
        out.push(bytes[i]);
        i += 1;
        assert(out@ =~= start + bytes@.subrange(0, i as int));
    }
    assert(bytes@.subrange(0, i as int) =~= bytes@);
}

/// Append the length-prefixed UTF-8 bytes of `text`.
pub fn push_framed_text(out: &mut Vec<u8>, text: &str)
    ensures
        final(out)@ == old(out)@ + framed_text(text@),
{
    let bytes = text.as_bytes();
    push_be_u64(out, bytes.len() as u64);
    push_all(out, bytes);
    assert(out@ =~= old(out)@ + framed_text(text@));
}

} // verus!
