//! Big-endian encoding of 32-bit integers.
use vstd::prelude::*;

verus! {

/// The value of the four bytes `b[0..4]` read as a big-endian unsigned integer.
pub open spec fn be_u32(b: Seq<u8>) -> int {
    b[0] * 16777216 + b[1] * 65536 + b[2] * 256 + b[3]
}

/// The four bytes of `v` in big-endian order.
pub open spec fn u32_be_bytes(v: u32) -> Seq<u8> {
    seq![(v / 16777216) as u8, ((v / 65536) % 256) as u8, ((v / 256) % 256) as u8, (v % 256) as u8]
}

/// Reading back the four big-endian bytes of `v` gives `v`.
pub proof fn lemma_be_u32_roundtrip(v: u32)
    ensures
        u32_be_bytes(v).len() == 4,
        be_u32(u32_be_bytes(v)) == v,
{
    let b = u32_be_bytes(v);
    assert(b[0] == v / 16777216);
    assert(b[1] == (v / 65536) % 256);
    assert(b[2] == (v / 256) % 256);
    assert(b[3] == v % 256);
    assert((v / 16777216) * 16777216 + ((v / 65536) % 256) * 65536 + ((v / 256) % 256) * 256 + v % 256 == v)
        by (nonlinear_arith)
        requires
            v <= u32::MAX,
    {
        assert(v == (v / 65536) * 65536 + v % 65536);
        assert(v / 65536 == (v / 16777216) * 256 + (v / 65536) % 256);
        assert(v % 65536 == ((v / 256) % 256) * 256 + v % 256);
    }
}

/// The bytes of `v` are its standard big-endian encoding: the most
/// significant byte first, then each next lower byte.
pub proof fn lemma_be_bytes_order(v: u32)
    ensures
        u32_be_bytes(v).len() == 4,
        u32_be_bytes(v)[0] as int == v as int / 0x100_0000,
        u32_be_bytes(v)[1] as int == (v as int / 0x1_0000) % 0x100,
        u32_be_bytes(v)[2] as int == (v as int / 0x100) % 0x100,
        u32_be_bytes(v)[3] as int == v as int % 0x100,
{
}

/// Four bytes are read as a standard big-endian number: the first byte is
/// the most significant.
pub proof fn lemma_be_value_order(b: Seq<u8>)
    requires
        b.len() == 4,
    ensures
        be_u32(b) == b[0] as int * 0x100_0000 + b[1] as int * 0x1_0000 + b[2] as int * 0x100 + b[3] as int,
{
}

/// Reads the big-endian `u32` at `input[pos..pos + 4]`.
pub fn read_be_u32(input: &[u8], pos: usize) -> (r: u32)
    requires
        pos + 4 <= input@.len(),
    ensures
        r == be_u32(input@.subrange(pos as int, pos + 4)),
{
    let b0 = input[pos] as u32;
    let b1 = input[pos + 1] as u32;
    let b2 = input[pos + 2] as u32;
    let b3 = input[pos + 3] as u32;
    b0 * 16777216 + b1 * 65536 + b2 * 256 + b3
}

/// Writes the big-endian bytes of `v` over `output[pos..pos + 4]`.
pub fn write_be_u32(output: &mut Vec<u8>, pos: usize, v: u32)
    requires
        pos + 4 <= old(output).len(),
    ensures
        final(output)@ == old(output)@.take(pos as int) + u32_be_bytes(v) + old(output)@.skip(pos + 4),
{
    output.set(pos, (v / 16777216) as u8);
    output.set(pos + 1, ((v / 65536) % 256) as u8);
    output.set(pos + 2, ((v / 256) % 256) as u8);
    output.set(pos + 3, (v % 256) as u8);
    assert(output@ =~= old(output)@.take(pos as int) + u32_be_bytes(v) + old(output)@.skip(pos + 4));
}

} // verus!
