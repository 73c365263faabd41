//! Calls into `snap`: the raw Snappy format, without framing.
use vstd::prelude::*;

use snap::raw::{Decoder, Encoder};

verus! {

/// `snap::Error`, carried through without being inspected.
#[verifier::external_type_specification]
#[verifier::external_body]
pub struct ExSnapError(snap::Error);

/// `snap::raw::Decoder`, which holds no state that changes what it decodes.
#[verifier::external_type_specification]
#[verifier::external_body]
pub struct ExSnapDecoder(snap::raw::Decoder);

/// `snap::raw::Encoder`, whose tables are cleared for every block it encodes.
#[verifier::external_type_specification]
#[verifier::external_body]
pub struct ExSnapEncoder(snap::raw::Encoder);

/// The decompressed length that the header of `input` announces, as
/// `snap::raw::decompress_len` reads it: `None` where the header is invalid.
pub uninterp spec fn snappy_declared_len(input: Seq<u8>) -> Option<usize>;

/// What `snap::raw::Decoder::decompress` writes for `input`: `None` where
/// `input` is not valid Snappy data.
pub uninterp spec fn snappy_decode(input: Seq<u8>) -> Option<Seq<u8>>;

/// What `snap::raw::Encoder::compress` writes for `input`.
pub uninterp spec fn snappy_encode(input: Seq<u8>) -> Seq<u8>;

/// The worst-case size of a Snappy encoding of `input_len` bytes, as
/// `snap::raw::max_compress_len` computes it: 0 where it exceeds `u32::MAX`.
pub open spec fn snappy_max_len(input_len: int) -> int {
    if input_len > u32::MAX {
        0
    } else if 32 + input_len + input_len / 6 > u32::MAX {
        0
    } else {
        32 + input_len + input_len / 6
    }
}

/// Calls `snap::raw::Decoder::new`.
#[verifier::external_body]
pub(crate) fn snappy_decoder() -> Decoder {
    Decoder::new()
}

/// Calls `snap::raw::Encoder::new`.
#[verifier::external_body]
pub(crate) fn snappy_encoder() -> Encoder {
    Encoder::new()
}

/// Calls `snap::raw::max_compress_len`, whose whole body is the formula of
/// `snappy_max_len`.
#[verifier::external_body]
pub(crate) fn snappy_max_compress_len(input_len: usize) -> (r: usize)
    ensures
        r == snappy_max_len(input_len as int),
{
    snap::raw::max_compress_len(input_len)
}

/// Calls `snap::raw::decompress_len`. It claims what its source shows: it
/// reads the named declared length, 0 for empty input, at most `u32::MAX`;
/// where it fails the input does not decode; and a decoding is as long as the
/// header declares.
#[verifier::external_body]
pub(crate) fn snappy_decompress_len(input: &[u8]) -> (r: Result<usize, snap::Error>)
    ensures
        r is Ok <==> snappy_declared_len(input@) is Some,
        r matches Ok(n) ==> snappy_declared_len(input@) == Some(n) && n <= u32::MAX,
        r is Err ==> snappy_decode(input@) is None,
        r matches Ok(n) ==> (snappy_decode(input@) matches Some(d) ==> d.len() == n),
{
    snap::raw::decompress_len(input)
}

/// Calls `snap::raw::Decoder::decompress` on `input` and the part of `output`
/// from `start` on. It claims what the function's source shows: it succeeds
/// exactly where `input` decodes into that part; on success it returns the
/// length of the decoding and writes it from `start` on, and leaves every
/// other byte and the length of `output` as they were.
#[verifier::external_body]
pub(crate) fn snappy_decompress_into(decoder: &mut Decoder, input: &[u8], output: &mut Vec<u8>, start: usize) -> (r: Result<usize, snap::Error>)
    requires
        start <= old(output)@.len(),
    ensures
        final(output)@.len() == old(output)@.len(),
        final(output)@.take(start as int) == old(output)@.take(start as int),
        r is Ok <==> (snappy_decode(input@) matches Some(d) && d.len() <= old(output)@.len() - start),
        r matches Ok(n) ==> start + n <= old(output)@.len()
            && snappy_decode(input@) == Some(final(output)@.subrange(start as int, start + n))
            && final(output)@.skip(start + n) == old(output)@.skip(start + n)
            && snappy_declared_len(input@) == Some(n),
{
    decoder.decompress(input, &mut output[start..])
}

/// Calls `snap::raw::Encoder::compress` on `input` and the part of `output`
/// from `start` on. It claims what the function's source and documentation
/// show: it succeeds exactly where the worst-case size is not 0 and that part
/// holds it; on success it writes the named encoding from `start` on, which
/// decodes back to `input` and declares its length, and keeps the bytes before
/// `start` and the length of `output`.
#[verifier::external_body]
pub(crate) fn snappy_compress_into(encoder: &mut Encoder, input: &[u8], output: &mut Vec<u8>, start: usize) -> (r: Result<usize, snap::Error>)
    requires
        start <= old(output)@.len(),
    ensures
        final(output)@.len() == old(output)@.len(),
        final(output)@.take(start as int) == old(output)@.take(start as int),
        r is Ok <==> (snappy_max_len(input@.len() as int) != 0 && old(output)@.len() - start >= snappy_max_len(input@.len() as int)),
        r matches Ok(n) ==> start + n <= old(output)@.len()
            && final(output)@.subrange(start as int, start + n) == snappy_encode(input@),
        r matches Ok(n) ==> snappy_decode(final(output)@.subrange(start as int, start + n)) == Some(input@)
            && snappy_declared_len(final(output)@.subrange(start as int, start + n)) == Some(input@.len() as usize),
{
    encoder.compress(input, &mut output[start..])
}

} // verus!
