//! Calls into `brotli`: the brotli format.
use vstd::prelude::*;

use crate::codec::{appended, keeps_prefix};

verus! {

/// What a `brotli::Decompressor` reads from `input` to its end, or `None`
/// where `input` is not a valid brotli stream.
pub uninterp spec fn brotli_decode(input: Seq<u8>) -> Option<Seq<u8>>;

/// The brotli stream that a `brotli::CompressorWriter` with a buffer of
/// `buffer_size` bytes (4096 where 0), quality `level` and a window of
/// 2^`lgwin` bytes writes for `input`, once flushed and dropped.
pub uninterp spec fn brotli_encode(input: Seq<u8>, level: u32, buffer_size: usize, lgwin: u32) -> Seq<u8>;

/// Builds a `brotli::Decompressor` over `input` with an internal buffer of
/// `buffer_size` bytes (4096 where 0) and calls `read_to_end` of
/// `std::io::Read` on it with `output`. It claims what `read_to_end`
/// documents, that bytes are only appended to `output`, and that the call
/// succeeds exactly where `input` decodes, appending the decoding, which the
/// buffer's size does not change, and returning its length.
#[verifier::external_body]
pub(crate) fn brotli_decode_append(input: &[u8], output: &mut Vec<u8>, buffer_size: usize) -> (r: Result<usize, std::io::Error>)
    ensures
        keeps_prefix(old(output)@, final(output)@),
        r is Ok <==> brotli_decode(input@) is Some,
        r matches Ok(n) ==> brotli_decode(input@) == Some(appended(old(output)@, final(output)@))
            && n == appended(old(output)@, final(output)@).len(),
{
    std::io::Read::read_to_end(&mut brotli::Decompressor::new(input, buffer_size), output)
}

/// Builds a `brotli::CompressorWriter` over `output` with a buffer of
/// `buffer_size` bytes, quality `level` and a window of 2^`lgwin` bytes (the
/// encoder brings quality and window into its supported ranges), calls
/// `write_all` and `flush`
/// of `std::io::Write`, and drops it, which ends the stream. It claims that
/// the call succeeds (the writer reports only errors of the writer it wraps,
/// and writing into a `Vec` does not fail), that bytes are only appended to
/// `output`, and that they are the named encoding, which decodes back to
/// `input`.
#[verifier::external_body]
pub(crate) fn brotli_encode_append(
    input: &[u8],
    output: &mut Vec<u8>,
    buffer_size: usize,
    level: u32,
    lgwin: u32,
) -> (r: Result<(), std::io::Error>)
    ensures
        keeps_prefix(old(output)@, final(output)@),
        r is Ok,
        r is Ok ==> appended(old(output)@, final(output)@) == brotli_encode(input@, level, buffer_size, lgwin)
            && brotli_decode(appended(old(output)@, final(output)@)) == Some(input@),
{
    let mut encoder = brotli::CompressorWriter::new(output, buffer_size, level, lgwin);
    std::io::Write::write_all(&mut encoder, input)?;
    std::io::Write::flush(&mut encoder)
}

} // verus!
