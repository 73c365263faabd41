//! Calls into `lz4_flex`: the LZ4 block format and the LZ4 frame format.
use vstd::prelude::*;

use lz4_flex::block::{CompressError, DecompressError};
use lz4_flex::frame::{FrameDecoder, FrameEncoder};
use std::io::{Read, Write};

verus! {

/// `lz4_flex::block::DecompressError`, carried through without being inspected.
#[verifier::external_type_specification]
#[verifier::external_body]
pub struct ExDecompressError(lz4_flex::block::DecompressError);

/// `lz4_flex::block::CompressError`, carried through without being inspected.
#[verifier::external_type_specification]
#[verifier::external_body]
pub struct ExCompressError(lz4_flex::block::CompressError);

/// `lz4_flex::frame::Error`, carried through without being inspected.
#[verifier::external_type_specification]
#[verifier::external_body]
pub struct ExFrameError(lz4_flex::frame::Error);

/// An LZ4 frame decoder (`lz4_flex::frame::FrameDecoder`) over a byte slice.
/// Its contracts describe it by the bytes it has still to yield, named by
/// `lz4_frame_remaining`.
#[verifier::external_body]
pub struct Lz4FrameReader<'a> {
    decoder: FrameDecoder<&'a [u8]>,
}

/// An LZ4 frame encoder (`lz4_flex::frame::FrameEncoder`) with default
/// settings, writing into a `Vec` of its own. Its contracts describe it by the
/// chunks written to it so far, named by `lz4_frame_fed`.
#[verifier::external_body]
pub struct Lz4FrameWriter {
    encoder: FrameEncoder<Vec<u8>>,
}

/// What a `lz4_flex::frame::FrameDecoder` over `input` yields, read into a
/// non-empty buffer, before its first read of no bytes: `None` where a read
/// fails before that.
pub uninterp spec fn lz4_frame_decode(input: Seq<u8>) -> Option<Seq<u8>>;

/// What `reader` yields, read into a non-empty buffer, before its first read
/// of no bytes: `None` where a read fails before that.
pub uninterp spec fn lz4_frame_remaining(reader: Lz4FrameReader<'_>) -> Option<Seq<u8>>;

/// The chunks written so far to `writer` with `write_all`, in order.
pub uninterp spec fn lz4_frame_fed(writer: Lz4FrameWriter) -> Seq<Seq<u8>>;

/// What a `lz4_flex::frame::FrameEncoder` with default settings writes, up to
/// and with `finish`, when `chunks` are written to it in order, on this
/// build's target (the encoder's hashing reads words in the target's byte
/// order and pointer width). The first non-empty chunk decides the frame's
/// block size.
pub uninterp spec fn lz4_frame_encode(chunks: Seq<Seq<u8>>) -> Seq<u8>;

/// What `lz4_flex::block::decompress_into` writes when it decompresses the
/// block `input` into an output of `capacity` bytes: `None` where it fails.
pub uninterp spec fn lz4_block_decode(input: Seq<u8>, capacity: nat) -> Option<Seq<u8>>;

/// What `lz4_flex::block::compress_into` writes for `input` on this build's
/// target (the encoder's hashing reads words in the target's byte order and
/// pointer width).
pub uninterp spec fn lz4_block_encode(input: Seq<u8>) -> Seq<u8>;

/// The worst-case size of an LZ4 block for `input_len` bytes of input, as
/// `lz4_flex::block::get_maximum_output_size` computes it.
pub open spec fn lz4_max_output_size(input_len: int) -> int {
    20 + input_len * 110 / 100
}

/// Calls `lz4_flex::block::get_maximum_output_size`, which returns
/// `16 + 4 + input_len * 110 / 100`, computed in `u64`; `requires` rules out
/// the lengths for which that computation overflows.
#[verifier::external_body]
pub(crate) fn lz4_maximum_output_size(input_len: usize) -> (r: usize)
    requires
        input_len * 110 <= u64::MAX,
        lz4_max_output_size(input_len as int) <= usize::MAX,
    ensures
        r == lz4_max_output_size(input_len as int),
{
    lz4_flex::block::get_maximum_output_size(input_len)
}

/// Calls `lz4_flex::block::decompress_into` on `input` and the part of
/// `output` from `start` on. It claims that the call succeeds exactly where the
/// named decoding does, that on success the returned count of bytes stands
/// from `start` on and is that decoding, that the bytes before `start` and the
/// length of `output` are kept. What the call leaves in the rest of the output
/// is not stated: the decoder may copy ahead of its position.
#[verifier::external_body]
pub(crate) fn lz4_block_decompress_into(input: &[u8], output: &mut Vec<u8>, start: usize) -> (r: Result<usize, DecompressError>)
    requires
        start <= old(output)@.len(),
    ensures
        final(output)@.len() == old(output)@.len(),
        final(output)@.take(start as int) == old(output)@.take(start as int),
        r is Ok <==> lz4_block_decode(input@, (old(output)@.len() - start) as nat) is Some,
        r matches Ok(n) ==> start + n <= old(output)@.len() && lz4_block_decode(
            input@,
            (old(output)@.len() - start) as nat,
        ) == Some(final(output)@.subrange(start as int, start + n)),
{
    lz4_flex::block::decompress_into(input, &mut output[start..])
}

/// Calls `lz4_flex::block::compress_into` on `input` and the part of `output`
/// from `start` on. It claims that the call succeeds where that part holds at
/// least the worst-case size (the function's documentation asks for that
/// size), that on success the returned count of bytes from `start` on is the
/// named encoding, that this encoding decompresses back to `input` into any
/// output that holds `input`, and that the bytes before `start` and the length
/// of `output` are kept.
#[verifier::external_body]
pub(crate) fn lz4_block_compress_into(input: &[u8], output: &mut Vec<u8>, start: usize) -> (r: Result<usize, CompressError>)
    requires
        start <= old(output)@.len(),
    ensures
        final(output)@.len() == old(output)@.len(),
        final(output)@.take(start as int) == old(output)@.take(start as int),
        old(output)@.len() - start >= lz4_max_output_size(input@.len() as int) ==> r is Ok,
        r matches Ok(n) ==> start + n <= old(output)@.len() && final(output)@.subrange(
            start as int,
            start + n,
        ) == lz4_block_encode(input@),
        r matches Ok(n) ==> forall|capacity: nat|
            capacity >= input@.len() ==> #[trigger] lz4_block_decode(
                final(output)@.subrange(start as int, start + n),
                capacity,
            ) == Some(input@),
{
    lz4_flex::block::compress_into(input, &mut output[start..])
}

/// Calls `lz4_flex::frame::FrameDecoder::new` on `input`; what the decoder
/// has to yield is what a decoder over `input` yields.
#[verifier::external_body]
pub(crate) fn lz4_frame_decoder<'a>(input: &'a [u8]) -> (r: Lz4FrameReader<'a>)
    ensures
        lz4_frame_remaining(r) == lz4_frame_decode(input@),
{
    Lz4FrameReader { decoder: FrameDecoder::new(input) }
}

/// Calls `read` of `std::io::Read` on an LZ4 frame decoder, into the
/// non-empty `buffer`, whose length it keeps. The decoder copies out the next
/// decompressed bytes it holds, decoding the next block where it holds none,
/// and returns no bytes at the end of a frame. So where the decoder has bytes
/// `p` to yield, the call succeeds, returns at least one of them unless `p` is
/// empty, writes them at the start of `buffer` and, where it returned some,
/// leaves the rest of `p` (after a read of no bytes a decoder may go on with a
/// next frame, which is left unsaid); where a read would fail before the end,
/// the call fails or returns bytes and still has such a read ahead.
#[verifier::external_body]
pub(crate) fn lz4_frame_read(reader: &mut Lz4FrameReader, buffer: &mut Vec<u8>) -> (r: Result<usize, std::io::Error>)
    requires
        old(buffer)@.len() > 0,
    ensures
        final(buffer)@.len() == old(buffer)@.len(),
        lz4_frame_remaining(*old(reader)) matches Some(p) ==> {
            &&& r matches Ok(n)
            &&& n <= old(buffer)@.len()
            &&& n <= p.len()
            &&& (n == 0 <==> p.len() == 0)
            &&& final(buffer)@.take(n as int) == p.take(n as int)
            &&& n > 0 ==> lz4_frame_remaining(*final(reader)) == Some(p.skip(n as int))
        },
        lz4_frame_remaining(*old(reader)) is None ==> (r is Err || (r matches Ok(n) && 0 < n
            <= old(buffer)@.len() && lz4_frame_remaining(*final(reader)) is None)),
{
    Read::read(&mut reader.decoder, &mut buffer[..])
}

/// Calls `lz4_flex::frame::FrameEncoder::new` on a new, empty `Vec`; nothing
/// has been written to it yet.
#[verifier::external_body]
pub(crate) fn lz4_frame_encoder() -> (r: Lz4FrameWriter)
    ensures
        lz4_frame_fed(r) == Seq::<Seq<u8>>::empty(),
{
    Lz4FrameWriter { encoder: FrameEncoder::new(Vec::new()) }
}

/// Calls `write_all` of `std::io::Write` on an LZ4 frame encoder. It claims
/// that the call succeeds (the encoder compresses into buffers of the
/// worst-case size and writes into a `Vec`, which does not fail) and that
/// `chunk` is added to what was written.
#[verifier::external_body]
pub(crate) fn lz4_frame_write_all(writer: &mut Lz4FrameWriter, chunk: &[u8]) -> (r: Result<(), std::io::Error>)
    ensures
        r is Ok,
        lz4_frame_fed(*final(writer)) == lz4_frame_fed(*old(writer)).push(chunk@),
{
    Write::write_all(&mut writer.encoder, chunk)
}

/// Calls `lz4_flex::frame::FrameEncoder::finish`, which ends the frame and
/// returns the `Vec` it was written into. It claims that the call succeeds
/// (with default settings no content size is checked and writing into a `Vec`
/// does not fail), that the `Vec` holds the named encoding of the chunks
/// written, and that a decoder over it yields their concatenation.
#[verifier::external_body]
pub(crate) fn lz4_frame_finish(writer: Lz4FrameWriter) -> (r: Result<Vec<u8>, lz4_flex::frame::Error>)
    ensures
        r is Ok,
        r matches Ok(v) ==> v@ == lz4_frame_encode(lz4_frame_fed(writer))
            && lz4_frame_decode(v@) == Some(lz4_frame_fed(writer).flatten()),
{
    writer.encoder.finish()
}

} // verus!
