//! The LZ4 codec of Parquet (LZ4_HADOOP): LZ4 blocks, each behind a header of
//! two big-endian sizes.
use vstd::prelude::*;
use vstd::slice::slice_subrange;

use crate::bindings::lz4::{lz4_frame_decode, lz4_block_decode, lz4_block_decompress_into, lz4_block_encode, lz4_max_output_size};
use crate::bytes::{be_u32, lemma_be_u32_roundtrip, read_be_u32, u32_be_bytes, write_be_u32};
use crate::codec::{appended, Codec};
use crate::errors::{is_general_error, ExternalError, HadoopFault, HadoopFrameError, ParquetError};
use crate::lz4_codec::LZ4Codec;
use crate::lz4_raw_codec::{lz4_raw_decoded, LZ4RawCodec};

verus! {

/// Size of u32 type.
pub const SIZE_U32: usize = 4;

/// Length of the LZ4_HADOOP prefix.
pub const PREFIX_LEN: usize = 8;

/// Codec for LZ4 Hadoop compression algorithm.
pub struct LZ4HadoopCodec {
    /// Whether or not to fallback to other LZ4 implementations on error.
    /// Fallback is done to be backward compatible with older versions of this
    /// library and older versions parquet-cpp.
    backward_compatible_lz4: bool,
}

/// The decompressed bytes of a sequence of Hadoop LZ4 frames `input`, decoded
/// into an output of `capacity` bytes, or why it fails. Each frame is the
/// big-endian decompressed size, the big-endian compressed size and the
/// compressed LZ4 block. A next frame is read only where the bytes that remain
/// after a frame outnumber that frame's compressed bytes.
pub open spec fn hadoop_frames(input: Seq<u8>, capacity: nat) -> Result<Seq<u8>, HadoopFault>
    decreases input.len(),
{
    if input.len() < PREFIX_LEN {
        if input.len() == 0 {
            Ok(Seq::empty())
        } else {
            Err(HadoopFault::UnconsumedInput)
        }
    } else {
        let decompressed_size = be_u32(input.subrange(0, 4));
        let compressed_size = be_u32(input.subrange(4, 8));
        let body = input.skip(8);
        if body.len() < compressed_size {
            Err(HadoopFault::NotEnoughInput)
        } else if capacity < decompressed_size {
            Err(HadoopFault::NotEnoughOutput)
        } else {
            match lz4_block_decode(body.take(compressed_size), capacity) {
                None => Err(HadoopFault::Decompress),
                Some(block) => if block.len() != decompressed_size {
                    Err(HadoopFault::UnexpectedDecompressedSize)
                } else {
                    let remaining = body.len() - compressed_size;
                    if remaining > compressed_size {
                        match hadoop_frames(body.skip(compressed_size), (capacity - decompressed_size) as nat) {
                            Ok(rest) => Ok(block + rest),
                            Err(f) => Err(f),
                        }
                    } else if remaining == 0 {
                        Ok(block)
                    } else {
                        Err(HadoopFault::UnconsumedInput)
                    }
                },
            }
        }
    }
}

/// `outcome` prefixed with the bytes `done` where it is a success.
pub open spec fn after_prefix(done: Seq<u8>, outcome: Result<Seq<u8>, HadoopFault>) -> Result<Seq<u8>, HadoopFault> {
    match outcome {
        Ok(rest) => Ok(done + rest),
        Err(f) => Err(f),
    }
}

/// Whether `r`, the result of decoding frames into `output` from `start` on,
/// agrees with the specified outcome `spec`.
pub open spec fn hadoop_result_matches(
    r: Result<usize, HadoopFrameError>,
    spec: Result<Seq<u8>, HadoopFault>,
    output: Seq<u8>,
    start: int,
) -> bool {
    match spec {
        Ok(d) => r == Ok::<usize, HadoopFrameError>(d.len() as usize) && start + d.len() <= output.len()
            && output.subrange(start, start + d.len()) == d,
        Err(f) => r matches Err(e) && e.fault() == f,
    }
}

/// Try to decompress the buffer as if it was compressed with the Hadoop
/// Lz4Codec, writing into `output_buf` from `out_start` on. Returns the number
/// of bytes written.
fn try_decompress_hadoop(input_buf: &[u8], output_buf: &mut Vec<u8>, out_start: usize) -> (r: Result<usize, HadoopFrameError>)
    requires
        out_start <= old(output_buf)@.len(),
    ensures
        final(output_buf)@.len() == old(output_buf)@.len(),
        final(output_buf)@.take(out_start as int) == old(output_buf)@.take(out_start as int),
        hadoop_result_matches(
            r,
            hadoop_frames(input_buf@, (old(output_buf)@.len() - out_start) as nat),
            final(output_buf)@,
            out_start as int,
        ),
{
    let ghost whole = hadoop_frames(input_buf@, (old(output_buf)@.len() - out_start) as nat);
    let mut in_pos: usize = 0;
    let mut out_pos: usize = out_start;
    assert(input_buf@.skip(0) =~= input_buf@);
    assert(output_buf@.subrange(out_start as int, out_start as int) =~= Seq::<u8>::empty());
    assert(after_prefix(Seq::<u8>::empty(), whole) =~= whole) by {
        if let Ok(d) = whole {
            assert(Seq::<u8>::empty() + d =~= d);
        }
    }
    while input_buf.len() - in_pos >= PREFIX_LEN
        invariant
            in_pos <= input_buf@.len(),
            out_start <= out_pos <= output_buf@.len(),
            output_buf@.len() == old(output_buf)@.len(),
            output_buf@.take(out_start as int) == old(output_buf)@.take(out_start as int),
            whole == hadoop_frames(input_buf@, (old(output_buf)@.len() - out_start) as nat),
            whole == after_prefix(
                output_buf@.subrange(out_start as int, out_pos as int),
                hadoop_frames(input_buf@.skip(in_pos as int), (output_buf@.len() - out_pos) as nat),
            ),
        decreases input_buf@.len() - in_pos,
    {
        let ghost rest = input_buf@.skip(in_pos as int);
        let ghost done = output_buf@.subrange(out_start as int, out_pos as int);
        let ghost cap = (output_buf@.len() - out_pos) as nat;
        assert(rest.subrange(0, 4) =~= input_buf@.subrange(in_pos as int, in_pos + 4));
        assert(rest.subrange(4, 8) =~= input_buf@.subrange(in_pos + 4, in_pos + 8));
        let expected_decompressed_size = read_be_u32(input_buf, in_pos);
        let expected_compressed_size = read_be_u32(input_buf, in_pos + 4);
        let body_start = in_pos + PREFIX_LEN;
        let input_len = input_buf.len() - body_start;
        assert(rest.skip(8) =~= input_buf@.skip(body_start as int));
        if input_len < expected_compressed_size as usize {
            return Err(HadoopFrameError::NotEnoughInput);
        }
        let output_len = output_buf.len() - out_pos;
        if output_len < expected_decompressed_size as usize {
            return Err(HadoopFrameError::NotEnoughOutput);
        }
        let body_end = body_start + expected_compressed_size as usize;
        let frame = slice_subrange(input_buf, body_start, body_end);
        assert(frame@ =~= rest.skip(8).take(expected_compressed_size as int));
        let ghost before = output_buf@;
        let decompressed_size = match lz4_block_decompress_into(frame, output_buf, out_pos) {
            Ok(n) => n,
            Err(e) => {
                assert(output_buf@.take(out_start as int) =~= before.take(out_pos as int).take(out_start as int));
                return Err(HadoopFrameError::Decompress(e));
            },
        };
        assert(output_buf@.take(out_start as int) =~= before.take(out_pos as int).take(out_start as int));
        assert(output_buf@.subrange(out_start as int, out_pos as int) =~= before.take(out_pos as int).subrange(out_start as int, out_pos as int));
        if decompressed_size != expected_decompressed_size as usize {
            return Err(HadoopFrameError::UnexpectedDecompressedSize);
        }
        let ghost block = output_buf@.subrange(out_pos as int, out_pos + decompressed_size);
        let remaining = input_len - expected_compressed_size as usize;
        let next_out = out_pos + expected_decompressed_size as usize;
        assert(output_buf@.subrange(out_start as int, next_out as int) =~= done + block);
        if remaining > expected_compressed_size as usize {
            assert(rest.skip(8).skip(expected_compressed_size as int) =~= input_buf@.skip(body_end as int));
            assert(after_prefix(done, after_prefix(block, hadoop_frames(input_buf@.skip(body_end as int), (cap - decompressed_size) as nat)))
                =~= after_prefix(done + block, hadoop_frames(input_buf@.skip(body_end as int), (cap - decompressed_size) as nat))) by {
                if let Ok(t) = hadoop_frames(input_buf@.skip(body_end as int), (cap - decompressed_size) as nat) {
                    assert(done + (block + t) =~= (done + block) + t);
                }
            }
            in_pos = body_end;
            out_pos = next_out;
        } else if remaining == 0 {
            return Ok(next_out - out_start);
        } else {
            return Err(HadoopFrameError::UnconsumedInput);
        }
    }
    if input_buf.len() - in_pos == 0 {
        assert(output_buf@.subrange(out_start as int, out_pos as int) + Seq::<u8>::empty()
            =~= output_buf@.subrange(out_start as int, out_pos as int));
        Ok(out_pos - out_start)
    } else {
        Err(HadoopFrameError::UnconsumedInput)
    }
}

/// The bytes that `LZ4HadoopCodec::decompress` appends, and whose count it
/// returns, for `input` and the size hint `size`: the Hadoop frames where they
/// fill exactly the hint; where they cannot be read and the codec is
/// `backward_compatible`, the LZ4 frame that `input` holds, else its LZ4 raw
/// block; `None` where it fails.
pub open spec fn lz4_hadoop_decoded(input: Seq<u8>, size: Option<usize>, backward_compatible: bool) -> Option<Seq<u8>> {
    match size {
        None => None,
        Some(n) => match hadoop_frames(input, n as nat) {
            Ok(d) => if d.len() == n { Some(d) } else { None },
            Err(_) => if backward_compatible {
                match lz4_frame_decode(input) {
                    Some(d) => Some(d),
                    None => lz4_raw_decoded(input, size),
                }
            } else {
                None
            },
        },
    }
}

/// The bytes that `LZ4HadoopCodec::compress` appends for `input`: one frame
/// whose sizes are taken modulo 2^32, as the codec writes them.
pub open spec fn lz4_hadoop_encoded(input: Seq<u8>) -> Seq<u8> {
    u32_be_bytes(input.len() as u32) + u32_be_bytes(lz4_block_encode(input).len() as u32) + lz4_block_encode(input)
}

impl LZ4HadoopCodec {
    /// Creates new LZ4 Hadoop compression codec.
    pub fn new(backward_compatible_lz4: bool) -> (r: Self)
        ensures
            r.backward_compatible() == backward_compatible_lz4,
    {
        LZ4HadoopCodec { backward_compatible_lz4 }
    }

    /// Whether this codec falls back to the LZ4 frame and LZ4 raw formats
    /// where the input is not a sequence of Hadoop frames.
    pub closed spec fn backward_compatible(&self) -> bool {
        self.backward_compatible_lz4
    }
}

impl Codec for LZ4HadoopCodec {
    /// Room for the frame header and the worst-case LZ4 block, whose
    /// computation must not overflow.
    open spec fn compress_fits(&self, output_len: int, input_len: int) -> bool {
        &&& input_len * 110 <= u64::MAX
        &&& output_len + PREFIX_LEN + lz4_max_output_size(input_len) <= usize::MAX
    }

    /// Room for the size hint, where one is given.
    open spec fn decompress_fits(&self, output_len: int, input: Seq<u8>, size: Option<usize>) -> bool {
        match size {
            Some(n) => output_len + n <= usize::MAX,
            None => true,
        }
    }

    /// Decompresses a sequence of Hadoop frames into exactly the expected
    /// size, which is required. Where the frames cannot be read, the codec
    /// either fails or, if it is backward compatible, tries the LZ4 frame
    /// format and then the LZ4 raw format on the same input.
    fn decompress(&mut self, input_buf: &[u8], output_buf: &mut Vec<u8>, uncompress_size: Option<usize>) -> (r: Result<usize, ParquetError>)
        ensures
            uncompress_size is None ==> (r matches Err(e) && is_general_error(e, "LZ4HadoopCodec unsupported without uncompress_size"@))
                && final(output_buf)@ == old(output_buf)@,
            uncompress_size matches Some(n) ==> match hadoop_frames(input_buf@, n as nat) {
                Ok(d) => if d.len() == n {
                    r == Ok::<usize, ParquetError>(n) && final(output_buf)@ == old(output_buf)@ + d
                } else {
                    r matches Err(e) && is_general_error(e, "LZ4HadoopCodec uncompress_size is not the expected one"@)
                },
                Err(f) => if old(self).backward_compatible() {
                    match lz4_frame_decode(input_buf@) {
                        Some(d) => r == Ok::<usize, ParquetError>(d.len() as usize) && final(output_buf)@ == old(output_buf)@ + d,
                        None => match lz4_block_decode(input_buf@, n as nat) {
                            None => r matches Err(ParquetError::External(ExternalError::Lz4Decompress(_))),
                            Some(d) => if d.len() == n {
                                r == Ok::<usize, ParquetError>(n) && final(output_buf)@ == old(output_buf)@ + d
                            } else {
                                r matches Err(e) && is_general_error(e, "LZ4RawCodec uncompress_size is not the expected one"@)
                            },
                        },
                    }
                } else {
                    r matches Err(ParquetError::External(ExternalError::Hadoop(e))) && e.fault() == f
                },
            },
            r is Ok <==> lz4_hadoop_decoded(input_buf@, uncompress_size, old(self).backward_compatible()) is Some,
            r matches Ok(m) ==> lz4_hadoop_decoded(input_buf@, uncompress_size, old(self).backward_compatible())
                == Some(appended(old(output_buf)@, final(output_buf)@))
                && m == appended(old(output_buf)@, final(output_buf)@).len(),
            final(self).backward_compatible() == old(self).backward_compatible(),
    {
        let output_len = output_buf.len();
        let required_len = match uncompress_size {
            Some(n) => n,
            None => {
                assert(output_buf@.take(output_len as int) =~= output_buf@);
                return Err(ParquetError::General("LZ4HadoopCodec unsupported without uncompress_size".to_owned()));
            },
        };
        output_buf.resize(output_len + required_len, 0);
        assert(output_buf@.take(output_len as int) =~= old(output_buf)@);
        match try_decompress_hadoop(input_buf, output_buf, output_len) {
            Ok(n) => {
                if n != required_len {
                    return Err(ParquetError::General("LZ4HadoopCodec uncompress_size is not the expected one".to_owned()));
                }
                assert(output_buf@ =~= old(output_buf)@ + output_buf@.subrange(output_len as int, output_len + n));
                Ok(n)
            },
            Err(e) => {
                if !self.backward_compatible_lz4 {
                    return Err(ParquetError::External(ExternalError::Hadoop(e)));
                }
                // Fallback done to be backward compatible with older versions of this
                // library and older versions of parquet-cpp.
                output_buf.truncate(output_len);
                assert(output_buf@ =~= old(output_buf)@);
                match LZ4Codec::new().decompress(input_buf, output_buf, uncompress_size) {
                    Ok(n) => {
                        assert(output_buf@ =~= old(output_buf)@ + appended(old(output_buf)@, output_buf@));
                        Ok(n)
                    },
                    Err(_) => {
                        output_buf.truncate(output_len);
                        assert(output_buf@ =~= old(output_buf)@);
                        let r = LZ4RawCodec::new().decompress(input_buf, output_buf, uncompress_size);
                        assert(output_buf@ =~= old(output_buf)@ + appended(old(output_buf)@, output_buf@));
                        r
                    },
                }
            },
        }
    }

    /// Compresses into one Hadoop frame: the input's length and the LZ4
    /// block's length, both big-endian and taken modulo 2^32, then the block.
    /// Where both lengths fit in 32 bits, the frame decompresses back to the
    /// input.
    fn compress(&mut self, input_buf: &[u8], output_buf: &mut Vec<u8>) -> (r: Result<(), ParquetError>)
        ensures
            r is Ok,
            final(output_buf)@ == old(output_buf)@ + lz4_hadoop_encoded(input_buf@),
            lz4_max_output_size(input_buf@.len() as int) <= u32::MAX ==> forall|backward_compatible: bool|
                #[trigger] lz4_hadoop_decoded(
                    appended(old(output_buf)@, final(output_buf)@),
                    Some(input_buf@.len() as usize),
                    backward_compatible,
                ) == Some(input_buf@),
            final(self).backward_compatible() == old(self).backward_compatible(),
    {
        // Allocate memory to store the LZ4_HADOOP prefix.
        let offset = output_buf.len();
        output_buf.resize(offset + PREFIX_LEN, 0);
        // Append LZ4_RAW compressed bytes after prefix.
        LZ4RawCodec::new().compress_block(input_buf, output_buf)?;
        let ghost block = lz4_block_encode(input_buf@);
        // Prepend decompressed size and compressed size in big endian to be
        // compatible with LZ4_HADOOP.
        let compressed_size = (output_buf.len() - offset - PREFIX_LEN) as u32;
        let uncompressed_size = input_buf.len() as u32;
        write_be_u32(output_buf, offset, uncompressed_size);
        write_be_u32(output_buf, offset + SIZE_U32, compressed_size);
        assert(output_buf@ =~= old(output_buf)@ + lz4_hadoop_encoded(input_buf@));
        assert(output_buf@.take(offset as int) =~= old(output_buf)@);
        proof {
            let frame = appended(old(output_buf)@, output_buf@);
            assert(frame =~= lz4_hadoop_encoded(input_buf@));
            if lz4_max_output_size(input_buf@.len() as int) <= u32::MAX {
                lemma_single_frame(input_buf@);
                assert forall|backward_compatible: bool| #[trigger] lz4_hadoop_decoded(
                    frame,
                    Some(input_buf@.len() as usize),
                    backward_compatible,
                ) == Some(input_buf@) by {}
            }
        }
        Ok(())
    }
}

/// One Hadoop frame as `compress` writes it, for an input whose LZ4 block
/// fits the sizes in 32 bits, reads back as that input.
pub proof fn lemma_single_frame(input: Seq<u8>)
    requires
        lz4_max_output_size(input.len() as int) <= u32::MAX,
        lz4_block_encode(input).len() <= lz4_max_output_size(input.len() as int),
        forall|capacity: nat| capacity >= input.len() ==> #[trigger] lz4_block_decode(
            lz4_block_encode(input),
            capacity,
        ) == Some(input),
    ensures
        hadoop_frames(lz4_hadoop_encoded(input), input.len()) == Ok::<Seq<u8>, HadoopFault>(input),
{
    let block = lz4_block_encode(input);
    let frame = lz4_hadoop_encoded(input);
    lemma_be_u32_roundtrip(input.len() as u32);
    lemma_be_u32_roundtrip(block.len() as u32);
    assert(frame.subrange(0, 4) =~= u32_be_bytes(input.len() as u32));
    assert(frame.subrange(4, 8) =~= u32_be_bytes(block.len() as u32));
    assert(frame.skip(8) =~= block);
    assert(block.take(block.len() as int) =~= block);
    assert(lz4_block_decode(block, input.len()) == Some(input));
}

/// Frames compose: a frame whose block decodes to its announced size, followed
/// by more bytes than its block holds, reads as its data followed by what
/// those bytes read as, in the room that its data leaves.
pub proof fn lemma_frame_then_rest(data: Seq<u8>, block: Seq<u8>, rest: Seq<u8>, capacity: nat)
    requires
        data.len() <= u32::MAX,
        block.len() <= u32::MAX,
        data.len() <= capacity,
        lz4_block_decode(block, capacity) == Some(data),
        rest.len() > block.len(),
    ensures
        hadoop_frames(
            u32_be_bytes(data.len() as u32) + u32_be_bytes(block.len() as u32) + block + rest,
            capacity,
        ) == after_prefix(data, hadoop_frames(rest, (capacity - data.len()) as nat)),
{
    let input = u32_be_bytes(data.len() as u32) + u32_be_bytes(block.len() as u32) + block + rest;
    lemma_be_u32_roundtrip(data.len() as u32);
    lemma_be_u32_roundtrip(block.len() as u32);
    assert(input.subrange(0, 4) =~= u32_be_bytes(data.len() as u32));
    assert(input.subrange(4, 8) =~= u32_be_bytes(block.len() as u32));
    assert(input.skip(8) =~= block + rest);
    assert((block + rest).take(block.len() as int) =~= block);
    assert((block + rest).skip(block.len() as int) =~= rest);
}

/// The frame that `compress` writes starts with the input's length, then the
/// block's length, each as four big-endian bytes, most significant first;
/// the LZ4 block follows.
pub proof fn lemma_encoded_header(input: Seq<u8>)
    requires
        input.len() <= u32::MAX,
        lz4_block_encode(input).len() <= u32::MAX,
    ensures
        ({
            let frame = lz4_hadoop_encoded(input);
            let n = input.len() as int;
            let k = lz4_block_encode(input).len() as int;
            &&& frame.len() == 8 + k
            &&& frame[0] as int == n / 0x100_0000
            &&& frame[1] as int == (n / 0x1_0000) % 0x100
            &&& frame[2] as int == (n / 0x100) % 0x100
            &&& frame[3] as int == n % 0x100
            &&& frame[4] as int == k / 0x100_0000
            &&& frame[5] as int == (k / 0x1_0000) % 0x100
            &&& frame[6] as int == (k / 0x100) % 0x100
            &&& frame[7] as int == k % 0x100
            &&& frame.skip(8) == lz4_block_encode(input)
        }),
{
    let frame = lz4_hadoop_encoded(input);
    crate::bytes::lemma_be_bytes_order(input.len() as u32);
    crate::bytes::lemma_be_bytes_order(lz4_block_encode(input).len() as u32);
    assert(frame.skip(8) =~= lz4_block_encode(input));
}

/// A single Hadoop frame reads as its data whatever LZ4 encoder wrote its
/// block: where the block decodes to `data` in room for `data`, the frame of
/// big-endian sizes and that block decodes to `data`, with or without
/// backward compatibility.
pub proof fn lemma_any_block_frame(data: Seq<u8>, block: Seq<u8>)
    requires
        data.len() <= u32::MAX,
        block.len() <= u32::MAX,
        lz4_block_decode(block, data.len()) == Some(data),
    ensures
        hadoop_frames(u32_be_bytes(data.len() as u32) + u32_be_bytes(block.len() as u32) + block, data.len())
            == Ok::<Seq<u8>, HadoopFault>(data),
        forall|backward_compatible: bool| #[trigger] lz4_hadoop_decoded(
            u32_be_bytes(data.len() as u32) + u32_be_bytes(block.len() as u32) + block,
            Some(data.len() as usize),
            backward_compatible,
        ) == Some(data),
{
    let frame = u32_be_bytes(data.len() as u32) + u32_be_bytes(block.len() as u32) + block;
    lemma_be_u32_roundtrip(data.len() as u32);
    lemma_be_u32_roundtrip(block.len() as u32);
    assert(frame.subrange(0, 4) =~= u32_be_bytes(data.len() as u32));
    assert(frame.subrange(4, 8) =~= u32_be_bytes(block.len() as u32));
    assert(frame.skip(8) =~= block);
    assert(block.take(block.len() as int) =~= block);
}

/// Without backward compatibility, input that does not read as Hadoop frames
/// is refused; with it, the LZ4 frame that the input holds is read instead,
/// and failing that its LZ4 raw block, where that fills the size hint.
pub proof fn lemma_fallback_follows_setting(input: Seq<u8>, n: usize)
    requires
        hadoop_frames(input, n as nat) is Err,
    ensures
        lz4_hadoop_decoded(input, Some(n), false) is None,
        lz4_frame_decode(input) matches Some(d) ==> lz4_hadoop_decoded(input, Some(n), true) == Some(d),
        lz4_frame_decode(input) is None ==> (lz4_block_decode(input, n as nat) matches Some(d) ==> (d.len() == n
            ==> lz4_hadoop_decoded(input, Some(n), true) == Some(d))),
        lz4_frame_decode(input) is None && lz4_block_decode(input, n as nat) is None
            ==> lz4_hadoop_decoded(input, Some(n), true) is None,
{
}

/// How a frame with big-endian sizes `n` (decompressed) and `k` (compressed)
/// fails: with fewer than `k` bytes after its header, as too short for its
/// block; with room for fewer than `n` bytes, as too small an output; and
/// where its block decodes in full but at most `k` bytes follow it, as input
/// left unread.
pub proof fn lemma_frame_faults(n: u32, k: u32, body: Seq<u8>, capacity: nat)
    ensures
        body.len() < k ==> hadoop_frames(u32_be_bytes(n) + u32_be_bytes(k) + body, capacity)
            == Err::<Seq<u8>, HadoopFault>(HadoopFault::NotEnoughInput),
        body.len() >= k && capacity < n ==> hadoop_frames(u32_be_bytes(n) + u32_be_bytes(k) + body, capacity)
            == Err::<Seq<u8>, HadoopFault>(HadoopFault::NotEnoughOutput),
        body.len() > k && body.len() - k <= k && capacity >= n ==> (lz4_block_decode(body.take(k as int), capacity) matches Some(d)
            ==> (d.len() == n ==> hadoop_frames(u32_be_bytes(n) + u32_be_bytes(k) + body, capacity)
            == Err::<Seq<u8>, HadoopFault>(HadoopFault::UnconsumedInput))),
{
    let frame = u32_be_bytes(n) + u32_be_bytes(k) + body;
    lemma_be_u32_roundtrip(n);
    lemma_be_u32_roundtrip(k);
    assert(frame.subrange(0, 4) =~= u32_be_bytes(n));
    assert(frame.subrange(4, 8) =~= u32_be_bytes(k));
    assert(frame.skip(8) =~= body);
}

} // verus!
