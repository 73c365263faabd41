//! The LZ4 frame codec, which the LZ4 Hadoop codec falls back to.
use vstd::prelude::*;
use vstd::slice::slice_subrange;

use crate::bindings::lz4::{
    lz4_frame_decode, lz4_frame_decoder, lz4_frame_encode, lz4_frame_encoder, lz4_frame_fed,
    lz4_frame_finish, lz4_frame_read, lz4_frame_remaining, lz4_frame_write_all,
};
use crate::codec::{appended, keeps_prefix, Codec};
use crate::errors::{ExternalError, ParquetError};

verus! {

/// The size of the chunks in which the frame codec reads and writes.
pub const LZ4_BUFFER_SIZE: usize = 4096;

/// Codec for LZ4 compression algorithm, in the LZ4 frame format.
pub struct LZ4Codec {}

/// The chunks of `LZ4_BUFFER_SIZE` bytes in which `LZ4Codec::compress` writes
/// `input`, the last one shorter or empty: an empty input is written as one
/// empty chunk.
pub open spec fn frame_chunks(input: Seq<u8>) -> Seq<Seq<u8>>
    decreases input.len(),
{
    if input.len() <= LZ4_BUFFER_SIZE {
        seq![input]
    } else {
        seq![input.take(LZ4_BUFFER_SIZE as int)] + frame_chunks(input.skip(LZ4_BUFFER_SIZE as int))
    }
}

/// The chunks of `input` put back together are `input`.
pub proof fn lemma_frame_chunks_flatten(input: Seq<u8>)
    ensures
        frame_chunks(input).flatten() == input,
    decreases input.len(),
{
    if input.len() <= LZ4_BUFFER_SIZE {
        let one = seq![input];
        one.lemma_flatten_one_element();
        assert(one.first() == input);
    } else {
        let rest = frame_chunks(input.skip(LZ4_BUFFER_SIZE as int));
        lemma_frame_chunks_flatten(input.skip(LZ4_BUFFER_SIZE as int));
        let all = seq![input.take(LZ4_BUFFER_SIZE as int)] + rest;
        assert(all.first() == input.take(LZ4_BUFFER_SIZE as int));
        assert(all.drop_first() =~= rest);
        assert(input.take(LZ4_BUFFER_SIZE as int) + input.skip(LZ4_BUFFER_SIZE as int) =~= input);
    }
}

/// `bytes` followed by what `remaining` holds, where it holds something.
pub open spec fn followed_by(bytes: Seq<u8>, remaining: Option<Seq<u8>>) -> Option<Seq<u8>> {
    match remaining {
        Some(p) => Some(bytes + p),
        None => None,
    }
}

impl LZ4Codec {
    /// Creates new LZ4 compression codec.
    pub fn new() -> Self {
        LZ4Codec {}
    }
}

impl Codec for LZ4Codec {
    /// Computes no room of its own: the output grows as bytes are appended.
    open spec fn compress_fits(&self, output_len: int, input_len: int) -> bool {
        true
    }

    /// Computes no room of its own: the output grows as bytes are appended.
    open spec fn decompress_fits(&self, output_len: int, input: Seq<u8>, size: Option<usize>) -> bool {
        true
    }

    /// Decompresses an LZ4 frame, reading it in chunks of `LZ4_BUFFER_SIZE`
    /// bytes until a read yields none; the size hint is not used. Succeeds
    /// exactly where the frame decodes, and appends the decoding.
    fn decompress(&mut self, input_buf: &[u8], output_buf: &mut Vec<u8>, uncompress_size: Option<usize>) -> (r: Result<usize, ParquetError>)
        ensures
            r is Ok <==> lz4_frame_decode(input_buf@) is Some,
            r matches Ok(n) ==> lz4_frame_decode(input_buf@) == Some(appended(old(output_buf)@, final(output_buf)@))
                && n == appended(old(output_buf)@, final(output_buf)@).len(),
            r matches Err(e) ==> e matches ParquetError::External(ExternalError::Io(_)),
    {
        let mut decoder = lz4_frame_decoder(input_buf);
        let mut buffer: Vec<u8> = vec![0u8; LZ4_BUFFER_SIZE];
        let mut total_len: usize = 0;
        assert(output_buf@.take(output_buf@.len() as int) =~= output_buf@);
        assert(appended(old(output_buf)@, output_buf@) + Seq::<u8>::empty() =~= Seq::<u8>::empty());
        assert(followed_by(Seq::<u8>::empty(), lz4_frame_remaining(decoder)) == lz4_frame_remaining(decoder)) by {
            if let Some(p) = lz4_frame_remaining(decoder) {
                assert(Seq::<u8>::empty() + p =~= p);
            }
        }
        assert(appended(old(output_buf)@, output_buf@) =~= Seq::<u8>::empty());
        loop
            invariant_except_break
                lz4_frame_decode(input_buf@) == followed_by(
                    appended(old(output_buf)@, output_buf@),
                    lz4_frame_remaining(decoder),
                ),
            invariant
                buffer@.len() == LZ4_BUFFER_SIZE,
                keeps_prefix(old(output_buf)@, output_buf@),
                total_len == output_buf.len() - old(output_buf)@.len(),
            ensures
                keeps_prefix(old(output_buf)@, output_buf@),
                total_len == output_buf.len() - old(output_buf)@.len(),
                lz4_frame_decode(input_buf@) == Some(appended(old(output_buf)@, output_buf@)),
            decreases usize::MAX - output_buf.len(),
        {
            let ghost remaining = lz4_frame_remaining(decoder);
            let len = match lz4_frame_read(&mut decoder, &mut buffer) {
                Ok(n) => n,
                Err(e) => return Err(ParquetError::External(ExternalError::Io(e))),
            };
            if len == 0 {
                proof {
                    let p = remaining->0;
                    assert(appended(old(output_buf)@, output_buf@) + p =~= appended(old(output_buf)@, output_buf@));
                }
                break;
            }
            let ghost before = output_buf@;
            let chunk = slice_subrange(buffer.as_slice(), 0, len);
            output_buf.extend_from_slice(chunk);
            assert(output_buf@ =~= before + chunk@);
            assert(output_buf@.take(old(output_buf)@.len() as int) =~= before.take(old(output_buf)@.len() as int));
            assert(appended(old(output_buf)@, output_buf@) =~= appended(old(output_buf)@, before) + chunk@);
            proof {
                if let Some(p) = remaining {
                    assert(chunk@ =~= p.take(len as int));
                    assert(appended(old(output_buf)@, before) + p =~= appended(old(output_buf)@, before) + p.take(len as int) + p.skip(len as int));
                }
            }
            assert(total_len + len == output_buf.len() - old(output_buf)@.len());
            total_len = total_len + len;
        }
        Ok(total_len)
    }

    /// Compresses into an LZ4 frame with default settings, writing the input
    /// in chunks of `LZ4_BUFFER_SIZE` bytes; the frame decodes back to
    /// `input_buf`.
    fn compress(&mut self, input_buf: &[u8], output_buf: &mut Vec<u8>) -> (r: Result<(), ParquetError>)
        ensures
            r is Ok,
            appended(old(output_buf)@, final(output_buf)@) == lz4_frame_encode(frame_chunks(input_buf@)),
            lz4_frame_decode(appended(old(output_buf)@, final(output_buf)@)) == Some(input_buf@),
    {
        let mut writer = lz4_frame_encoder();
        let mut from: usize = 0;
        assert(input_buf@.skip(0) =~= input_buf@);
        assert(Seq::<Seq<u8>>::empty() + frame_chunks(input_buf@) =~= frame_chunks(input_buf@));
        loop
            invariant_except_break
                from <= input_buf@.len(),
                lz4_frame_fed(writer) + frame_chunks(input_buf@.skip(from as int)) == frame_chunks(input_buf@),
            ensures
                lz4_frame_fed(writer) == frame_chunks(input_buf@),
            decreases input_buf@.len() - from,
        {
            let ghost fed = lz4_frame_fed(writer);
            let ghost rest = input_buf@.skip(from as int);
            let to = if input_buf.len() - from > LZ4_BUFFER_SIZE {
                from + LZ4_BUFFER_SIZE
            } else {
                input_buf.len()
            };
            let chunk = slice_subrange(input_buf, from, to);
            if let Err(e) = lz4_frame_write_all(&mut writer, chunk) {
                return Err(ParquetError::External(ExternalError::Io(e)));
            }
            if to == input_buf.len() {
                assert(chunk@ =~= rest);
                assert(frame_chunks(rest) == seq![rest]);
                assert(fed.push(chunk@) =~= fed + seq![rest]);
                break;
            }
            assert(chunk@ =~= rest.take(LZ4_BUFFER_SIZE as int));
            assert(rest.skip(LZ4_BUFFER_SIZE as int) =~= input_buf@.skip(to as int));
            assert(fed.push(chunk@) + frame_chunks(input_buf@.skip(to as int))
                =~= fed + (seq![rest.take(LZ4_BUFFER_SIZE as int)] + frame_chunks(rest.skip(LZ4_BUFFER_SIZE as int))));
            from = to;
        }
        proof {
            lemma_frame_chunks_flatten(input_buf@);
        }
        match lz4_frame_finish(writer) {
            Ok(mut frame) => {
                let ghost encoded = frame@;
                output_buf.append(&mut frame);
                assert(output_buf@.take(old(output_buf)@.len() as int) =~= old(output_buf)@);
                assert(appended(old(output_buf)@, output_buf@) =~= encoded);
                Ok(())
            },
            Err(e) => Err(ParquetError::External(ExternalError::Lz4Frame(e))),
        }
    }
}

} // verus!
