//! The LZ4_RAW codec: one LZ4 block, without framing.
use vstd::prelude::*;

use crate::bindings::lz4::{
    lz4_block_compress_into, lz4_block_decode, lz4_block_decompress_into, lz4_block_encode,
    lz4_max_output_size, lz4_maximum_output_size,
};
use crate::codec::{appended, Codec};
use crate::errors::{is_general_error, ExternalError, ParquetError};

verus! {

/// Codec for LZ4 Raw compression algorithm.
pub struct LZ4RawCodec {}

/// The bytes that `LZ4RawCodec::decompress` appends, and whose count it
/// returns, for `input` and the size hint `size`: `None` where it fails.
pub open spec fn lz4_raw_decoded(input: Seq<u8>, size: Option<usize>) -> Option<Seq<u8>> {
    match size {
        None => None,
        Some(n) => match lz4_block_decode(input, n as nat) {
            Some(d) => if d.len() == n { Some(d) } else { None },
            None => None,
        },
    }
}

impl LZ4RawCodec {
    /// Creates new LZ4 Raw compression codec.
    pub fn new() -> Self {
        LZ4RawCodec {}
    }

    /// Appends the LZ4 block of `input_buf` to `output_buf`; this is what
    /// `compress` does, for any output that can grow by the block's worst-case
    /// size.
    pub(crate) fn compress_block(&mut self, input_buf: &[u8], output_buf: &mut Vec<u8>) -> (r: Result<(), ParquetError>)
        requires
            input_buf@.len() * 110 <= u64::MAX,
            old(output_buf)@.len() + lz4_max_output_size(input_buf@.len() as int) <= usize::MAX,
        ensures
            r is Ok,
            final(output_buf)@ == old(output_buf)@ + lz4_block_encode(input_buf@),
            lz4_block_encode(input_buf@).len() <= lz4_max_output_size(input_buf@.len() as int),
            forall|capacity: nat| capacity >= input_buf@.len() ==> #[trigger] lz4_block_decode(
                lz4_block_encode(input_buf@),
                capacity,
            ) == Some(input_buf@),
    {
        let offset = output_buf.len();
        let required_len = lz4_maximum_output_size(input_buf.len());
        output_buf.resize(offset + required_len, 0);
        assert(output_buf@.take(offset as int) =~= old(output_buf)@);
        match lz4_block_compress_into(input_buf, output_buf, offset) {
            Ok(n) => {
                let ghost written = output_buf@;
                output_buf.truncate(offset + n);
                assert(output_buf@ =~= written.take(offset as int) + written.subrange(offset as int, offset + n));
                assert(output_buf@.take(offset as int) =~= old(output_buf)@);
                assert(appended(old(output_buf)@, output_buf@) =~= lz4_block_encode(input_buf@));
                Ok(())
            },
            Err(e) => Err(ParquetError::External(ExternalError::Lz4Compress(e))),
        }
    }
}

impl Codec for LZ4RawCodec {
    /// Room for the worst-case LZ4 block, whose computation must not overflow.
    open spec fn compress_fits(&self, output_len: int, input_len: int) -> bool {
        &&& input_len * 110 <= u64::MAX
        &&& output_len + lz4_max_output_size(input_len) <= usize::MAX
    }

    /// Room for the size hint, where one is given.
    open spec fn decompress_fits(&self, output_len: int, input: Seq<u8>, size: Option<usize>) -> bool {
        match size {
            Some(n) => output_len + n <= usize::MAX,
            None => true,
        }
    }

    /// Decompresses one LZ4 block. The expected size is required and must be
    /// met exactly.
    fn decompress(&mut self, input_buf: &[u8], output_buf: &mut Vec<u8>, uncompress_size: Option<usize>) -> (r: Result<usize, ParquetError>)
        ensures
            uncompress_size is None ==> (r matches Err(e) && is_general_error(e, "LZ4RawCodec unsupported without uncompress_size"@))
                && final(output_buf)@ == old(output_buf)@,
            uncompress_size matches Some(n) ==> match lz4_block_decode(input_buf@, n as nat) {
                None => r matches Err(ParquetError::External(ExternalError::Lz4Decompress(_))),
                Some(d) => if d.len() == n {
                    r == Ok::<usize, ParquetError>(n) && final(output_buf)@ == old(output_buf)@ + d
                } else {
                    r matches Err(e) && is_general_error(e, "LZ4RawCodec uncompress_size is not the expected one"@)
                },
            },
            r matches Ok(n) ==> lz4_raw_decoded(input_buf@, uncompress_size) == Some(appended(old(output_buf)@, final(output_buf)@))
                && n == appended(old(output_buf)@, final(output_buf)@).len(),
            lz4_raw_decoded(input_buf@, uncompress_size) is Some ==> r is Ok,
    {
        let offset = output_buf.len();
        let required_len = match uncompress_size {
            Some(n) => n,
            None => {
                assert(output_buf@.take(offset as int) =~= output_buf@);
                return Err(ParquetError::General("LZ4RawCodec unsupported without uncompress_size".to_owned()));
            },
        };
        assert(old(self).decompress_fits(offset as int, input_buf@, uncompress_size));
        output_buf.resize(offset + required_len, 0);
        assert(output_buf@.take(offset as int) =~= old(output_buf)@);
        match lz4_block_decompress_into(input_buf, output_buf, offset) {
            Ok(n) => {
                if n != required_len {
                    return Err(ParquetError::General("LZ4RawCodec uncompress_size is not the expected one".to_owned()));
                }
                assert(output_buf@ =~= old(output_buf)@ + output_buf@.subrange(offset as int, offset + n));
                Ok(n)
            },
            Err(e) => Err(ParquetError::External(ExternalError::Lz4Decompress(e))),
        }
    }

    /// Compresses into one LZ4 block, which decompresses back to `input_buf`.
    fn compress(&mut self, input_buf: &[u8], output_buf: &mut Vec<u8>) -> (r: Result<(), ParquetError>)
        ensures
            r is Ok,
            final(output_buf)@ == old(output_buf)@ + lz4_block_encode(input_buf@),
            lz4_raw_decoded(appended(old(output_buf)@, final(output_buf)@), Some(input_buf@.len() as usize)) == Some(input_buf@),
    {
        let r = self.compress_block(input_buf, output_buf);
        assert(output_buf@.take(old(output_buf)@.len() as int) =~= old(output_buf)@);
        assert(appended(old(output_buf)@, output_buf@) =~= lz4_block_encode(input_buf@));
        assert(lz4_block_decode(lz4_block_encode(input_buf@), input_buf@.len()) == Some(input_buf@));
        r
    }
}

/// Any LZ4 block decodes, whatever encoder wrote it: where it decodes to
/// exactly the size hint, `decompress` gives that decoding.
pub proof fn lemma_any_block_decodes(input: Seq<u8>, n: usize, d: Seq<u8>)
    requires
        lz4_block_decode(input, n as nat) == Some(d),
        d.len() == n,
    ensures
        lz4_raw_decoded(input, Some(n)) == Some(d),
{
}

} // verus!
