//! The SNAPPY codec: raw Snappy, without framing.
use vstd::prelude::*;

use snap::raw::{Decoder, Encoder};

use crate::bindings::snappy::{
    snappy_compress_into, snappy_decode, snappy_declared_len, snappy_decompress_into,
    snappy_decompress_len, snappy_decoder, snappy_encode, snappy_encoder, snappy_max_compress_len,
    snappy_max_len,
};
use crate::codec::{appended, Codec};
use crate::errors::{ExternalError, ParquetError};

verus! {

/// Codec for Snappy compression format.
pub struct SnappyCodec {
    decoder: Decoder,
    encoder: Encoder,
}

/// How many bytes `SnappyCodec::decompress` makes room for: the size hint
/// where given, else the length that the Snappy header declares.
pub open spec fn snappy_target_len(input: Seq<u8>, size: Option<usize>) -> Option<usize> {
    match size {
        Some(n) => Some(n),
        None => snappy_declared_len(input),
    }
}

/// The bytes that `SnappyCodec::decompress` decodes, and whose count it
/// returns, for `input` and the size hint `size`: `None` where it fails.
pub open spec fn snappy_decoded(input: Seq<u8>, size: Option<usize>) -> Option<Seq<u8>> {
    match snappy_target_len(input, size) {
        None => None,
        Some(len) => match snappy_decode(input) {
            Some(d) => if d.len() <= len { Some(d) } else { None },
            None => None,
        },
    }
}

impl SnappyCodec {
    /// Creates new Snappy compression codec.
    pub fn new() -> Self {
        SnappyCodec { decoder: snappy_decoder(), encoder: snappy_encoder() }
    }
}

impl Codec for SnappyCodec {
    /// Room for the worst-case encoding.
    open spec fn compress_fits(&self, output_len: int, input_len: int) -> bool {
        output_len + snappy_max_len(input_len) <= usize::MAX
    }

    /// Room for the size hint, or without one for the length that the Snappy
    /// header of `input` declares, where it declares one.
    open spec fn decompress_fits(&self, output_len: int, input: Seq<u8>, size: Option<usize>) -> bool {
        match snappy_target_len(input, size) {
            Some(n) => output_len + n <= usize::MAX,
            None => true,
        }
    }

    /// Decompresses raw Snappy data into room for the size hint, or for the
    /// declared length where no hint is given; the room that the decoding does
    /// not fill is left zero.
    fn decompress(&mut self, input_buf: &[u8], output_buf: &mut Vec<u8>, uncompress_size: Option<usize>) -> (r: Result<usize, ParquetError>)
        ensures
            r is Ok <==> snappy_decoded(input_buf@, uncompress_size) is Some,
            r matches Ok(n) ==> {
                &&& snappy_decoded(input_buf@, uncompress_size) matches Some(d)
                &&& n == d.len()
                &&& appended(old(output_buf)@, final(output_buf)@) == d + Seq::new(
                    (snappy_target_len(input_buf@, uncompress_size)->0 - n) as nat,
                    |i: int| 0u8,
                )
            },
            r matches Err(e) ==> e matches ParquetError::External(ExternalError::Snappy(_)),
    {
        let len = match uncompress_size {
            Some(size) => size,
            None => match snappy_decompress_len(input_buf) {
                Ok(n) => n,
                Err(e) => {
                    assert(output_buf@.take(output_buf@.len() as int) =~= output_buf@);
                    return Err(ParquetError::External(ExternalError::Snappy(e)));
                },
            },
        };
        let offset = output_buf.len();
        output_buf.resize(offset + len, 0);
        assert(output_buf@.take(offset as int) =~= old(output_buf)@);
        let ghost resized = output_buf@;
        match snappy_decompress_into(&mut self.decoder, input_buf, output_buf, offset) {
            Ok(n) => {
                assert(output_buf@.skip(offset + n) =~= Seq::new((len - n) as nat, |i: int| 0u8)) by {
                    assert forall|i: int| 0 <= i < len - n implies #[trigger] output_buf@.skip(offset + n)[i] == 0u8 by {
                        assert(resized[offset + n + i] == 0u8);
                    }
                }
                assert(appended(old(output_buf)@, output_buf@) =~= output_buf@.subrange(offset as int, offset + n)
                    + output_buf@.skip(offset + n));
                Ok(n)
            },
            Err(e) => Err(ParquetError::External(ExternalError::Snappy(e))),
        }
    }

    /// Compresses into raw Snappy data, which decompresses back to
    /// `input_buf`, with or without a size hint. Fails where the worst-case
    /// size of the encoding exceeds `u32::MAX`.
    fn compress(&mut self, input_buf: &[u8], output_buf: &mut Vec<u8>) -> (r: Result<(), ParquetError>)
        ensures
            r is Ok <==> snappy_max_len(input_buf@.len() as int) != 0,
            r is Ok ==> final(output_buf)@ == old(output_buf)@ + snappy_encode(input_buf@),
            r is Ok ==> snappy_decoded(appended(old(output_buf)@, final(output_buf)@), Some(input_buf@.len() as usize)) == Some(input_buf@)
                && snappy_decoded(appended(old(output_buf)@, final(output_buf)@), None) == Some(input_buf@)
                && snappy_declared_len(appended(old(output_buf)@, final(output_buf)@)) == Some(input_buf@.len() as usize),
            r matches Err(e) ==> e matches ParquetError::External(ExternalError::Snappy(_)),
    {
        let output_buf_len = output_buf.len();
        let required_len = snappy_max_compress_len(input_buf.len());
        output_buf.resize(output_buf_len + required_len, 0);
        assert(output_buf@.take(output_buf_len as int) =~= old(output_buf)@);
        let n = match snappy_compress_into(&mut self.encoder, input_buf, output_buf, output_buf_len) {
            Ok(n) => n,
            Err(e) => return Err(ParquetError::External(ExternalError::Snappy(e))),
        };
        let ghost written = output_buf@;
        output_buf.truncate(output_buf_len + n);
        assert(output_buf@ =~= old(output_buf)@ + written.subrange(output_buf_len as int, output_buf_len + n));
        assert(appended(old(output_buf)@, output_buf@) =~= snappy_encode(input_buf@));
        assert(output_buf@.take(output_buf_len as int) =~= old(output_buf)@);
        Ok(())
    }
}

/// Any valid Snappy stream decodes, whatever encoder wrote it: with a size
/// hint that holds its decoding, and without a hint where its header declares
/// the decoding's length, as a Snappy header does.
pub proof fn lemma_any_stream_decodes(input: Seq<u8>, d: Seq<u8>)
    requires
        snappy_decode(input) == Some(d),
    ensures
        forall|n: usize| n >= d.len() ==> #[trigger] snappy_decoded(input, Some(n)) == Some(d),
        snappy_declared_len(input) matches Some(m) ==> (m == d.len() ==> snappy_decoded(input, None) == Some(d)),
{
}

} // verus!
