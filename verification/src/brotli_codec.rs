//! The BROTLI codec.
use vstd::prelude::*;

use crate::bindings::brotli_stream::{brotli_decode, brotli_decode_append, brotli_encode, brotli_encode_append};
use crate::codec::{appended, Codec};
use crate::errors::{ExternalError, ParquetError};
use crate::levels::BrotliLevel;

verus! {

/// The size of the buffers of the brotli encoder and, by default, decoder.
pub const BROTLI_DEFAULT_BUFFER_SIZE: usize = 4096;

/// The base-2 logarithm of the brotli window size; recommended between 20
/// and 22.
pub const BROTLI_DEFAULT_LG_WINDOW_SIZE: u32 = 22;

/// Codec for Brotli compression algorithm.
pub struct BrotliCodec {
    level: BrotliLevel,
}

impl BrotliCodec {
    /// Creates new Brotli compression codec.
    pub fn new(level: BrotliLevel) -> (r: Self)
        ensures
            r.level() == level,
    {
        BrotliCodec { level }
    }

    /// The compression level of this codec.
    pub closed spec fn level(&self) -> BrotliLevel {
        self.level
    }
}

impl Codec for BrotliCodec {
    /// Appends through the library's own streams: no room is computed here.
    open spec fn compress_fits(&self, output_len: int, input_len: int) -> bool {
        true
    }

    /// Appends through the library's own streams: no room is computed here.
    open spec fn decompress_fits(&self, output_len: int, input: Seq<u8>, size: Option<usize>) -> bool {
        true
    }

    /// Decompresses the brotli stream `input_buf`; the size hint, where given,
    /// is the size of the decoder's buffer, 4096 bytes otherwise.
    fn decompress(&mut self, input_buf: &[u8], output_buf: &mut Vec<u8>, uncompress_size: Option<usize>) -> (r: Result<usize, ParquetError>)
        ensures
            r is Ok <==> brotli_decode(input_buf@) is Some,
            r matches Ok(n) ==> brotli_decode(input_buf@) == Some(appended(old(output_buf)@, final(output_buf)@))
                && n == appended(old(output_buf)@, final(output_buf)@).len(),
            r matches Err(e) ==> e matches ParquetError::External(ExternalError::Io(_)),
            final(self).level() == old(self).level(),
    {
        let buffer_size = match uncompress_size {
            Some(n) => n,
            None => BROTLI_DEFAULT_BUFFER_SIZE,
        };
        match brotli_decode_append(input_buf, output_buf, buffer_size) {
            Ok(n) => Ok(n),
            Err(e) => Err(ParquetError::External(ExternalError::Io(e))),
        }
    }

    /// Compresses into a brotli stream at this codec's level, with a buffer of
    /// `BROTLI_DEFAULT_BUFFER_SIZE` bytes and a window of
    /// 2^`BROTLI_DEFAULT_LG_WINDOW_SIZE` bytes; it decompresses back to
    /// `input_buf`.
    fn compress(&mut self, input_buf: &[u8], output_buf: &mut Vec<u8>) -> (r: Result<(), ParquetError>)
        ensures
            r is Ok,
            r is Ok ==> appended(old(output_buf)@, final(output_buf)@) == brotli_encode(
                input_buf@,
                old(self).level().level(),
                BROTLI_DEFAULT_BUFFER_SIZE,
                BROTLI_DEFAULT_LG_WINDOW_SIZE,
            ),
            r is Ok ==> brotli_decode(appended(old(output_buf)@, final(output_buf)@)) == Some(input_buf@),
            r matches Err(e) ==> e matches ParquetError::External(ExternalError::Io(_)),
            final(self).level() == old(self).level(),
    {
        let level = self.level.compression_level();
        match brotli_encode_append(input_buf, output_buf, BROTLI_DEFAULT_BUFFER_SIZE, level, BROTLI_DEFAULT_LG_WINDOW_SIZE) {
            Ok(()) => Ok(()),
            Err(e) => Err(ParquetError::External(ExternalError::Io(e))),
        }
    }
}

} // verus!
