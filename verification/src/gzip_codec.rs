//! The GZIP codec.
use vstd::prelude::*;

use crate::bindings::gzip::{gzip_decode, gzip_decode_append, gzip_encode, gzip_encode_append};
use crate::codec::{appended, Codec};
use crate::errors::{ExternalError, ParquetError};
use crate::levels::GzipLevel;

verus! {

/// Codec for GZIP compression algorithm.
pub struct GZipCodec {
    level: GzipLevel,
}

impl GZipCodec {
    /// Creates new GZIP compression codec.
    pub fn new(level: GzipLevel) -> (r: Self)
        ensures
            r.level() == level,
    {
        GZipCodec { level }
    }

    /// The compression level of this codec.
    pub closed spec fn level(&self) -> GzipLevel {
        self.level
    }
}

impl Codec for GZipCodec {
    /// Appends through the library's own streams: no room is computed here.
    open spec fn compress_fits(&self, output_len: int, input_len: int) -> bool {
        true
    }

    /// Appends through the library's own streams: no room is computed here.
    open spec fn decompress_fits(&self, output_len: int, input: Seq<u8>, size: Option<usize>) -> bool {
        true
    }

    /// Decompresses all gzip members of `input_buf`; the size hint is not used.
    fn decompress(&mut self, input_buf: &[u8], output_buf: &mut Vec<u8>, uncompress_size: Option<usize>) -> (r: Result<usize, ParquetError>)
        ensures
            r is Ok <==> gzip_decode(input_buf@) is Some,
            r matches Ok(n) ==> gzip_decode(input_buf@) == Some(appended(old(output_buf)@, final(output_buf)@))
                && n == appended(old(output_buf)@, final(output_buf)@).len(),
            r matches Err(e) ==> e matches ParquetError::External(ExternalError::Io(_)),
            final(self).level() == old(self).level(),
    {
        match gzip_decode_append(input_buf, output_buf) {
            Ok(n) => Ok(n),
            Err(e) => Err(ParquetError::External(ExternalError::Io(e))),
        }
    }

    /// Compresses into one gzip member at this codec's level, which
    /// decompresses back to `input_buf`.
    fn compress(&mut self, input_buf: &[u8], output_buf: &mut Vec<u8>) -> (r: Result<(), ParquetError>)
        ensures
            r is Ok,
            r is Ok ==> appended(old(output_buf)@, final(output_buf)@) == gzip_encode(input_buf@, old(self).level().level()),
            r is Ok ==> gzip_decode(appended(old(output_buf)@, final(output_buf)@)) == Some(input_buf@),
            r matches Err(e) ==> e matches ParquetError::External(ExternalError::Io(_)),
            final(self).level() == old(self).level(),
    {
        let level = self.level.compression_level();
        match gzip_encode_append(input_buf, output_buf, level) {
            Ok(()) => Ok(()),
            Err(e) => Err(ParquetError::External(ExternalError::Io(e))),
        }
    }
}

} // verus!
