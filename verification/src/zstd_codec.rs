//! The ZSTD codec.
use vstd::prelude::*;

use crate::bindings::zstd_stream::{zstd_decode, zstd_decode_append, zstd_encode, zstd_encode_append};
use crate::codec::{appended, Codec};
use crate::errors::{ExternalError, ParquetError};
use crate::levels::ZstdLevel;

verus! {

/// Codec for Zstandard compression algorithm.
pub struct ZSTDCodec {
    level: ZstdLevel,
}

impl ZSTDCodec {
    /// Creates new Zstandard compression codec.
    pub fn new(level: ZstdLevel) -> (r: Self)
        ensures
            r.level() == level,
    {
        ZSTDCodec { level }
    }

    /// The compression level of this codec.
    pub closed spec fn level(&self) -> ZstdLevel {
        self.level
    }
}

impl Codec for ZSTDCodec {
    /// Appends through the library's own streams: no room is computed here.
    open spec fn compress_fits(&self, output_len: int, input_len: int) -> bool {
        true
    }

    /// Appends through the library's own streams: no room is computed here.
    open spec fn decompress_fits(&self, output_len: int, input: Seq<u8>, size: Option<usize>) -> bool {
        true
    }

    /// Decompresses the Zstandard data `input_buf`; the size hint is not used.
    fn decompress(&mut self, input_buf: &[u8], output_buf: &mut Vec<u8>, uncompress_size: Option<usize>) -> (r: Result<usize, ParquetError>)
        ensures
            r matches Ok(n) ==> zstd_decode(input_buf@) == Some(appended(old(output_buf)@, final(output_buf)@))
                && n == appended(old(output_buf)@, final(output_buf)@).len(),
            r is Ok <==> zstd_decode(input_buf@) is Some,
            r matches Err(e) ==> e matches ParquetError::External(ExternalError::Io(_)),
            final(self).level() == old(self).level(),
    {
        let offset = output_buf.len();
        match zstd_decode_append(input_buf, output_buf) {
            Ok(()) => Ok(output_buf.len() - offset),
            Err(e) => Err(ParquetError::External(ExternalError::Io(e))),
        }
    }

    /// Compresses into Zstandard data at this codec's level, announcing the
    /// input's length to the encoder, so that the frame records it and the
    /// encoder sizes its tables for it rather than for a stream of unknown
    /// length; the data decompresses back to `input_buf`.
    fn compress(&mut self, input_buf: &[u8], output_buf: &mut Vec<u8>) -> (r: Result<(), ParquetError>)
        ensures
            r is Ok,
            r is Ok ==> appended(old(output_buf)@, final(output_buf)@) == zstd_encode(input_buf@, old(self).level().level(), input_buf@.len() as u64),
            r is Ok ==> zstd_decode(appended(old(output_buf)@, final(output_buf)@)) == Some(input_buf@),
            r matches Err(e) ==> e matches ParquetError::External(ExternalError::Io(_)),
            final(self).level() == old(self).level(),
    {
        let level = self.level.compression_level();
        let pledged_size = input_buf.len() as u64;
        match zstd_encode_append(input_buf, output_buf, level, pledged_size) {
            Ok(()) => Ok(()),
            Err(e) => Err(ParquetError::External(ExternalError::Io(e))),
        }
    }
}

} // verus!
