//! The codec interface.
use vstd::prelude::*;

use crate::basic::Compression;
use crate::bindings::brotli_stream::{brotli_decode, brotli_encode};
use crate::bindings::gzip::{gzip_decode, gzip_encode};
use crate::bindings::lz4::{lz4_block_encode, lz4_max_output_size};
use crate::bindings::snappy::{snappy_encode, snappy_max_len};
use crate::bindings::zstd_stream::{zstd_decode, zstd_encode};
use crate::brotli_codec::{BrotliCodec, BROTLI_DEFAULT_BUFFER_SIZE, BROTLI_DEFAULT_LG_WINDOW_SIZE};
use crate::errors::ParquetError;
use crate::gzip_codec::GZipCodec;
use crate::bindings::lz4::lz4_frame_decode;
use crate::lz4_hadoop_codec::{hadoop_frames, lemma_fallback_follows_setting, lz4_hadoop_decoded, lz4_hadoop_encoded, LZ4HadoopCodec};
use crate::lz4_raw_codec::{lz4_raw_decoded, LZ4RawCodec};
use crate::options::CodecOptions;
use crate::snappy_codec::{snappy_decoded, snappy_target_len, SnappyCodec};
use crate::zstd_codec::ZSTDCodec;

verus! {

/// Whether `after` starts with `before`: what was in the output buffer stays.
pub open spec fn keeps_prefix(before: Seq<u8>, after: Seq<u8>) -> bool {
    &&& after.len() >= before.len()
    &&& after.take(before.len() as int) == before
}

/// The bytes that a call appended to a buffer that held `before`.
pub open spec fn appended(before: Seq<u8>, after: Seq<u8>) -> Seq<u8> {
    after.skip(before.len() as int)
}

/// Parquet compression codec interface.
pub trait Codec {
    /// Whether an output of `output_len` bytes can grow by what `compress`
    /// makes room for when it compresses `input_len` bytes, within the
    /// machine's integers.
    spec fn compress_fits(&self, output_len: int, input_len: int) -> bool;

    /// Whether an output of `output_len` bytes can grow by what `decompress`
    /// makes room for when it decompresses `input` with the size hint `size`,
    /// within the machine's integers.
    spec fn decompress_fits(&self, output_len: int, input: Seq<u8>, size: Option<usize>) -> bool;

    /// Compresses `input_buf` and appends the result to `output_buf`. What
    /// `output_buf` held before stays in place.
    fn compress(&mut self, input_buf: &[u8], output_buf: &mut Vec<u8>) -> (r: Result<(), ParquetError>)
        requires
            old(self).compress_fits(old(output_buf)@.len() as int, input_buf@.len() as int),
        ensures
            keeps_prefix(old(output_buf)@, final(output_buf)@),
    ;

    /// Decompresses `input_buf` and appends the result to `output_buf`,
    /// returning the number of bytes decompressed. `uncompress_size`, where
    /// given, is the expected decompressed size. What `output_buf` held before
    /// stays in place.
    fn decompress(&mut self, input_buf: &[u8], output_buf: &mut Vec<u8>, uncompress_size: Option<usize>) -> (r: Result<usize, ParquetError>)
        requires
            old(self).decompress_fits(old(output_buf)@.len() as int, input_buf@, uncompress_size),
        ensures
            keeps_prefix(old(output_buf)@, final(output_buf)@),
    ;
}

/// A codec of any of the compression kinds that `create_codec` serves.
pub enum AnyCodec {
    Snappy(SnappyCodec),
    Gzip(GZipCodec),
    Brotli(BrotliCodec),
    Lz4Hadoop(LZ4HadoopCodec),
    Zstd(ZSTDCodec),
    Lz4Raw(LZ4RawCodec),
}

impl AnyCodec {
    /// The bytes that `compress` appends for `input` where it succeeds.
    pub open spec fn compressed(&self, input: Seq<u8>) -> Seq<u8> {
        match self {
            AnyCodec::Snappy(_) => snappy_encode(input),
            AnyCodec::Gzip(c) => gzip_encode(input, c.level().level()),
            AnyCodec::Brotli(c) => brotli_encode(
                input,
                c.level().level(),
                BROTLI_DEFAULT_BUFFER_SIZE,
                BROTLI_DEFAULT_LG_WINDOW_SIZE,
            ),
            AnyCodec::Lz4Hadoop(_) => lz4_hadoop_encoded(input),
            AnyCodec::Zstd(c) => zstd_encode(input, c.level().level(), input.len() as u64),
            AnyCodec::Lz4Raw(_) => lz4_block_encode(input),
        }
    }

    /// The decompressed bytes whose count `decompress` returns for `input` and
    /// the size hint `size`, where the codec's own format reads them.
    pub open spec fn decoded(&self, input: Seq<u8>, size: Option<usize>) -> Option<Seq<u8>> {
        match self {
            AnyCodec::Snappy(_) => snappy_decoded(input, size),
            AnyCodec::Gzip(_) => gzip_decode(input),
            AnyCodec::Brotli(_) => brotli_decode(input),
            AnyCodec::Lz4Hadoop(c) => lz4_hadoop_decoded(input, size, c.backward_compatible()),
            AnyCodec::Zstd(_) => zstd_decode(input),
            AnyCodec::Lz4Raw(_) => lz4_raw_decoded(input, size),
        }
    }

    /// What `decompress` appends where it returns the count of
    /// `self.decoded(input, size)`: the decoding, which Snappy follows with
    /// zeros up to the room it made.
    pub open spec fn appended_on_decode(&self, input: Seq<u8>, size: Option<usize>) -> Seq<u8> {
        match self {
            AnyCodec::Snappy(_) => {
                let d = snappy_decoded(input, size)->0;
                d + Seq::new((snappy_target_len(input, size)->0 - d.len()) as nat, |i: int| 0u8)
            },
            _ => self.decoded(input, size)->0,
        }
    }

    /// Whether `decompress` needs the size hint.
    pub open spec fn needs_size(&self) -> bool {
        self is Lz4Hadoop || self is Lz4Raw
    }

    /// Whether what `compress` appends for `input_len` bytes is known to read
    /// back: the Hadoop frame holds both its sizes in 32 bits.
    pub open spec fn reads_back(&self, input_len: int) -> bool {
        self is Lz4Hadoop ==> lz4_max_output_size(input_len) <= u32::MAX
    }

    /// Whether `compress` succeeds for `input_len` bytes: all kinds do but
    /// Snappy, which fails where its worst case exceeds `u32::MAX`.
    pub open spec fn encode_owed(&self, input_len: int) -> bool {
        match self {
            AnyCodec::Snappy(_) => snappy_max_len(input_len) != 0,
            _ => true,
        }
    }

    /// Whether `self` and `other` are codecs of the same kind and settings.
    pub open spec fn same_settings(&self, other: &AnyCodec) -> bool {
        match (self, other) {
            (AnyCodec::Snappy(_), AnyCodec::Snappy(_)) => true,
            (AnyCodec::Gzip(a), AnyCodec::Gzip(b)) => a.level() == b.level(),
            (AnyCodec::Brotli(a), AnyCodec::Brotli(b)) => a.level() == b.level(),
            (AnyCodec::Lz4Hadoop(a), AnyCodec::Lz4Hadoop(b)) => a.backward_compatible() == b.backward_compatible(),
            (AnyCodec::Zstd(a), AnyCodec::Zstd(b)) => a.level() == b.level(),
            (AnyCodec::Lz4Raw(_), AnyCodec::Lz4Raw(_)) => true,
            _ => false,
        }
    }
}

impl Codec for AnyCodec {
    open spec fn compress_fits(&self, output_len: int, input_len: int) -> bool {
        match self {
            AnyCodec::Snappy(c) => c.compress_fits(output_len, input_len),
            AnyCodec::Gzip(c) => c.compress_fits(output_len, input_len),
            AnyCodec::Brotli(c) => c.compress_fits(output_len, input_len),
            AnyCodec::Lz4Hadoop(c) => c.compress_fits(output_len, input_len),
            AnyCodec::Zstd(c) => c.compress_fits(output_len, input_len),
            AnyCodec::Lz4Raw(c) => c.compress_fits(output_len, input_len),
        }
    }

    open spec fn decompress_fits(&self, output_len: int, input: Seq<u8>, size: Option<usize>) -> bool {
        match self {
            AnyCodec::Snappy(c) => c.decompress_fits(output_len, input, size),
            AnyCodec::Gzip(c) => c.decompress_fits(output_len, input, size),
            AnyCodec::Brotli(c) => c.decompress_fits(output_len, input, size),
            AnyCodec::Lz4Hadoop(c) => c.decompress_fits(output_len, input, size),
            AnyCodec::Zstd(c) => c.decompress_fits(output_len, input, size),
            AnyCodec::Lz4Raw(c) => c.decompress_fits(output_len, input, size),
        }
    }

    /// Compresses with the codec that `self` holds. What it appends reads
    /// back, through `decompress` of a codec of the same kind, as `input_buf`
    /// with the input's length as size hint and, where the kind does not need
    /// one, without a hint.
    fn compress(&mut self, input_buf: &[u8], output_buf: &mut Vec<u8>) -> (r: Result<(), ParquetError>)
        ensures
            final(self).same_settings(old(self)),
            r is Ok ==> appended(old(output_buf)@, final(output_buf)@) == old(self).compressed(input_buf@),
            r is Ok && old(self).reads_back(input_buf@.len() as int) ==> {
                &&& old(self).decoded(appended(old(output_buf)@, final(output_buf)@), Some(input_buf@.len() as usize))
                    == Some(input_buf@)
                &&& old(self).appended_on_decode(appended(old(output_buf)@, final(output_buf)@), Some(input_buf@.len() as usize))
                    == input_buf@
            },
            r is Ok && !old(self).needs_size() ==> {
                &&& old(self).decoded(appended(old(output_buf)@, final(output_buf)@), None) == Some(input_buf@)
                &&& old(self).appended_on_decode(appended(old(output_buf)@, final(output_buf)@), None) == input_buf@
            },
            r is Ok <==> old(self).encode_owed(input_buf@.len() as int),
    {
        match self {
            AnyCodec::Snappy(c) => c.compress(input_buf, output_buf),
            AnyCodec::Gzip(c) => c.compress(input_buf, output_buf),
            AnyCodec::Brotli(c) => c.compress(input_buf, output_buf),
            AnyCodec::Lz4Hadoop(c) => c.compress(input_buf, output_buf),
            AnyCodec::Zstd(c) => c.compress(input_buf, output_buf),
            AnyCodec::Lz4Raw(c) => c.compress(input_buf, output_buf),
        }
    }

    /// Decompresses with the codec that `self` holds. It succeeds exactly
    /// where `decoded` reads the input; the count returned is then the
    /// decoding's length and the bytes appended start with the decoding.
    fn decompress(&mut self, input_buf: &[u8], output_buf: &mut Vec<u8>, uncompress_size: Option<usize>) -> (r: Result<usize, ParquetError>)
        ensures
            final(self).same_settings(old(self)),
            r is Ok <==> old(self).decoded(input_buf@, uncompress_size) is Some,
            r matches Ok(n) ==> {
                &&& n == old(self).decoded(input_buf@, uncompress_size)->0.len()
                &&& appended(old(output_buf)@, final(output_buf)@) == old(self).appended_on_decode(input_buf@, uncompress_size)
            },
    {
        match self {
            AnyCodec::Snappy(c) => c.decompress(input_buf, output_buf, uncompress_size),
            AnyCodec::Gzip(c) => c.decompress(input_buf, output_buf, uncompress_size),
            AnyCodec::Brotli(c) => c.decompress(input_buf, output_buf, uncompress_size),
            AnyCodec::Lz4Hadoop(c) => c.decompress(input_buf, output_buf, uncompress_size),
            AnyCodec::Zstd(c) => c.decompress(input_buf, output_buf, uncompress_size),
            AnyCodec::Lz4Raw(c) => c.decompress(input_buf, output_buf, uncompress_size),
        }
    }
}

/// Two codecs of the same kind and settings compress alike and decompress
/// alike, so that what one compresses the other reads back.
pub proof fn lemma_same_settings_agree(a: AnyCodec, b: AnyCodec, input: Seq<u8>, size: Option<usize>)
    requires
        a.same_settings(&b),
    ensures
        a.compressed(input) == b.compressed(input),
        a.decoded(input, size) == b.decoded(input, size),
        a.appended_on_decode(input, size) == b.appended_on_decode(input, size),
        a.needs_size() == b.needs_size(),
        a.reads_back(input.len() as int) == b.reads_back(input.len() as int),
{
}

/// Each codec compresses and decompresses with its own kind and settings:
/// gzip, brotli and Zstandard at the level it holds (brotli with the default
/// buffer and window, Zstandard told the input's length), and the LZ4 Hadoop
/// codec falls back to older formats exactly where it is backward compatible.
/// Only the LZ4 codecs need the size hint, only Snappy may fail to compress,
/// and all that a codec compresses reads back but a Hadoop frame whose sizes
/// do not fit in 32 bits.
pub proof fn lemma_codec_uses_its_settings(c: AnyCodec, input: Seq<u8>, size: Option<usize>)
    ensures
        c matches AnyCodec::Gzip(g) ==> (c.compressed(input) == gzip_encode(input, g.level().level())
            && c.decoded(input, size) == gzip_decode(input)),
        c matches AnyCodec::Brotli(b) ==> (c.compressed(input) == brotli_encode(
            input,
            b.level().level(),
            BROTLI_DEFAULT_BUFFER_SIZE,
            BROTLI_DEFAULT_LG_WINDOW_SIZE,
        ) && c.decoded(input, size) == brotli_decode(input)),
        c matches AnyCodec::Zstd(z) ==> (c.compressed(input) == zstd_encode(input, z.level().level(), input.len() as u64)
            && c.decoded(input, size) == zstd_decode(input)),
        c matches AnyCodec::Snappy(_) ==> (c.compressed(input) == snappy_encode(input)
            && c.decoded(input, size) == snappy_decoded(input, size)),
        c matches AnyCodec::Lz4Raw(_) ==> (c.compressed(input) == lz4_block_encode(input)
            && c.decoded(input, size) == lz4_raw_decoded(input, size)),
        c matches AnyCodec::Lz4Hadoop(h) ==> (c.compressed(input) == lz4_hadoop_encoded(input)
            && (size matches Some(n) ==> (hadoop_frames(input, n as nat) is Err ==> (
                (!h.backward_compatible() ==> c.decoded(input, size) is None)
                && (h.backward_compatible() ==> (lz4_frame_decode(input) matches Some(d) ==> c.decoded(input, size) == Some(d))))))),
        c.needs_size() <==> (c is Lz4Hadoop || c is Lz4Raw),
        c.encode_owed(input.len() as int) <==> (c is Snappy ==> snappy_max_len(input.len() as int) != 0),
        c.reads_back(input.len() as int) <==> (c is Lz4Hadoop ==> lz4_max_output_size(input.len() as int) <= u32::MAX),
{
    if let AnyCodec::Lz4Hadoop(h) = c {
        if let Some(n) = size {
            if hadoop_frames(input, n as nat) is Err {
                lemma_fallback_follows_setting(input, n);
            }
        }
    }
}

/// Given the compression type `codec`, returns a codec used to compress and
/// decompress bytes for the compression type. This returns `None` if the
/// codec type is `UNCOMPRESSED`, and fails for LZO, which is not supported.
pub fn create_codec(codec: Compression, options: &CodecOptions) -> (r: Result<Option<AnyCodec>, ParquetError>)
    ensures
        match codec {
            Compression::UNCOMPRESSED => r matches Ok(None),
            Compression::SNAPPY => r matches Ok(Some(AnyCodec::Snappy(_))),
            Compression::GZIP(level) => r matches Ok(Some(AnyCodec::Gzip(c))) && c.level() == level,
            Compression::BROTLI(level) => r matches Ok(Some(AnyCodec::Brotli(c))) && c.level() == level,
            Compression::LZ4 => r matches Ok(Some(AnyCodec::Lz4Hadoop(c)))
                && c.backward_compatible() == options.backward_compatible_lz4(),
            Compression::ZSTD(level) => r matches Ok(Some(AnyCodec::Zstd(c))) && c.level() == level,
            Compression::LZ4_RAW => r matches Ok(Some(AnyCodec::Lz4Raw(_))),
            Compression::LZO => r matches Err(ParquetError::NYI(m)) && m@ == "The codec type LZO is not supported yet"@,
        },
{
    match codec {
        Compression::BROTLI(level) => Ok(Some(AnyCodec::Brotli(BrotliCodec::new(level)))),
        Compression::GZIP(level) => Ok(Some(AnyCodec::Gzip(GZipCodec::new(level)))),
        Compression::SNAPPY => Ok(Some(AnyCodec::Snappy(SnappyCodec::new()))),
        Compression::LZ4 => Ok(Some(AnyCodec::Lz4Hadoop(LZ4HadoopCodec::new(options.backward_compatible_lz4)))),
        Compression::ZSTD(level) => Ok(Some(AnyCodec::Zstd(ZSTDCodec::new(level)))),
        Compression::LZ4_RAW => Ok(Some(AnyCodec::Lz4Raw(LZ4RawCodec::new()))),
        Compression::UNCOMPRESSED => Ok(None),
        Compression::LZO => Err(ParquetError::NYI("The codec type LZO is not supported yet".to_owned())),
    }
}

} // verus!
