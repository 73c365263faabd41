//! Compression codecs for Parquet pages (Snappy, gzip, brotli, LZ4 in the
//! Hadoop, frame and raw formats, Zstandard), with their level and option
//! types, and the byte framing of the LZ4 Hadoop format.
pub mod basic;
pub mod bindings;
pub mod brotli_codec;
pub mod bytes;
pub mod codec;
pub mod errors;
pub mod gzip_codec;
pub mod levels;
pub mod lz4_codec;
pub mod lz4_hadoop_codec;
pub mod lz4_raw_codec;
pub mod options;
pub mod snappy_codec;
pub mod zstd_codec;

pub use basic::Compression;
pub use brotli_codec::BrotliCodec;
pub use codec::{create_codec, AnyCodec, Codec};
pub use errors::{ExternalError, HadoopFrameError, ParquetError};
pub use gzip_codec::GZipCodec;
pub use levels::{BrotliLevel, GzipLevel, ZstdLevel};
pub use lz4_codec::LZ4Codec;
pub use lz4_hadoop_codec::LZ4HadoopCodec;
pub use lz4_raw_codec::LZ4RawCodec;
pub use options::{CodecOptions, CodecOptionsBuilder};
pub use snappy_codec::SnappyCodec;
pub use zstd_codec::ZSTDCodec;
