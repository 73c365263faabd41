//! The compression kinds that a Parquet column chunk may use.
use vstd::prelude::*;

use crate::levels::{BrotliLevel, GzipLevel, ZstdLevel};

verus! {

/// Supported compression algorithms, with their levels where they have one.
#[allow(non_camel_case_types)]
#[derive(Debug, Clone, Copy, PartialEq, Eq, Structural)]
pub enum Compression {
    UNCOMPRESSED,
    SNAPPY,
    GZIP(GzipLevel),
    LZO,
    BROTLI(BrotliLevel),
    LZ4,
    ZSTD(ZstdLevel),
    LZ4_RAW,
}

} // verus!
