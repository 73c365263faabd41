//! The calls into the compression libraries, each with the contract that
//! the library's source and documentation support.
pub mod brotli_stream;
pub mod gzip;
pub mod io;
pub mod lz4;
pub mod snappy;
pub mod zstd_stream;
