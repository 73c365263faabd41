//! Options for creating codecs.
use vstd::prelude::*;

verus! {

/// Struct to hold `Codec` creation options.
#[derive(Debug, PartialEq, Eq, Structural)]
pub struct CodecOptions {
    /// Whether or not to fallback to other LZ4 older implementations on error in LZ4_HADOOP.
    pub(crate) backward_compatible_lz4: bool,
}

impl CodecOptions {
    /// Whether the LZ4 codec falls back to older LZ4 formats on error.
    pub open(crate) spec fn backward_compatible_lz4(self) -> bool {
        self.backward_compatible_lz4
    }
}

impl Default for CodecOptions {
    /// The options of a default builder: backward compatible LZ4.
    fn default() -> (r: Self)
        ensures
            r.backward_compatible_lz4(),
    {
        CodecOptionsBuilder::default().build()
    }
}

/// Builder for `CodecOptions`.
pub struct CodecOptionsBuilder {
    /// Whether or not to fallback to other LZ4 older implementations on error in LZ4_HADOOP.
    backward_compatible_lz4: bool,
}

impl CodecOptionsBuilder {
    /// Whether the options built will have the LZ4 codec fall back to older
    /// LZ4 formats on error.
    pub closed spec fn backward_compatible_lz4(self) -> bool {
        self.backward_compatible_lz4
    }

    /// Enable/disable backward compatible LZ4.
    ///
    /// If backward compatible LZ4 is enabled, on LZ4_HADOOP error it will
    /// fallback to the older versions LZ4 algorithms. That is LZ4_FRAME, for
    /// backward compatibility with files generated by older versions of this
    /// library, and LZ4_RAW, for backward compatibility with files generated
    /// by older versions of parquet-cpp.
    ///
    /// If backward compatible LZ4 is disabled, on LZ4_HADOOP error it will
    /// return the error.
    pub fn set_backward_compatible_lz4(self, value: bool) -> (r: CodecOptionsBuilder)
        ensures
            r.backward_compatible_lz4() == value,
    {
        let mut builder = self;
        builder.backward_compatible_lz4 = value;
        builder
    }

    /// Builds the options that this builder holds.
    pub fn build(self) -> (r: CodecOptions)
        ensures
            r.backward_compatible_lz4() == self.backward_compatible_lz4(),
    {
        CodecOptions { backward_compatible_lz4: self.backward_compatible_lz4 }
    }
}

impl Default for CodecOptionsBuilder {
    /// A builder of backward compatible LZ4 options.
    fn default() -> (r: Self)
        ensures
            r.backward_compatible_lz4(),
    {
        Self { backward_compatible_lz4: true }
    }
}

} // verus!
