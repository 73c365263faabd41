//! Error types of the library.
use vstd::prelude::*;

verus! {

/// Errors returned by the codecs and by the level constructors.
#[derive(Debug)]
pub enum ParquetError {
    /// A general error, with its message.
    General(String),
    /// A feature that is not yet implemented, with its message.
    NYI(String),
    /// An error raised by a compression library, or by the Hadoop LZ4 framing.
    External(ExternalError),
}

/// The error of a compression library, kept as that library returned it.
#[derive(Debug)]
pub enum ExternalError {
    /// An I/O error of a streaming encoder or decoder.
    Io(std::io::Error),
    /// An error of the Snappy encoder or decoder.
    Snappy(snap::Error),
    /// An error of the LZ4 block decoder.
    Lz4Decompress(lz4_flex::block::DecompressError),
    /// An error of the LZ4 block encoder.
    Lz4Compress(lz4_flex::block::CompressError),
    /// An error of the LZ4 frame encoder.
    Lz4Frame(lz4_flex::frame::Error),
    /// A malformed Hadoop LZ4 frame sequence.
    Hadoop(HadoopFrameError),
}

/// Why a buffer could not be read as a sequence of Hadoop LZ4 frames.
#[derive(Debug)]
pub enum HadoopFrameError {
    /// A frame announces more compressed bytes than the input holds.
    NotEnoughInput,
    /// A frame announces more decompressed bytes than the output can hold.
    NotEnoughOutput,
    /// The LZ4 block of a frame could not be decompressed.
    Decompress(lz4_flex::block::DecompressError),
    /// A frame decompressed to another size than it announced.
    UnexpectedDecompressedSize,
    /// Bytes remain after the last frame that was read.
    UnconsumedInput,
}

/// The kind of a [`HadoopFrameError`], without the payload of the LZ4 error.
#[derive(PartialEq, Eq, Structural, Debug, Clone, Copy)]
pub enum HadoopFault {
    NotEnoughInput,
    NotEnoughOutput,
    Decompress,
    UnexpectedDecompressedSize,
    UnconsumedInput,
}

impl HadoopFrameError {
    /// The kind of this error.
    pub open spec fn fault(&self) -> HadoopFault {
        match self {
            HadoopFrameError::NotEnoughInput => HadoopFault::NotEnoughInput,
            HadoopFrameError::NotEnoughOutput => HadoopFault::NotEnoughOutput,
            HadoopFrameError::Decompress(_) => HadoopFault::Decompress,
            HadoopFrameError::UnexpectedDecompressedSize => HadoopFault::UnexpectedDecompressedSize,
            HadoopFrameError::UnconsumedInput => HadoopFault::UnconsumedInput,
        }
    }

    /// The message that describes this error; `None` for an error of the LZ4
    /// block decoder, which describes itself.
    pub fn message(&self) -> (r: Option<&'static str>)
        ensures
            r is None <==> self.fault() == HadoopFault::Decompress,
            self.fault() == HadoopFault::NotEnoughInput ==> (r matches Some(m) && m@ == "Not enough bytes for Hadoop frame"@),
            self.fault() == HadoopFault::NotEnoughOutput ==> (r matches Some(m) && m@ == "Not enough bytes to hold advertised output"@),
            self.fault() == HadoopFault::UnexpectedDecompressedSize ==> (r matches Some(m) && m@ == "Unexpected decompressed size"@),
            self.fault() == HadoopFault::UnconsumedInput ==> (r matches Some(m) && m@ == "Not all input are consumed"@),
    {
        match self {
            HadoopFrameError::NotEnoughInput => Some("Not enough bytes for Hadoop frame"),
            HadoopFrameError::NotEnoughOutput => Some("Not enough bytes to hold advertised output"),
            HadoopFrameError::Decompress(_) => None,
            HadoopFrameError::UnexpectedDecompressedSize => Some("Unexpected decompressed size"),
            HadoopFrameError::UnconsumedInput => Some("Not all input are consumed"),
        }
    }
}

/// Whether `e` is a general error whose message is `message`.
pub open spec fn is_general_error(e: ParquetError, message: Seq<char>) -> bool {
    e matches ParquetError::General(m) && m@ == message
}

} // verus!
