//! Calls into `flate2`: the gzip format.
use vstd::prelude::*;

use crate::codec::{appended, keeps_prefix};

verus! {

/// What a `flate2::read::MultiGzDecoder` reads from `input` to its end: the
/// decompressed bytes of all gzip members, or `None` where `input` is not
/// valid gzip data.
pub uninterp spec fn gzip_decode(input: Seq<u8>) -> Option<Seq<u8>>;

/// What a `flate2::write::GzEncoder` at compression level `level` writes for
/// `input`, once finished.
pub uninterp spec fn gzip_encode(input: Seq<u8>, level: u32) -> Seq<u8>;

/// Builds a `flate2::read::MultiGzDecoder` over `input` and calls
/// `read_to_end` of `std::io::Read` on it with `output`. It claims what
/// `read_to_end` documents, that bytes are only appended to `output`, and that
/// the call succeeds exactly where `input` decodes, appending the decoding and
/// returning its length.
#[verifier::external_body]
pub(crate) fn gzip_decode_append(input: &[u8], output: &mut Vec<u8>) -> (r: Result<usize, std::io::Error>)
    ensures
        keeps_prefix(old(output)@, final(output)@),
        r is Ok <==> gzip_decode(input@) is Some,
        r matches Ok(n) ==> gzip_decode(input@) == Some(appended(old(output)@, final(output)@))
            && n == appended(old(output)@, final(output)@).len(),
{
    std::io::Read::read_to_end(&mut flate2::read::MultiGzDecoder::new(input), output)
}

/// Builds a `flate2::write::GzEncoder` over `output` with
/// `flate2::Compression::new(level)`, calls `write_all` of `std::io::Write`
/// with `input` and then `try_finish`. It claims that the call succeeds (the
/// encoder reports only errors of the writer it wraps, and writing into a
/// `Vec` does not fail), that bytes are only appended to `output`, and that
/// they are the named encoding, which decodes back to `input`.
#[verifier::external_body]
pub(crate) fn gzip_encode_append(input: &[u8], output: &mut Vec<u8>, level: u32) -> (r: Result<(), std::io::Error>)
    ensures
        keeps_prefix(old(output)@, final(output)@),
        r is Ok,
        r is Ok ==> appended(old(output)@, final(output)@) == gzip_encode(input@, level)
            && gzip_decode(appended(old(output)@, final(output)@)) == Some(input@),
{
    let mut encoder = flate2::write::GzEncoder::new(output, flate2::Compression::new(level));
    std::io::Write::write_all(&mut encoder, input)?;
    encoder.try_finish()
}

} // verus!
