//! Calls into `zstd`: the Zstandard format.
use vstd::prelude::*;

use crate::codec::{appended, keeps_prefix};

verus! {

/// What a `zstd` stream decoder reads from `input` to its end, or `None`
/// where `input` is not valid Zstandard data.
pub uninterp spec fn zstd_decode(input: Seq<u8>) -> Option<Seq<u8>>;

/// What a `zstd` stream encoder at compression level `level`, told in advance
/// that `pledged_size` bytes follow, writes for `input`, once finished.
pub uninterp spec fn zstd_encode(input: Seq<u8>, level: i32, pledged_size: u64) -> Seq<u8>;

/// Calls `zstd::stream::copy_decode` from `input` into `output`. It claims
/// that bytes are only appended to `output`, and that the call succeeds
/// exactly where `input` decodes, appending the decoding. Like every
/// contract of this library, it sets aside the allocator running out of
/// memory, which the C library reports as an error.
#[verifier::external_body]
pub(crate) fn zstd_decode_append(input: &[u8], output: &mut Vec<u8>) -> (r: Result<(), std::io::Error>)
    ensures
        keeps_prefix(old(output)@, final(output)@),
        r is Ok <==> zstd_decode(input@) is Some,
        r is Ok ==> zstd_decode(input@) == Some(appended(old(output)@, final(output)@)),
{
    zstd::stream::copy_decode(input, &mut *output)
}

/// Calls `zstd::stream::compress_sized_into` from `input` into `output` at
/// level `level`, announcing `pledged_size` as the size that follows; the frame
/// records that size and zstd sizes its tables for it. The announced size must
/// be the input's length, else zstd fails at the end. It claims that the call
/// succeeds (the level is valid, writing into a `Vec` does not fail, and
/// running out of memory is set aside as everywhere in this library), that
/// bytes are only appended to `output`, and that they are the named encoding,
/// which decodes back to `input`.
#[verifier::external_body]
pub(crate) fn zstd_encode_append(input: &[u8], output: &mut Vec<u8>, level: i32, pledged_size: u64) -> (r: Result<(), std::io::Error>)
    requires
        pledged_size == input@.len(),
    ensures
        keeps_prefix(old(output)@, final(output)@),
        r is Ok,
        r is Ok ==> appended(old(output)@, final(output)@) == zstd_encode(input@, level, pledged_size)
            && zstd_decode(appended(old(output)@, final(output)@)) == Some(input@),
{
    zstd::stream::compress_sized_into(input, &mut *output, level, pledged_size)
}

} // verus!
