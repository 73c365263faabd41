//! The I/O error type of std, as the streaming codecs return it.
use vstd::prelude::*;

verus! {

/// `std::io::Error`, carried through verified code without being inspected.
#[verifier::external_type_specification]
#[verifier::external_body]
pub struct ExIoError(std::io::Error);

} // verus!
