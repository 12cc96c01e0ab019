//! The opaque error record handed to the host.
//!
//! Every failure — a path that does not decode, a failed read, a size that
//! overflows the boundary fields — is reported the same way: a heap record
//! carrying a human-readable message, which the host can only read and must
//! eventually release.  The message is stored in the UTF-16 form the host
//! consumes.

use crate::buffer::CSharpString;
use crate::utf16::encode_utf16;
use vstd::prelude::*;

verus! {

/// An error record: a message, kept as the UTF-16 code units that cross the
/// boundary.
#[derive(Debug)]
pub struct UnioError {
    message: CSharpString,
}

impl View for UnioError {
    type V = Seq<u16>;

    closed spec fn view(&self) -> Seq<u16> {
        self.message@
    }
}

impl UnioError {
    /// Capture a failure description as an error record.
    pub fn from_message(value: &str) -> (r: Self)
        ensures
            r@ == encode_utf16(value@),
    {
        UnioError { message: CSharpString::from_str(value) }
    }

    /// The stored message.
    pub fn message(&self) -> (r: &CSharpString)
        ensures
            r@ == self@,
    {
        &self.message
    }
}

} // verus!
