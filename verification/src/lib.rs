//! Native side of a file-reading handoff protocol.
//!
//! A managed host passes a UTF-16 path across the boundary; the native side
//! decodes it, reads the file, and hands back an envelope that pairs an owned
//! byte buffer with a nullable error.  The host must later release what it was
//! handed through the dedicated release entry points.  This crate holds the
//! verified core of that protocol: the buffer and error representations, the
//! UTF-16 codec, and the packaging and release rules.  The raw-pointer glue at
//! the boundary and the file I/O itself live outside the verified core and
//! hand plain values in and out.

pub mod buffer;
pub mod error;
pub mod utf16;

use vstd::prelude::*;

use crate::buffer::ByteBuffer;
use crate::error::UnioError;

verus! {

/// Outcome of the one domain operation: a byte buffer paired with a nullable
/// error.  Exactly one side carries information: on success the error is
/// absent, on failure the buffer is the empty sentinel.
pub struct ReadResult {
    pub bytes: ByteBuffer,
    pub error: Option<Box<UnioError>>,
}

impl ReadResult {
    /// A well-formed envelope: the buffer is coherent, and a reported error
    /// comes with the sentinel buffer, never with data.
    pub open spec fn wf(&self) -> bool {
        &&& self.bytes.wf()
        &&& self.error is Some ==> self.bytes.is_sentinel()
    }
}

/// Package the outcome of the read pipeline as an envelope: a buffer on
/// success, the sentinel buffer plus the error on failure.
pub fn read_result_from(result: Result<ByteBuffer, UnioError>) -> (r: ReadResult)
    ensures
        result matches Ok(b) ==> r.error is None && r.bytes == b,
        result matches Err(e) ==> r.error is Some && r.error->0@ == e@
            && r.bytes.is_sentinel(),
        result matches Ok(b) && b.wf() ==> r.wf(),
        result is Err ==> r.wf(),
{
    match result {
        Ok(bytes) => ReadResult { bytes, error: None },
        Err(e) => ReadResult { bytes: ByteBuffer::default(), error: Some(Box::new(e)) },
    }
}

/// Check the element count the host supplied for the path before it is used:
/// a negative count is an error, never an index.
pub fn path_length_to_count(path_length: i32) -> (r: Result<usize, UnioError>)
    ensures
        r is Ok <==> path_length >= 0,
        r matches Ok(n) ==> n == path_length,
        r matches Err(e) ==> e@ == utf16::encode_utf16("path length negative or overflowed"@),
{
    if path_length >= 0 {
        Ok(path_length as usize)
    } else {
        Err(UnioError::from_message("path length negative or overflowed"))
    }
}

/// Package what the read of the file produced: its bytes become a buffer in a
/// success envelope when they fit the boundary fields, and any failure — the
/// read's own, or an overflowing size — becomes a failure envelope carrying
/// the message.
pub fn package_read_outcome(outcome: Result<Vec<u8>, String>) -> (r: ReadResult)
    ensures
        r.wf(),
        outcome matches Err(m) ==> r.error is Some && r.error->0@ == utf16::encode_utf16(m@)
            && r.bytes.is_sentinel(),
        outcome matches Ok(b) && b@.len() > i32::MAX ==> r.error is Some && r.error->0@
            == utf16::encode_utf16("buffer length cannot fit into a i32."@)
            && r.bytes.is_sentinel(),
        outcome matches Ok(b) ==> (r.error is None ==> r.bytes.wf() && r.bytes@ == b@
            && r.bytes.spec_length() == b@.len()),
        outcome matches Ok(b) ==> (b@.len() <= i32::MAX ==> r.error is None || r.error->0@
            == utf16::encode_utf16("buffer capacity cannot fit into a i32."@)),
        r.error is Some ==> r.bytes.is_sentinel(),
{
    match outcome {
        Ok(bytes) => read_result_from(ByteBuffer::from_vec(bytes)),
        Err(message) => read_result_from(Err(UnioError::from_message(message.as_str()))),
    }
}

/// Release an envelope: the error record when one is present, and the buffer
/// unconditionally.  This is the one call a host needs to make to return
/// everything an envelope carries.
pub fn unio_read_result_delete(value: ReadResult) {
    let ReadResult { bytes, error } = value;
    unio_boxed_error_delete(error);
    unio_byte_buffer_delete(bytes);
}

/// Release a buffer obtained on its own.  Releasing the empty sentinel is a
/// no-op.
pub fn unio_byte_buffer_delete(bytes: ByteBuffer) {
    bytes.destroy();
}

/// Release an error record; an absent one is a no-op.
pub fn unio_boxed_error_delete(error: Option<Box<UnioError>>) {
    match error {
        Some(boxed) => {
            let _record = boxed;
        },
        None => {},
    }
}

} // verus!
