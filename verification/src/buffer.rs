//! The two boundary representations of sequence data: the UTF-16 string that
//! carries the path in, and the owned byte buffer that carries file contents
//! out.
//!
//! A `ByteBuffer` owns its bytes until the host asks for their release; its
//! length and capacity are carried in the fixed-width fields the boundary can
//! hold, so construction rejects anything wider.

use crate::error::UnioError;
use crate::utf16::{decode_utf16, encode_utf16, is_valid_utf16, str_to_utf16, utf16_to_string};
use vstd::prelude::*;

verus! {

/// A UTF-16 string as the host hands it over: a sequence of code units.  The
/// raw pointer-and-count pair of the boundary is resolved into owned units
/// before it reaches this type.
#[derive(Debug)]
pub struct CSharpString {
    units: Vec<u16>,
}

impl View for CSharpString {
    type V = Seq<u16>;

    closed spec fn view(&self) -> Seq<u16> {
        self.units@
    }
}

impl CSharpString {
    /// Take ownership of a sequence of UTF-16 code units.
    pub fn new(units: Vec<u16>) -> (r: Self)
        ensures
            r@ == units@,
    {
        CSharpString { units }
    }

    /// Encode a string as its UTF-16 code units.
    pub fn from_str(value: &str) -> (r: Self)
        ensures
            r@ == encode_utf16(value@),
    {
        CSharpString { units: str_to_utf16(value) }
    }

    /// The code units themselves.
    pub fn units(&self) -> (r: &Vec<u16>)
        ensures
            r@ == self@,
    {
        &self.units
    }

    /// Decode the code units, rejecting sequences with unpaired surrogates.
    pub fn to_string(&self) -> (r: Result<String, UnioError>)
        ensures
            r is Ok <==> is_valid_utf16(self@),
            r matches Ok(s) ==> s@ == decode_utf16(self@),
            r matches Err(e) ==> e@ == encode_utf16("invalid utf-16: lone surrogate found"@),
    {
        match utf16_to_string(self.units.as_slice()) {
            Some(s) => Ok(s),
            None => Err(UnioError::from_message("invalid utf-16: lone surrogate found")),
        }
    }
}

/// A native-owned byte region, described to the host by a length and a
/// capacity that fit the signed 32-bit fields of the boundary.  The default
/// value is the empty sentinel standing for "no data".
pub struct ByteBuffer {
    data: Option<Vec<u8>>,
    length: i32,
    capacity: i32,
}

impl View for ByteBuffer {
    type V = Seq<u8>;

    closed spec fn view(&self) -> Seq<u8> {
        match self.data {
            None => Seq::empty(),
            Some(v) => v@,
        }
    }
}

impl ByteBuffer {
    /// The stored length field.
    pub closed spec fn spec_length(&self) -> int {
        self.length as int
    }

    /// The stored capacity field.
    pub closed spec fn spec_capacity(&self) -> int {
        self.capacity as int
    }

    /// The empty sentinel: no data, zero length, zero capacity.
    pub closed spec fn is_sentinel(&self) -> bool {
        self.data is None && self.length == 0 && self.capacity == 0
    }

    /// Coherence of the three parts: the length field counts the bytes held,
    /// and never exceeds the capacity field.
    pub closed spec fn wf(&self) -> bool {
        match self.data {
            None => self.length == 0 && self.capacity == 0,
            Some(v) => v@.len() == self.length && self.length <= self.capacity,
        }
    }

    /// A coherent buffer reports as many bytes as it holds.
    pub proof fn lemma_wf_length(&self)
        requires
            self.wf(),
        ensures
            self.spec_length() == self@.len(),
            0 <= self.spec_length() <= self.spec_capacity(),
    {
    }

    /// The logical byte count, read back from the fixed-width field.  The
    /// check guards against a corrupted envelope; on every buffer built here
    /// the field is non-negative and the count is returned.
    pub fn len(&self) -> (r: Result<usize, UnioError>)
        ensures
            r is Ok <==> self.spec_length() >= 0,
            r matches Ok(n) ==> n == self.spec_length(),
            self.wf() ==> r is Ok && r->Ok_0 == self@.len(),
            r matches Err(e) ==> e@ == encode_utf16("buffer length negative or overflowed"@),
    {
        proof {
            if self.wf() {
                self.lemma_wf_length();
            }
        }
        if self.length >= 0 {
            Ok(self.length as usize)
        } else {
            Err(UnioError::from_message("buffer length negative or overflowed"))
        }
    }

    /// Move a byte sequence behind the boundary representation, rejecting one
    /// whose length or allocated capacity overflows the 32-bit fields.
    pub fn from_vec(bytes: Vec<u8>) -> (r: Result<Self, UnioError>)
        ensures
            r is Ok ==> r->Ok_0.wf() && r->Ok_0@ == bytes@ && r->Ok_0.spec_length()
                == bytes@.len(),
            r is Ok ==> bytes@.len() <= i32::MAX,
            bytes@.len() > i32::MAX ==> r is Err && r->Err_0@ == encode_utf16(
                "buffer length cannot fit into a i32."@,
            ),
            r is Err ==> r->Err_0@ == encode_utf16("buffer length cannot fit into a i32."@)
                || r->Err_0@ == encode_utf16("buffer capacity cannot fit into a i32."@),
            bytes@.len() <= i32::MAX ==> (r is Err ==> r->Err_0@ == encode_utf16(
                "buffer capacity cannot fit into a i32."@,
            )),
    {
        let capacity = vec_capacity(&bytes);
        Self::from_vec_with_capacity(bytes, capacity)
    }

    /// The exact packaging rule behind [`Self::from_vec`], for a byte
    /// sequence whose allocated capacity is already known: it succeeds
    /// exactly when both the length and that capacity fit the fields.
    pub fn from_vec_with_capacity(bytes: Vec<u8>, capacity: usize) -> (r: Result<Self, UnioError>)
        requires
            bytes@.len() <= capacity,
        ensures
            r is Ok <==> bytes@.len() <= i32::MAX && capacity <= i32::MAX,
            r is Ok ==> r->Ok_0.wf() && r->Ok_0@ == bytes@ && r->Ok_0.spec_length()
                == bytes@.len() && r->Ok_0.spec_capacity() == capacity,
            bytes@.len() > i32::MAX ==> r->Err_0@ == encode_utf16(
                "buffer length cannot fit into a i32."@,
            ),
            bytes@.len() <= i32::MAX && capacity > i32::MAX ==> r->Err_0@ == encode_utf16(
                "buffer capacity cannot fit into a i32."@,
            ),
    {
        if bytes.len() > i32::MAX as usize {
            return Err(UnioError::from_message("buffer length cannot fit into a i32."));
        }
        if capacity > i32::MAX as usize {
            return Err(UnioError::from_message("buffer capacity cannot fit into a i32."));
        }
        let length: i32 = bytes.len() as i32;
        Ok(ByteBuffer { data: Some(bytes), length, capacity: capacity as i32 })
    }

    /// Give the held bytes back as an owned sequence; the sentinel yields the
    /// empty one.
    pub fn into_vec(self) -> (r: Vec<u8>)
        ensures
            r@ == self@,
    {
        match self.data {
            None => Vec::new(),
            Some(v) => v,
        }
    }

    /// Release the buffer: consume it and let the bytes go.  Consuming the
    /// sentinel is a no-op.
    pub fn destroy(self) {
        let _bytes = self.into_vec();
    }
}

impl Default for ByteBuffer {
    /// The empty sentinel.
    fn default() -> (r: Self)
        ensures
            r.is_sentinel(),
            r.wf(),
            r@ == Seq::<u8>::empty(),
            r.spec_length() == 0,
    {
        ByteBuffer { data: None, length: 0, capacity: 0 }
    }
}

/// Relies on Vec::capacity: at least the vector's length.
#[verifier::external_body]
fn vec_capacity(v: &Vec<u8>) -> (r: usize)
    ensures
        r >= v@.len(),
{
    v.capacity()
}

} // verus!
