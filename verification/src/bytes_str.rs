//! An immutable, cheaply shareable string value, guaranteed valid UTF-8.
//!
//! The payload lives in a `bytes::Bytes` buffer, so a value may reference
//! process-wide static storage (for compile-time-known text) or a
//! reference-counted shared allocation (for text received at runtime);
//! cloning shares the underlying bytes instead of copying them. The single
//! validation gate is `try_from`: past it, every holder may rely on the
//! payload being valid UTF-8.

use vstd::prelude::*;
use vstd::utf8::*;

use crate::validate::{first_invalid_at, validate_utf8, Utf8Error};

verus! {

#[verifier::external_type_specification]
#[verifier::external_body]
pub struct ExBytes(bytes::Bytes);

/// The byte contents of a `bytes::Bytes` buffer.
pub uninterp spec fn bytes_content(b: bytes::Bytes) -> Seq<u8>;

/// Relies on `bytes::Bytes::from_static`: the buffer holds exactly the given
/// bytes, referencing the static storage without copying.
#[verifier::external_body]
fn bytes_from_static(s: &'static [u8]) -> (b: bytes::Bytes)
    ensures
        bytes_content(b) == s@,
{
    bytes::Bytes::from_static(s)
}

/// Relies on `bytes::Bytes::copy_from_slice`: the buffer holds a copy of the
/// given bytes.
#[verifier::external_body]
fn bytes_copy_from_slice(s: &[u8]) -> (b: bytes::Bytes)
    ensures
        bytes_content(b) == s@,
{
    bytes::Bytes::copy_from_slice(s)
}

/// Relies on `<bytes::Bytes as AsRef<[u8]>>::as_ref`: a borrowed slice of
/// the buffer's contents.
#[verifier::external_body]
fn bytes_as_slice(b: &bytes::Bytes) -> (r: &[u8])
    ensures
        r@ == bytes_content(*b),
{
    b.as_ref()
}

/// Relies on `<bytes::Bytes as Clone>::clone`: a new handle to the same
/// contents; the underlying bytes are shared, not copied.
#[verifier::external_body]
fn bytes_clone(b: &bytes::Bytes) -> (r: bytes::Bytes)
    ensures
        bytes_content(r) == bytes_content(*b),
{
    b.clone()
}

/// Relies on `core::str::from_utf8`: on valid UTF-8 input it returns `Ok`
/// with a string slice over exactly the given bytes.
#[verifier::external_body]
fn str_from_utf8(v: &[u8]) -> (r: &str)
    requires
        valid_utf8(v@),
    ensures
        encode_utf8(r@) == v@,
        r@ == decode_utf8(v@),
{
    core::str::from_utf8(v).unwrap_or("")
}

/// Compares two byte slices element by element.
fn slice_eq(a: &[u8], b: &[u8]) -> (r: bool)
    ensures
        r == (a@ == b@),
{
    if a.len() != b.len() {
        return false;
    }
    let mut i: usize = 0;
    while i < a.len()
        invariant
            i <= a@.len(),
            a@.len() == b@.len(),
            forall|j: int| 0 <= j < i ==> a@[j] == b@[j],
        decreases a@.len() - i,
    {
        if a[i] != b[i] {
            return false;
        }
        i = i + 1;
    }
    proof {
        assert(a@ =~= b@);
    }
    true
}

/// A shareable string payload whose bytes are always valid UTF-8.
///
/// Its view is the byte sequence of the payload; the character content is
/// its UTF-8 decoding, returned by [`BytesStr::as_str`].
#[derive(Debug)]
pub struct BytesStr {
    bytes: bytes::Bytes,
}

impl View for BytesStr {
    type V = Seq<u8>;

    closed spec fn view(&self) -> Seq<u8> {
        bytes_content(self.bytes)
    }
}

impl BytesStr {
    /// The payload is valid UTF-8 at all times after construction.
    #[verifier::type_invariant]
    spec fn inv(self) -> bool {
        valid_utf8(self@)
    }

    /// Wraps a string that lives for the whole process, reusing its storage.
    pub fn from_static(value: &'static str) -> (r: Self)
        ensures
            r@ == encode_utf8(value@),
    {
        let b = bytes_from_static(value.as_bytes());
        proof {
            encode_utf8_valid_utf8(value@);
        }
        BytesStr { bytes: b }
    }

    /// Copies a borrowed string of arbitrary lifetime into a shared buffer.
    pub fn from_str(value: &str) -> (r: Self)
        ensures
            r@ == encode_utf8(value@),
    {
        let b = bytes_copy_from_slice(value.as_bytes());
        proof {
            encode_utf8_valid_utf8(value@);
        }
        BytesStr { bytes: b }
    }

    /// The single validation gate: accepts an untrusted buffer exactly when
    /// its bytes are valid UTF-8, and otherwise reports the offset of the
    /// first invalid sequence.
    pub fn try_from(bytes: bytes::Bytes) -> (r: Result<Self, Utf8Error>)
        ensures
            valid_utf8(bytes_content(bytes)) ==> (r matches Ok(s) && s@ == bytes_content(bytes)),
            !valid_utf8(bytes_content(bytes)) ==> (r matches Err(e) && first_invalid_at(
                bytes_content(bytes),
                e.valid_up_to as int,
            )),
    {
        let checked = validate_utf8(bytes_as_slice(&bytes));
        match checked {
            Ok(_) => Ok(BytesStr { bytes }),
            Err(e) => Err(e),
        }
    }

    /// A borrowed view of the payload as text.
    pub fn as_str(&self) -> (r: &str)
        ensures
            r@ == decode_utf8(self@),
            encode_utf8(r@) == self@,
            valid_utf8(self@),
    {
        proof {
            use_type_invariant(self);
        }
        str_from_utf8(bytes_as_slice(&self.bytes))
    }

    /// A borrowed view of the payload's raw bytes, for writing to the wire
    /// without re-validation.
    pub fn as_bytes(&self) -> (r: &[u8])
        ensures
            r@ == self@,
            valid_utf8(self@),
    {
        proof {
            use_type_invariant(self);
        }
        bytes_as_slice(&self.bytes)
    }
}

impl Clone for BytesStr {
    /// The clone shares the same bytes: its byte view equals the source's.
    fn clone(&self) -> (r: Self)
        ensures
            r@ == self@,
    {
        proof {
            use_type_invariant(self);
        }
        BytesStr { bytes: bytes_clone(&self.bytes) }
    }
}

impl PartialEq for BytesStr {
    fn eq(&self, other: &Self) -> (r: bool) {
        slice_eq(bytes_as_slice(&self.bytes), bytes_as_slice(&other.bytes))
    }
}

impl vstd::std_specs::cmp::PartialEqSpecImpl for BytesStr {
    open spec fn obeys_eq_spec() -> bool {
        true
    }

    /// Two values are equal exactly when their payloads are equal.
    open spec fn eq_spec(&self, other: &Self) -> bool {
        self@ == other@
    }
}

impl Eq for BytesStr {

}

} // verus!
