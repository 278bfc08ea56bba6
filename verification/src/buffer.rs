//! The shareable byte buffer that captured bodies live in, and its text view.

use vstd::prelude::*;

verus! {

/// `bytes::Bytes` is the immutable, reference-counted byte buffer used to
/// hold a captured body, so that a captured response can be cloned and
/// shared cheaply.
#[verifier::external_type_specification]
#[verifier::external_body]
pub struct ExBytes(bytes::Bytes);

/// The byte contents of a buffer.
pub uninterp spec fn buf_contents(buf: bytes::Bytes) -> Seq<u8>;

/// The lossy UTF-8 decoding of a byte sequence: invalid sequences appear as
/// replacement characters. It depends on the bytes alone.
pub uninterp spec fn utf8_lossy(bytes: Seq<u8>) -> Seq<char>;

/// Relies on `bytes::Bytes::from` (its `impl From<Vec<u8>>`): the new buffer
/// holds exactly the vector's bytes.
#[verifier::external_body]
pub(crate) fn buf_from_vec(v: Vec<u8>) -> (buf: bytes::Bytes)
    ensures
        buf_contents(buf) == v@,
{
    bytes::Bytes::from(v)
}

/// Relies on `bytes::Bytes::as_ref` (its `impl AsRef<[u8]>`): the slice is
/// exactly the buffer's contents.
#[verifier::external_body]
pub(crate) fn buf_as_slice(buf: &bytes::Bytes) -> (s: &[u8])
    ensures
        s@ == buf_contents(*buf),
{
    buf.as_ref()
}

/// Relies on `bytes::Bytes::clone`: a clone is a shallow copy with the same
/// contents.
#[verifier::external_body]
pub(crate) fn buf_clone(buf: &bytes::Bytes) -> (r: bytes::Bytes)
    ensures
        buf_contents(r) == buf_contents(*buf),
{
    buf.clone()
}

/// Relies on `String::from_utf8_lossy`: the decoding never fails and depends
/// on the bytes alone; empty input decodes to the empty string.
#[verifier::external_body]
pub(crate) fn lossy_text(bytes: &[u8]) -> (r: String)
    ensures
        r@ == utf8_lossy(bytes@),
        bytes@.len() == 0 ==> r@.len() == 0,
{
    String::from_utf8_lossy(bytes).into_owned()
}

} // verus!
