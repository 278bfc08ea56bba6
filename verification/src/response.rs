//! The captured response: raw body bytes plus the disposition recorded at
//! capture time, with decoding deferred to the caller.

use vstd::prelude::*;

use crate::buffer::buf_as_slice;
use crate::buffer::buf_clone;
use crate::buffer::buf_contents;
use crate::buffer::buf_from_vec;
use crate::buffer::lossy_text;
use crate::buffer::utf8_lossy;
use crate::capture::Disposition;
use crate::json::decode;
use crate::json::error_message;
use crate::json::parse_value;
use crate::json::string_field_object;

verus! {

/// The mathematical model of a captured response: the body's bytes and the
/// disposition fixed at capture time.
pub ghost struct ResponseModel {
    pub body: Seq<u8>,
    pub disposition: Disposition,
}

/// Holds a raw response body, while remembering the desired shape of the
/// success (`T`) and failure (`E`) variants. The shapes are type-level only:
/// nothing of them is stored, they merely parameterize the typed decoding.
///
/// A value is built once, by a capture operation, from the body and the
/// disposition implied by the status code; it is immutable thereafter.
pub struct TypedResponse<T, E> {
    body: bytes::Bytes,
    disposition: Disposition,
    shapes: core::marker::PhantomData<(T, E)>,
}

impl<T, E> View for TypedResponse<T, E> {
    type V = ResponseModel;

    closed spec fn view(&self) -> ResponseModel {
        ResponseModel { body: buf_contents(self.body), disposition: self.disposition }
    }
}

impl<T, E> TypedResponse<T, E> {
    /// Build a captured response from its parts: the disposition computed
    /// from the status code, and the body retrieved exactly once from the
    /// transport.
    pub fn from_parts(disposition: Disposition, body: Vec<u8>) -> (r: Self)
        ensures
            r@.disposition == disposition,
            r@.body == body@,
    {
        TypedResponse {
            body: buf_from_vec(body),
            disposition: disposition,
            shapes: core::marker::PhantomData,
        }
    }

    /// Access the raw HTTP response body as bytes. Always available,
    /// whatever the disposition; never fails.
    pub fn bytes(&self) -> (r: &bytes::Bytes)
        ensures
            buf_contents(*r) == self@.body,
    {
        &self.body
    }

    /// Access the raw HTTP response body as text, by lossy UTF-8 decoding:
    /// invalid sequences come back as replacement characters; never fails.
    pub fn text(&self) -> (r: String)
        ensures
            r@ == utf8_lossy(self@.body),
    {
        lossy_text(buf_as_slice(&self.body))
    }

    /// Convert this response into `Result<serde_json::Value, serde_json::Value>`,
    /// where the `Ok` and `Err` channels follow the original HTTP status:
    /// `Ok` exactly when the disposition is `Success`. Never fails: when the
    /// body is not valid JSON by itself, the value degrades to a JSON object
    /// whose `"error"` field holds the parse error's message, placed in the
    /// channel matching the disposition.
    pub fn into_json(self) -> (r: Result<serde_json::Value, serde_json::Value>)
        ensures
            r is Ok <==> self@.disposition is Success,
    {
        let value = match parse_value(buf_as_slice(&self.body)) {
            Ok(parsed) => parsed,
            Err(error) => {
                let message = error_message(&error);
                string_field_object("error", message)
            },
        };
        match self.disposition {
            Disposition::Success => Ok(value),
            Disposition::Failure => Err(value),
        }
    }
}

impl<T, E> TypedResponse<T, E> where
    T: serde::de::DeserializeOwned,
    E: serde::de::DeserializeOwned + From<serde_json::Error>,
{
    /// Convert this response into `Result<T, E>`, where the `Ok` and `Err`
    /// channels follow the original HTTP status and the type parameters give
    /// the decoded shapes. A JSON deserialization error on either path is
    /// converted into `E`, so a `Failure` disposition always comes back on
    /// the `Err` channel and no raw deserialization error escapes.
    pub fn into_result(self) -> (r: Result<T, E>)
        ensures
            self@.disposition is Failure ==> r is Err,
    {
        match self.disposition {
            Disposition::Success => match decode::<T>(buf_as_slice(&self.body)) {
                Ok(value) => Ok(value),
                Err(error) => Err(E::from(error)),
            },
            Disposition::Failure => match decode::<E>(buf_as_slice(&self.body)) {
                Ok(value) => Err(value),
                Err(error) => Err(E::from(error)),
            },
        }
    }
}

impl<T, E> Clone for TypedResponse<T, E> {
    /// A clone captures the same body bytes and the same disposition.
    fn clone(&self) -> (r: Self)
        ensures
            r@ == self@,
    {
        TypedResponse {
            body: buf_clone(&self.body),
            disposition: self.disposition,
            shapes: core::marker::PhantomData,
        }
    }
}

/// Law: reading the raw body or the text of a captured response is
/// idempotent — any two reads of the same captured response yield identical
/// bytes, and identical text.
pub proof fn lemma_reads_idempotent(
    model: ResponseModel,
    body1: Seq<u8>,
    body2: Seq<u8>,
    text1: Seq<char>,
    text2: Seq<char>,
)
    requires
        body1 == model.body,
        body2 == model.body,
        text1 == utf8_lossy(model.body),
        text2 == utf8_lossy(model.body),
    ensures
        body1 == body2,
        text1 == text2,
{
}

} // verus!
