//! Exceptions of the API, and the envelope that they come in.
//!
//! A REST exception is wrapped in a SOAP-like fault envelope:
//! `{faultcode, faultstring, detail: {exceptionname: "X", X: {..fields..}}}`.
//! The exception's own fields stand at `detail.<exceptionname>`, not at the
//! root. A body that is no such envelope is the exception itself.

use vstd::prelude::*;

use crate::error::from_serde;
use crate::error::serde_outcome;
use crate::error::ApiError;
use crate::json::value_json;
use crate::json::Json;
use crate::json::JsonView;

verus! {

/// The tree that `serde_json::from_slice` reads from these bytes, or nothing
/// where they are not one JSON text.
pub uninterp spec fn json_parsed(bytes: Seq<u8>) -> Option<JsonView>;

/// Calls `serde_json::from_slice::<serde_json::Value>`: whether it succeeds, and
/// the tree that it then gives, depend on the bytes alone. Nothing is said of
/// the error.
#[verifier::external_body]
fn parse_value(bytes: &[u8]) -> (parsed: Result<serde_json::Value, serde_json::Error>)
    ensures
        match parsed {
            Ok(value) => json_parsed(bytes@) == Some(value_json(value)),
            Err(_) => json_parsed(bytes@) is None,
        },
{
    serde_json::from_slice::<serde_json::Value>(bytes)
}

/// The exception inside a fault envelope: the member of `detail` that
/// `detail.exceptionname` names. There is none where one of these is missing,
/// or where the name is not a string.
pub open spec fn enclosed_exception(envelope: JsonView) -> Option<JsonView> {
    match envelope.get("detail"@) {
        Some(detail) => match detail.get("exceptionname"@) {
            Some(name) => match name.as_str() {
                Some(name) => detail.get(name),
                None => None,
            },
            None => None,
        },
        None => None,
    }
}

/// Takes the exception out of its envelope.
pub fn unwrap_fault(envelope: Json) -> (exception: Option<Json>)
    ensures
        match exception {
            Some(inner) => enclosed_exception(envelope@) == Some(inner@),
            None => enclosed_exception(envelope@) is None,
        },
{
    let detail = match envelope.into_member("detail") {
        Some(detail) => detail,
        None => return None,
    };
    let name = match detail.get("exceptionname") {
        Some(name) => match name.as_str() {
            Some(name) => name.clone(),
            None => return None,
        },
        None => return None,
    };
    detail.into_member(name.as_str())
}

/// What is to be decoded as the exception.
#[derive(Debug)]
pub enum ErrorPayload {
    /// The tree that stood in the fault envelope.
    Enclosed(Json),
    /// The whole body.
    Body(Vec<u8>),
}

/// An [`ErrorPayload`] as a mathematical value.
pub enum ErrorPayloadView {
    Enclosed(JsonView),
    Body(Seq<u8>),
}

impl View for ErrorPayload {
    type V = ErrorPayloadView;

    open spec fn view(&self) -> ErrorPayloadView {
        match self {
            ErrorPayload::Enclosed(json) => ErrorPayloadView::Enclosed(json@),
            ErrorPayload::Body(bytes) => ErrorPayloadView::Body(bytes@),
        }
    }
}

/// What is to be decoded as the exception, of a body that reads as `parsed`.
pub open spec fn chosen_payload(parsed: Option<JsonView>, body: Seq<u8>) -> ErrorPayloadView {
    match parsed {
        Some(envelope) => match enclosed_exception(envelope) {
            Some(inner) => ErrorPayloadView::Enclosed(inner),
            None => ErrorPayloadView::Body(body),
        },
        None => ErrorPayloadView::Body(body),
    }
}

/// Chooses what is to be decoded as the exception: the inside of the fault
/// envelope where `parsed` is one, else the whole body.
pub fn choose_payload(parsed: Option<Json>, body: Vec<u8>) -> (payload: ErrorPayload)
    ensures
        payload@ == chosen_payload(
            match parsed {
                Some(envelope) => Some(envelope@),
                None => None,
            },
            body@,
        ),
{
    match parsed {
        Some(envelope) => match unwrap_fault(envelope) {
            Some(inner) => ErrorPayload::Enclosed(inner),
            None => ErrorPayload::Body(body),
        },
        None => ErrorPayload::Body(body),
    }
}

/// What is to be decoded as the exception, of a body.
pub open spec fn payload_of(body: Seq<u8>) -> ErrorPayloadView {
    chosen_payload(json_parsed(body), body)
}

/// Finds in the body of an unsuccessful answer what is to be decoded as the
/// exception.
pub fn error_payload(body: Vec<u8>) -> (payload: ErrorPayload)
    ensures
        payload@ == payload_of(body@),
{
    let parsed = match parse_value(body.as_slice()) {
        Ok(value) => Some(Json::from_value(value)),
        Err(_) => None,
    };
    choose_payload(parsed, body)
}

/// `outcome` is what `decode` made of the exception in this body.
pub open spec fn exception_decoded<E, D: FnOnce(ErrorPayload) -> Result<E, serde_json::Error>>(
    decode: D,
    body: Seq<u8>,
    outcome: Result<E, ApiError>,
) -> bool {
    exists|payload: ErrorPayload, decoded: Result<E, serde_json::Error>|
        payload@ == payload_of(body) && #[trigger] call_ensures(decode, (payload,), decoded)
            && outcome == serde_outcome(decoded)
}

/// Reads the exception out of the body of an unsuccessful answer.
///
/// `decode` reads an `E` from the part of the body that holds it.
pub fn parse_betfair_error<E, D: FnOnce(ErrorPayload) -> Result<E, serde_json::Error>>(
    body: Vec<u8>,
    decode: D,
) -> (outcome: Result<E, ApiError>)
    requires
        forall|payload: ErrorPayload| call_requires(decode, (payload,)),
    ensures
        exception_decoded(decode, body@, outcome),
{
    let payload = error_payload(body);
    from_serde(decode(payload))
}

/// An exception in a fault envelope is never lost: what is decoded is the member
/// of `detail` that `detail.exceptionname` names, whatever else the envelope
/// holds.
pub proof fn enclosed_exception_is_decoded(
    envelope: JsonView,
    detail: JsonView,
    name: Seq<char>,
    inner: JsonView,
    body: Seq<u8>,
)
    requires
        envelope.get("detail"@) == Some(detail),
        detail.get("exceptionname"@) == Some(JsonView::Str(name)),
        detail.get(name) == Some(inner),
    ensures
        chosen_payload(Some(envelope), body) == ErrorPayloadView::Enclosed(inner),
{
}

/// A body that is no fault envelope is decoded whole: one that is not JSON; one
/// without a `detail`; one whose `detail` has no `exceptionname` that is a
/// string; and one whose `detail` lacks the member of that name.
pub proof fn bare_body_is_decoded_whole(parsed: Option<JsonView>, body: Seq<u8>)
    requires
        parsed matches Some(envelope) ==> {
            ||| envelope.get("detail"@) is None
            ||| envelope.get("detail"@)->0.get("exceptionname"@) is None
            ||| envelope.get("detail"@)->0.get("exceptionname"@)->0.as_str() is None
            ||| envelope.get("detail"@)->0.get(
                envelope.get("detail"@)->0.get("exceptionname"@)->0.as_str()->0,
            ) is None
        },
    ensures
        chosen_payload(parsed, body) == ErrorPayloadView::Body(body),
{
}

/// A body that is a fault envelope is read by what stands at
/// `detail.<exceptionname>`: whatever the bytes are, if they read as an object
/// whose `detail` is an object, and that has under `exceptionname` a string and
/// under this string a member, then this member is what is decoded.
pub proof fn exception_of_an_envelope_is_found(
    body: Seq<u8>,
    envelope: Map<Seq<char>, JsonView>,
    detail: Map<Seq<char>, JsonView>,
    name: Seq<char>,
)
    requires
        json_parsed(body) == Some(JsonView::Object(envelope)),
        envelope.contains_key("detail"@),
        envelope["detail"@] == JsonView::Object(detail),
        detail.contains_key("exceptionname"@),
        detail["exceptionname"@] == JsonView::Str(name),
        detail.contains_key(name),
    ensures
        payload_of(body) == ErrorPayloadView::Enclosed(detail[name]),
{
}

/// Nothing else is taken for a fault envelope: a body is decoded whole, and as it
/// is, unless it reads as an object in which all of that stands.
pub proof fn what_is_no_envelope_is_decoded_whole(body: Seq<u8>)
    ensures
        payload_of(body) != ErrorPayloadView::Body(body) ==> {
            &&& json_parsed(body) is Some
            &&& json_parsed(body)->0 is Object
            &&& json_parsed(body)->0->Object_0.contains_key("detail"@)
            &&& json_parsed(body)->0->Object_0["detail"@] matches JsonView::Object(detail)
            &&& detail.contains_key("exceptionname"@)
            &&& detail["exceptionname"@] matches JsonView::Str(name)
            &&& detail.contains_key(name)
        },
{
}

/// What is chosen to be decoded depends on the body by what it reads as, and by
/// nothing else: two bodies that read as the same tree have the same exception
/// enclosed in them, or neither has one.
pub proof fn spelling_of_an_envelope_does_not_matter(one: Seq<u8>, other: Seq<u8>)
    requires
        json_parsed(one) == json_parsed(other),
    ensures
        payload_of(one) == payload_of(other) || (payload_of(one) == ErrorPayloadView::Body(one)
            && payload_of(other) == ErrorPayloadView::Body(other)),
{
}

/// An exception is decoded from the payload of the body and from nothing else:
/// what the decoder makes of it is the exception, and where the decoder fails,
/// its error is told.
pub proof fn exception_is_what_the_decoder_makes<
    E,
    D: FnOnce(ErrorPayload) -> Result<E, serde_json::Error>,
>(decode: D, body: Seq<u8>, outcome: Result<E, ApiError>)
    ensures
        exception_decoded(decode, body, outcome) <==> exists|
            payload: ErrorPayload,
            decoded: Result<E, serde_json::Error>,
        |
            #[trigger] call_ensures(decode, (payload,), decoded) && payload@ == payload_of(body)
                && match decoded {
                Ok(exception) => outcome == Ok::<E, ApiError>(exception),
                Err(err) => outcome == Err::<E, ApiError>(ApiError::SerdeError(err)),
            },
{
    if exception_decoded(decode, body, outcome) {
        let (payload, decoded) = choose|
            payload: ErrorPayload,
            decoded: Result<E, serde_json::Error>,
        |
            payload@ == payload_of(body) && #[trigger] call_ensures(decode, (payload,), decoded)
                && outcome == serde_outcome(decoded);
        assert(call_ensures(decode, (payload,), decoded));
    }
}

}
