//! Answers of the API, and what they come to.
//!
//! An answer is received in steps: first its status, then, where the status
//! asks for it, its body. Each step is a function from what was received to what
//! is to be received next, or to the outcome.

use core::marker::PhantomData;

use vstd::prelude::*;

use crate::error::from_serde;
use crate::error::serde_outcome;
use crate::error::ApiError;
use crate::error::SendError;
use crate::fault::exception_decoded;
use crate::fault::parse_betfair_error;
use crate::fault::payload_of;
use crate::fault::ErrorPayload;
use crate::http::is_error;
use crate::http::is_status;
use crate::http::is_success;
use crate::http::status_is_client_error;
use crate::http::status_is_server_error;
use crate::http::status_is_success;

verus! {

/// Waits for the answer to a request that was handed out to be sent.
pub struct PendingResponse<T, E> {
    result: PhantomData<T>,
    err: PhantomData<E>,
}

impl<T, E> PendingResponse<T, E> {
    pub(crate) fn new() -> PendingResponse<T, E> {
        PendingResponse { result: PhantomData, err: PhantomData }
    }

    /// Takes what sending gave: the status of the answer, or why there is none.
    pub fn complete(self, sent: Result<u16, reqwest::Error>) -> (response: Result<
        BetfairResponse<T, E>,
        ApiError,
    >)
        requires
            sent matches Ok(status) ==> is_status(status),
        ensures
            match sent {
                Ok(status) => response is Ok && response->Ok_0.status() == status,
                Err(err) => response == Err::<BetfairResponse<T, E>, ApiError>(
                    ApiError::ReqwestError(err),
                ),
            },
    {
        match sent {
            Ok(status) => Ok(BetfairResponse { status, result: PhantomData, err: PhantomData }),
            Err(err) => Err(ApiError::ReqwestError(err)),
        }
    }
}

/// An answer of which the status has been received, and the body not yet.
#[derive(Debug)]
pub struct BetfairResponse<T, E> {
    status: u16,
    result: PhantomData<T>,
    err: PhantomData<E>,
}

/// What a body that was read as an exception comes to, where a `T` was asked
/// for.
pub open spec fn exceptional<T, E>(read: Result<E, ApiError>) -> Result<Result<T, E>, ApiError> {
    match read {
        Ok(exception) => Ok(Err(exception)),
        Err(err) => Err(err),
    }
}

/// What decoding a successful body comes to.
pub open spec fn successful<T, E>(decoded: Result<T, serde_json::Error>) -> Result<
    Result<T, E>,
    ApiError,
> {
    match serde_outcome(decoded) {
        Ok(value) => Ok(Ok(value)),
        Err(err) => Err(err),
    }
}

/// `outcome` is what an unsuccessful answer with this body comes to, where a `T`
/// was asked for.
pub open spec fn failure_outcome<T, E, D: FnOnce(ErrorPayload) -> Result<E, serde_json::Error>>(
    body: Result<Vec<u8>, reqwest::Error>,
    decode_error: D,
    outcome: Result<Result<T, E>, ApiError>,
) -> bool {
    match body {
        Ok(bytes) => exists|read: Result<E, ApiError>|
            #[trigger] exception_decoded(decode_error, bytes@, read) && outcome == exceptional::<
                T,
                E,
            >(read),
        Err(err) => outcome == Err::<Result<T, E>, ApiError>(ApiError::ReqwestError(err)),
    }
}

/// `outcome` is what an answer with this status and body comes to, where the
/// whole of it was asked for.
pub open spec fn json_outcome<
    T,
    E,
    F: FnOnce(Vec<u8>) -> Result<T, serde_json::Error>,
    D: FnOnce(ErrorPayload) -> Result<E, serde_json::Error>,
>(
    status: u16,
    body: Result<Vec<u8>, reqwest::Error>,
    decode: F,
    decode_error: D,
    outcome: Result<Result<T, E>, ApiError>,
) -> bool {
    if is_success(status) {
        match body {
            Ok(bytes) => exists|decoded: Result<T, serde_json::Error>|
                #[trigger] call_ensures(decode, (bytes,), decoded) && outcome == successful::<T, E>(
                    decoded,
                ),
            Err(err) => outcome == Err::<Result<T, E>, ApiError>(ApiError::ReqwestError(err)),
        }
    } else {
        failure_outcome(body, decode_error, outcome)
    }
}

/// What an answer with this status comes to, where only that was asked.
pub open spec fn ok_outcome(status: u16) -> Result<(), ApiError> {
    if is_error(status) {
        Err(ApiError::HttpStatus(status))
    } else {
        Ok(())
    }
}

impl<T, E> BetfairResponse<T, E> {
    /// The status of the answer.
    pub closed spec fn status(self) -> u16 {
        self.status
    }

    #[verifier::type_invariant]
    closed spec fn well_formed(self) -> bool {
        is_status(self.status)
    }

    /// Only tells whether the status is that of an error; the body is not read.
    pub fn ok(self) -> (outcome: Result<(), ApiError>)
        ensures
            outcome == ok_outcome(self.status()),
    {
        proof {
            use_type_invariant(&self);
        }
        if status_is_client_error(self.status) || status_is_server_error(self.status) {
            Err(ApiError::HttpStatus(self.status))
        } else {
            Ok(())
        }
    }

    /// Asks for the exception of an unsuccessful answer. Of a successful answer
    /// nothing is asked, and its body is not to be read.
    pub fn json_err(self) -> (step: Option<FailedResponse<E>>)
        ensures
            step is None <==> is_success(self.status()),
    {
        proof {
            use_type_invariant(&self);
        }
        if status_is_success(self.status) {
            None
        } else {
            Some(FailedResponse { err: PhantomData })
        }
    }

    /// Reads the whole answer, of which this is the body or why there is none.
    ///
    /// `decode` reads a `T` from the body of a successful answer, and
    /// `decode_error` an `E` from the part of an unsuccessful one that holds it.
    pub fn json<
        F: FnOnce(Vec<u8>) -> Result<T, serde_json::Error>,
        D: FnOnce(ErrorPayload) -> Result<E, serde_json::Error>,
    >(
        self,
        body: Result<Vec<u8>, reqwest::Error>,
        decode: F,
        decode_error: D,
    ) -> (outcome: Result<Result<T, E>, ApiError>)
        requires
            forall|bytes: Vec<u8>| call_requires(decode, (bytes,)),
            forall|payload: ErrorPayload| call_requires(decode_error, (payload,)),
        ensures
            json_outcome(self.status(), body, decode, decode_error, outcome),
    {
        proof {
            use_type_invariant(&self);
        }
        let bytes = match body {
            Ok(bytes) => bytes,
            Err(err) => return Err(ApiError::ReqwestError(err)),
        };
        if status_is_success(self.status) {
            match from_serde(decode(bytes)) {
                Ok(value) => Ok(Ok(value)),
                Err(err) => Err(err),
            }
        } else {
            match parse_betfair_error(bytes, decode_error) {
                Ok(exception) => Ok(Err(exception)),
                Err(err) => Err(err),
            }
        }
    }

    /// Tells how the answer to a request that was sent is to be read on: as text
    /// where it is successful, else as bytes.
    pub fn answer(self) -> (answer: Answer<T, E>)
        ensures
            answer is Success <==> is_success(self.status()),
    {
        proof {
            use_type_invariant(&self);
        }
        if status_is_success(self.status) {
            Answer::Success(SuccessfulResponse { result: PhantomData })
        } else {
            Answer::Failure(FailedResponse { err: PhantomData })
        }
    }
}

/// An answer, by what its status tells.
pub enum Answer<T, E> {
    /// The body is to be read as text.
    Success(SuccessfulResponse<T>),
    /// The body is to be read as bytes.
    Failure(FailedResponse<E>),
}

/// A successful answer, of which the text is to be read.
pub struct SuccessfulResponse<T> {
    result: PhantomData<T>,
}

/// An unsuccessful answer, of which the bytes are to be read.
pub struct FailedResponse<E> {
    err: PhantomData<E>,
}

/// A character with the Unicode property `White_Space`.
pub open spec fn is_white_space(c: char) -> bool {
    ||| 0x9 <= c as int <= 0xd
    ||| c as int == 0x20
    ||| c as int == 0x85
    ||| c as int == 0xa0
    ||| c as int == 0x1680
    ||| 0x2000 <= c as int <= 0x200a
    ||| c as int == 0x2028
    ||| c as int == 0x2029
    ||| c as int == 0x202f
    ||| c as int == 0x205f
    ||| c as int == 0x3000
}

/// All of the text is white space.
pub open spec fn is_blank(text: Seq<char>) -> bool {
    forall|i: int| 0 <= i < text.len() ==> is_white_space(#[trigger] text[i])
}

/// `inner` is `text` without the white space at its two ends.
pub open spec fn is_trimmed(text: Seq<char>, inner: Seq<char>) -> bool {
    &&& exists|before: Seq<char>, after: Seq<char>|
        is_blank(before) && is_blank(after) && text == #[trigger] (before + inner + after)
    &&& inner.len() > 0 ==> !is_white_space(inner[0]) && !is_white_space(inner[inner.len() - 1])
}

/// `trim` of `str`: takes the white space off both ends.
pub assume_specification[ str::trim ](text: &str) -> (inner: &str)
    ensures
        is_trimmed(text@, inner@),
;

/// What trims to nothing is blank, and nothing else is.
proof fn lemma_blank_trims_to_nothing(text: Seq<char>, inner: Seq<char>)
    requires
        is_trimmed(text, inner),
    ensures
        inner.len() == 0 <==> is_blank(text),
{
    let (before, after) = choose|before: Seq<char>, after: Seq<char>|
        is_blank(before) && is_blank(after) && text == #[trigger] (before + inner + after);
    if inner.len() == 0 {
        assert forall|i: int| 0 <= i < text.len() implies is_white_space(#[trigger] text[i]) by {
            if i < before.len() {
                assert(text[i] == before[i]);
            } else {
                assert(text[i] == after[i - before.len()]);
            }
        }
    } else {
        assert(text[before.len() as int] == inner[0]);
    }
}

/// `outcome` is what a successful answer with this text comes to.
pub open spec fn text_outcome<T, F: FnOnce(String) -> Result<T, serde_json::Error>>(
    text: Result<String, reqwest::Error>,
    decode: F,
    outcome: Result<T, ApiError>,
) -> bool {
    match text {
        Ok(text) => if is_blank(text@) {
            outcome == Err::<T, ApiError>(ApiError::EmptyResponse)
        } else {
            exists|decoded: Result<T, serde_json::Error>|
                #[trigger] call_ensures(decode, (text,), decoded) && outcome == serde_outcome(
                    decoded,
                )
        },
        Err(err) => outcome == Err::<T, ApiError>(ApiError::ReqwestError(err)),
    }
}

impl<T> SuccessfulResponse<T> {
    /// Reads the answer, of which this is the text or why there is none.
    ///
    /// `decode` reads a `T` from a text that is not blank.
    pub fn result<F: FnOnce(String) -> Result<T, serde_json::Error>>(
        self,
        text: Result<String, reqwest::Error>,
        decode: F,
    ) -> (outcome: Result<T, ApiError>)
        requires
            forall|text: String| call_requires(decode, (text,)),
        ensures
            text_outcome(text, decode, outcome),
    {
        let text = match text {
            Ok(text) => text,
            Err(err) => return Err(ApiError::ReqwestError(err)),
        };
        let inner = text.as_str().trim();
        proof {
            lemma_blank_trims_to_nothing(text@, inner@);
        }
        if inner.is_empty() {
            return Err(ApiError::EmptyResponse);
        }
        from_serde(decode(text))
    }
}

/// What a body that was read as an exception is raised as.
pub open spec fn raised_as<E>(read: Result<E, ApiError>) -> SendError<E> {
    match read {
        Ok(exception) => SendError::Exception(exception),
        Err(err) => SendError::Api(err),
    }
}

/// `raised` is the error of a request whose answer is unsuccessful and has this
/// body.
pub open spec fn raise_outcome<E, D: FnOnce(ErrorPayload) -> Result<E, serde_json::Error>>(
    body: Result<Vec<u8>, reqwest::Error>,
    decode_error: D,
    raised: SendError<E>,
) -> bool {
    match body {
        Ok(bytes) => exists|read: Result<E, ApiError>|
            #[trigger] exception_decoded(decode_error, bytes@, read) && raised == raised_as(read),
        Err(err) => raised == SendError::<E>::Api(ApiError::ReqwestError(err)),
    }
}

/// `outcome` is what a request that was sent comes to, whose answer has this
/// status and is read as this text where it is successful, else as this body.
pub open spec fn send_outcome<
    T,
    E,
    F: FnOnce(String) -> Result<T, serde_json::Error>,
    D: FnOnce(ErrorPayload) -> Result<E, serde_json::Error>,
>(
    status: u16,
    text: Result<String, reqwest::Error>,
    body: Result<Vec<u8>, reqwest::Error>,
    decode: F,
    decode_error: D,
    outcome: Result<T, SendError<E>>,
) -> bool {
    if is_success(status) {
        match outcome {
            Ok(value) => text_outcome(text, decode, Ok(value)),
            Err(SendError::Api(err)) => text_outcome(text, decode, Err(err)),
            Err(SendError::Exception(_)) => false,
        }
    } else {
        match outcome {
            Ok(_) => false,
            Err(raised) => raise_outcome(body, decode_error, raised),
        }
    }
}

impl<E> FailedResponse<E> {
    /// Reads the exception, of which this is the body or why there is none.
    ///
    /// `decode_error` reads an `E` from the part of the body that holds it.
    pub fn json_err<D: FnOnce(ErrorPayload) -> Result<E, serde_json::Error>>(
        self,
        body: Result<Vec<u8>, reqwest::Error>,
        decode_error: D,
    ) -> (outcome: Result<Result<(), E>, ApiError>)
        requires
            forall|payload: ErrorPayload| call_requires(decode_error, (payload,)),
        ensures
            failure_outcome(body, decode_error, outcome),
    {
        match body {
            Ok(bytes) => match parse_betfair_error(bytes, decode_error) {
                Ok(exception) => Ok(Err(exception)),
                Err(err) => Err(err),
            },
            Err(err) => Err(ApiError::ReqwestError(err)),
        }
    }

    /// Raises the exception, of which this is the body or why there is none, as
    /// the error of the request that was sent.
    ///
    /// `decode_error` reads an `E` from the part of the body that holds it.
    pub fn raise<D: FnOnce(ErrorPayload) -> Result<E, serde_json::Error>>(
        self,
        body: Result<Vec<u8>, reqwest::Error>,
        decode_error: D,
    ) -> (raised: SendError<E>)
        requires
            forall|payload: ErrorPayload| call_requires(decode_error, (payload,)),
        ensures
            raise_outcome(body, decode_error, raised),
    {
        match body {
            Ok(bytes) => match parse_betfair_error(bytes, decode_error) {
                Ok(exception) => SendError::Exception(exception),
                Err(err) => SendError::Api(err),
            },
            Err(err) => SendError::Api(ApiError::ReqwestError(err)),
        }
    }
}

/// [`BetfairResponse::ok`] and [`BetfairResponse::json_err`] on one answer: where
/// there is no exception to be read, `ok` finds no error; where `ok` finds one,
/// there is an exception to be read. They differ on the statuses that tell
/// neither of success nor of an error, and on no others: an exception is to be
/// read then, though `ok` finds no error.
pub proof fn ok_and_json_err_agree<T, E>(
    response: BetfairResponse<T, E>,
    checked: Result<(), ApiError>,
    step: Option<FailedResponse<E>>,
)
    requires
        checked == ok_outcome(response.status()),
        step is None <==> is_success(response.status()),
    ensures
        step is None ==> checked == Ok::<(), ApiError>(()),
        checked is Err ==> step is Some,
        (step is Some && checked is Ok) <==> !is_success(response.status()) && !is_error(
            response.status(),
        ),
{
}

/// What the text of a successful answer came to, as what the request that was
/// sent comes to.
pub open spec fn text_as_sent<T, E>(read: Result<T, ApiError>) -> Result<T, SendError<E>> {
    match read {
        Ok(value) => Ok(value),
        Err(err) => Err(SendError::Api(err)),
    }
}

/// To read the answer to a request that was sent step by step comes to
/// [`send_outcome`], and to all of it: what [`SuccessfulResponse::result`] gives
/// of an [`Answer::Success`] and what [`FailedResponse::raise`] gives of an
/// [`Answer::Failure`] are the outcomes for that status, and there are no others
/// of their form.
pub proof fn answer_comes_to_send_outcome<
    T,
    E,
    F: FnOnce(String) -> Result<T, serde_json::Error>,
    D: FnOnce(ErrorPayload) -> Result<E, serde_json::Error>,
>(
    response: BetfairResponse<T, E>,
    answer: Answer<T, E>,
    text: Result<String, reqwest::Error>,
    body: Result<Vec<u8>, reqwest::Error>,
    decode: F,
    decode_error: D,
    read: Result<T, ApiError>,
    raised: SendError<E>,
)
    requires
        answer is Success <==> is_success(response.status()),
    ensures
        answer is Success ==> (text_outcome(text, decode, read) <==> send_outcome(
            response.status(),
            text,
            body,
            decode,
            decode_error,
            text_as_sent::<T, E>(read),
        )),
        answer is Failure ==> (raise_outcome(body, decode_error, raised) <==> send_outcome(
            response.status(),
            text,
            body,
            decode,
            decode_error,
            Err::<T, SendError<E>>(raised),
        )),
{
}

/// To read the whole of an unsuccessful answer comes to an exception, or to an
/// error, in exactly the cases in which asking for the exception alone does.
pub proof fn json_and_json_err_agree<
    T,
    E,
    F: FnOnce(Vec<u8>) -> Result<T, serde_json::Error>,
    D: FnOnce(ErrorPayload) -> Result<E, serde_json::Error>,
>(
    status: u16,
    body: Result<Vec<u8>, reqwest::Error>,
    decode: F,
    decode_error: D,
    read: Result<E, ApiError>,
)
    requires
        !is_success(status),
    ensures
        json_outcome(status, body, decode, decode_error, exceptional::<T, E>(read))
            <==> failure_outcome(body, decode_error, exceptional::<(), E>(read)),
{
    if let Ok(bytes) = body {
        if json_outcome(status, body, decode, decode_error, exceptional::<T, E>(read)) {
            let other = choose|other: Result<E, ApiError>|
                #[trigger] exception_decoded(decode_error, bytes@, other) && exceptional::<T, E>(
                    read,
                ) == exceptional::<T, E>(other);
            assert(other == read);
        }
        if failure_outcome(body, decode_error, exceptional::<(), E>(read)) {
            let other = choose|other: Result<E, ApiError>|
                #[trigger] exception_decoded(decode_error, bytes@, other) && exceptional::<(), E>(
                    read,
                ) == exceptional::<(), E>(other);
            assert(other == read);
        }
    }
}

/// What the whole of an answer came to, as what a request that was sent comes
/// to: the value, or the exception or other error as the request's error.
pub open spec fn as_sent<T, E>(whole: Result<Result<T, E>, ApiError>) -> Result<T, SendError<E>> {
    match whole {
        Ok(Ok(value)) => Ok(value),
        Ok(Err(exception)) => Err(SendError::Exception(exception)),
        Err(err) => Err(SendError::Api(err)),
    }
}

/// The text and the body are those of one answer, as far as the two decoders can
/// tell: neither could be received, for the same reason, or each decoder makes
/// of its own what the other makes of the other.
pub open spec fn read_alike<
    T,
    F: FnOnce(String) -> Result<T, serde_json::Error>,
    G: FnOnce(Vec<u8>) -> Result<T, serde_json::Error>,
>(
    text: Result<String, reqwest::Error>,
    body: Result<Vec<u8>, reqwest::Error>,
    decode_text: F,
    decode: G,
) -> bool {
    match (text, body) {
        (Ok(text), Ok(bytes)) => forall|decoded: Result<T, serde_json::Error>|
            #![trigger call_ensures(decode_text, (text,), decoded)]
            #![trigger call_ensures(decode, (bytes,), decoded)]
            call_ensures(decode_text, (text,), decoded) <==> call_ensures(
                decode,
                (bytes,),
                decoded,
            ),
        (Err(one), Err(other)) => one == other,
        _ => false,
    }
}

/// To send a request comes to the same as to build it, execute it and read the
/// whole of its answer with [`BetfairResponse::json`]: on an answer of one status
/// and body, the one comes to an outcome exactly where the other does. The only
/// answer that is set apart is a successful one of nothing but white space.
pub proof fn sent_and_json_agree<
    T,
    E,
    F: FnOnce(String) -> Result<T, serde_json::Error>,
    G: FnOnce(Vec<u8>) -> Result<T, serde_json::Error>,
    D: FnOnce(ErrorPayload) -> Result<E, serde_json::Error>,
>(
    status: u16,
    text: Result<String, reqwest::Error>,
    body: Result<Vec<u8>, reqwest::Error>,
    decode_text: F,
    decode: G,
    decode_error: D,
    whole: Result<Result<T, E>, ApiError>,
)
    requires
        is_success(status) ==> read_alike(text, body, decode_text, decode),
        !(is_success(status) && text is Ok && is_blank(text->Ok_0@)),
    ensures
        json_outcome(status, body, decode, decode_error, whole) <==> send_outcome(
            status,
            text,
            body,
            decode_text,
            decode_error,
            as_sent(whole),
        ),
{
    if is_success(status) {
        if let (Ok(text), Ok(bytes)) = (text, body) {
            if json_outcome(status, body, decode, decode_error, whole) {
                let decoded = choose|decoded: Result<T, serde_json::Error>|
                    #[trigger] call_ensures(decode, (bytes,), decoded) && whole == successful::<
                        T,
                        E,
                    >(decoded);
                assert(call_ensures(decode_text, (text,), decoded));
            }
            if send_outcome(status, Ok(text), body, decode_text, decode_error, as_sent(whole)) {
                let decoded = choose|decoded: Result<T, serde_json::Error>|
                    #[trigger] call_ensures(decode_text, (text,), decoded) && as_sent(whole)
                        == as_sent(successful::<T, E>(decoded));
                assert(call_ensures(decode, (bytes,), decoded));
            }
        }
    } else {
        if let Ok(bytes) = body {
            if json_outcome(status, body, decode, decode_error, whole) {
                let read = choose|read: Result<E, ApiError>|
                    #[trigger] exception_decoded(decode_error, bytes@, read) && whole
                        == exceptional::<T, E>(read);
                assert(as_sent(whole) == Err::<T, SendError<E>>(raised_as(read)));
            }
            if send_outcome(status, text, body, decode_text, decode_error, as_sent(whole)) {
                let read = choose|read: Result<E, ApiError>|
                    #[trigger] exception_decoded(decode_error, bytes@, read) && as_sent(whole)
                        == Err::<T, SendError<E>>(raised_as(read));
                assert(whole == exceptional::<T, E>(read));
            }
        }
    }
}

/// A status tells of an error to [`BetfairResponse::ok`] just where it is one of
/// 400 to 599, and that status is then told. An exception is to be read just where
/// it is not one of 200 to 299.
pub proof fn status_decides<T, E>(
    response: BetfairResponse<T, E>,
    checked: Result<(), ApiError>,
    step: Option<FailedResponse<E>>,
    answer: Answer<T, E>,
)
    requires
        checked == ok_outcome(response.status()),
        step is None <==> is_success(response.status()),
        answer is Success <==> is_success(response.status()),
    ensures
        400 <= response.status() <= 599 ==> checked == Err::<(), ApiError>(
            ApiError::HttpStatus(response.status()),
        ),
        response.status() < 400 || response.status() > 599 ==> checked == Ok::<(), ApiError>(()),
        200 <= response.status() <= 299 <==> step is None,
        200 <= response.status() <= 299 <==> answer is Success,
{
}

/// An answer that was not received is an error, whatever its status, and never a
/// value or an exception: the reason is told.
pub proof fn lost_answer_is_told<
    T,
    E,
    F: FnOnce(Vec<u8>) -> Result<T, serde_json::Error>,
    G: FnOnce(String) -> Result<T, serde_json::Error>,
    D: FnOnce(ErrorPayload) -> Result<E, serde_json::Error>,
>(
    status: u16,
    err: reqwest::Error,
    decode: F,
    decode_text: G,
    decode_error: D,
    whole: Result<Result<T, E>, ApiError>,
    exception: Result<Result<(), E>, ApiError>,
    read: Result<T, ApiError>,
    raised: SendError<E>,
)
    ensures
        json_outcome(status, Err(err), decode, decode_error, whole) <==> whole == Err::<
            Result<T, E>,
            ApiError,
        >(ApiError::ReqwestError(err)),
        failure_outcome(Err(err), decode_error, exception) <==> exception == Err::<
            Result<(), E>,
            ApiError,
        >(ApiError::ReqwestError(err)),
        text_outcome(Err(err), decode_text, read) <==> read == Err::<T, ApiError>(
            ApiError::ReqwestError(err),
        ),
        raise_outcome(Err(err), decode_error, raised) <==> raised == SendError::<E>::Api(
            ApiError::ReqwestError(err),
        ),
{
}

/// The whole of an answer with a status of 200 to 299 is what the decoder makes of
/// its body: a value that it makes is given, and where it fails, its error.
pub proof fn successful_body_is_decoded<
    T,
    E,
    F: FnOnce(Vec<u8>) -> Result<T, serde_json::Error>,
    D: FnOnce(ErrorPayload) -> Result<E, serde_json::Error>,
>(
    status: u16,
    body: Vec<u8>,
    decode: F,
    decode_error: D,
    outcome: Result<Result<T, E>, ApiError>,
)
    requires
        200 <= status <= 299,
        json_outcome(status, Ok(body), decode, decode_error, outcome),
    ensures
        exists|decoded: Result<T, serde_json::Error>|
            #[trigger] call_ensures(decode, (body,), decoded) && match decoded {
                Ok(value) => outcome == Ok::<Result<T, E>, ApiError>(Ok(value)),
                Err(err) => outcome == Err::<Result<T, E>, ApiError>(ApiError::SerdeError(err)),
            },
{
}

/// The whole of an answer with any other status is what the decoder makes of the
/// exception in its body: one that it makes is given as an exception, never as a
/// value, and where it fails, its error is told.
pub proof fn exception_is_given_as_one<
    T,
    E,
    F: FnOnce(Vec<u8>) -> Result<T, serde_json::Error>,
    D: FnOnce(ErrorPayload) -> Result<E, serde_json::Error>,
>(
    status: u16,
    body: Vec<u8>,
    decode: F,
    decode_error: D,
    outcome: Result<Result<T, E>, ApiError>,
)
    requires
        status < 200 || status > 299,
        json_outcome(status, Ok(body), decode, decode_error, outcome),
    ensures
        exists|payload: ErrorPayload, decoded: Result<E, serde_json::Error>|
            #[trigger] call_ensures(decode_error, (payload,), decoded) && payload@ == payload_of(
                body@,
            ) && match decoded {
                Ok(exception) => outcome == Ok::<Result<T, E>, ApiError>(Err(exception)),
                Err(err) => outcome == Err::<Result<T, E>, ApiError>(ApiError::SerdeError(err)),
            },
{
    let read = choose|read: Result<E, ApiError>|
        #[trigger] exception_decoded(decode_error, body@, read) && outcome == exceptional::<T, E>(
            read,
        );
    let (payload, decoded) = choose|payload: ErrorPayload, decoded: Result<E, serde_json::Error>|
        payload@ == payload_of(body@) && #[trigger] call_ensures(decode_error, (payload,), decoded)
            && read == serde_outcome(decoded);
    assert(call_ensures(decode_error, (payload,), decoded));
}

/// The exception that is asked for alone is what the decoder makes of it.
pub proof fn exception_is_read_alone<E, D: FnOnce(ErrorPayload) -> Result<E, serde_json::Error>>(
    body: Vec<u8>,
    decode_error: D,
    outcome: Result<Result<(), E>, ApiError>,
)
    requires
        failure_outcome(Ok(body), decode_error, outcome),
    ensures
        exists|payload: ErrorPayload, decoded: Result<E, serde_json::Error>|
            #[trigger] call_ensures(decode_error, (payload,), decoded) && payload@ == payload_of(
                body@,
            ) && match decoded {
                Ok(exception) => outcome == Ok::<Result<(), E>, ApiError>(Err(exception)),
                Err(err) => outcome == Err::<Result<(), E>, ApiError>(ApiError::SerdeError(err)),
            },
{
    let read = choose|read: Result<E, ApiError>|
        #[trigger] exception_decoded(decode_error, body@, read) && outcome == exceptional::<(), E>(
            read,
        );
    let (payload, decoded) = choose|payload: ErrorPayload, decoded: Result<E, serde_json::Error>|
        payload@ == payload_of(body@) && #[trigger] call_ensures(decode_error, (payload,), decoded)
            && read == serde_outcome(decoded);
    assert(call_ensures(decode_error, (payload,), decoded));
}

/// The error that a request is raised with is what the decoder makes of the
/// exception: one that it makes is raised as such, and where it fails, its error.
pub proof fn exception_is_raised<E, D: FnOnce(ErrorPayload) -> Result<E, serde_json::Error>>(
    body: Vec<u8>,
    decode_error: D,
    raised: SendError<E>,
)
    requires
        raise_outcome(Ok(body), decode_error, raised),
    ensures
        exists|payload: ErrorPayload, decoded: Result<E, serde_json::Error>|
            #[trigger] call_ensures(decode_error, (payload,), decoded) && payload@ == payload_of(
                body@,
            ) && match decoded {
                Ok(exception) => raised == SendError::Exception(exception),
                Err(err) => raised == SendError::<E>::Api(ApiError::SerdeError(err)),
            },
{
    let read = choose|read: Result<E, ApiError>|
        #[trigger] exception_decoded(decode_error, body@, read) && raised == raised_as(read);
    let (payload, decoded) = choose|payload: ErrorPayload, decoded: Result<E, serde_json::Error>|
        payload@ == payload_of(body@) && #[trigger] call_ensures(decode_error, (payload,), decoded)
            && read == serde_outcome(decoded);
    assert(call_ensures(decode_error, (payload,), decoded));
}

/// A text is an empty answer just where there is nothing in it but white space;
/// any other is what the decoder makes of it.
pub proof fn text_is_decoded_unless_blank<T, F: FnOnce(String) -> Result<T, serde_json::Error>>(
    text: String,
    decode: F,
    outcome: Result<T, ApiError>,
)
    requires
        text_outcome(Ok(text), decode, outcome),
    ensures
        (forall|i: int| 0 <= i < text@.len() ==> is_white_space(#[trigger] text@[i]))
            ==> outcome == Err::<T, ApiError>(ApiError::EmptyResponse),
        (exists|i: int| 0 <= i < text@.len() && !is_white_space(#[trigger] text@[i])) ==> exists|
            decoded: Result<T, serde_json::Error>,
        |
            #[trigger] call_ensures(decode, (text,), decoded) && match decoded {
                Ok(value) => outcome == Ok::<T, ApiError>(value),
                Err(err) => outcome == Err::<T, ApiError>(ApiError::SerdeError(err)),
            },
{
}

/// White space is what the Unicode property `White_Space` says: these twenty-five
/// characters.
pub proof fn white_space_is_listed(c: char)
    ensures
        is_white_space(c)
            <==> "\u{9}\u{a}\u{b}\u{c}\u{d}\u{20}\u{85}\u{a0}\u{1680}\u{2000}\u{2001}\u{2002}\u{2003}\u{2004}\u{2005}\u{2006}\u{2007}\u{2008}\u{2009}\u{200a}\u{2028}\u{2029}\u{202f}\u{205f}\u{3000}"@.contains(
        c),
{
    let listed =
        "\u{9}\u{a}\u{b}\u{c}\u{d}\u{20}\u{85}\u{a0}\u{1680}\u{2000}\u{2001}\u{2002}\u{2003}\u{2004}\u{2005}\u{2006}\u{2007}\u{2008}\u{2009}\u{200a}\u{2028}\u{2029}\u{202f}\u{205f}\u{3000}"@;
    reveal_strlit(
        "\u{9}\u{a}\u{b}\u{c}\u{d}\u{20}\u{85}\u{a0}\u{1680}\u{2000}\u{2001}\u{2002}\u{2003}\u{2004}\u{2005}\u{2006}\u{2007}\u{2008}\u{2009}\u{200a}\u{2028}\u{2029}\u{202f}\u{205f}\u{3000}",
    );
    if is_white_space(c) {
        let n = c as int;
        let i = if n <= 0xd {
            n - 9
        } else if n == 0x20 {
            5
        } else if n == 0x85 {
            6
        } else if n == 0xa0 {
            7
        } else if n == 0x1680 {
            8
        } else if n <= 0x200a {
            n - 0x2000 + 9
        } else if n == 0x2028 {
            20
        } else if n == 0x2029 {
            21
        } else if n == 0x202f {
            22
        } else if n == 0x205f {
            23
        } else {
            24
        };
        assert(listed[i] == c);
    }
}

/// A request that was sent never comes to an exception of the API where the status
/// is one of 200 to 299, and never to a value where it is not.
pub proof fn sent_request_comes_to_what_the_status_tells<
    T,
    E,
    F: FnOnce(String) -> Result<T, serde_json::Error>,
    D: FnOnce(ErrorPayload) -> Result<E, serde_json::Error>,
>(
    status: u16,
    text: Result<String, reqwest::Error>,
    body: Result<Vec<u8>, reqwest::Error>,
    decode: F,
    decode_error: D,
    outcome: Result<T, SendError<E>>,
)
    requires
        send_outcome(status, text, body, decode, decode_error, outcome),
    ensures
        200 <= status <= 299 ==> !(outcome matches Err(SendError::Exception(_))),
        status < 200 || status > 299 ==> outcome is Err,
{
}

}
