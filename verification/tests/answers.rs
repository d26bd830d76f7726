use betfair_adapter::client::{Authenticated, BetfairRpcClient};
use betfair_adapter::error::{ApiError, SendError};
use betfair_adapter::fault::{choose_payload, error_payload, parse_betfair_error, unwrap_fault, ErrorPayload};
use betfair_adapter::json::Json;
use betfair_adapter::request::BetfairRequest;
use betfair_adapter::response::{Answer, BetfairResponse};
use serde_json::Value;

fn client() -> BetfairRpcClient<Authenticated> {
    BetfairRpcClient {
        rest_base: "https://api.betfair.com/exchange/account/rest/v1.0/".to_string(),
        keep_alive: "https://identitysso.betfair.com/api/keepAlive".to_string(),
        logout: "https://identitysso.betfair.com/api/logout".to_string(),
        state: Authenticated {
            authenticated_client: reqwest::Client::builder()
                .use_rustls_tls()
                .build()
                .expect("client builds"),
        },
    }
}

fn lost() -> reqwest::Error {
    reqwest::Client::new().get("no address").build().expect_err("no address to build for")
}

fn response(status: u16) -> BetfairResponse<Value, Value> {
    let request: BetfairRequest<Value, Value> =
        client().build_request("getAccountFunds/", Ok(b"{}".to_vec())).expect("request builds");
    request.execute().pending.complete(Ok(status)).expect("an answer came")
}

fn decode(body: Vec<u8>) -> Result<Value, serde_json::Error> {
    serde_json::from_slice(&body)
}

fn decode_text(text: String) -> Result<Value, serde_json::Error> {
    serde_json::from_str(&text)
}

fn decode_error(payload: ErrorPayload) -> Result<Value, serde_json::Error> {
    match payload {
        ErrorPayload::Enclosed(json) => serde_json::from_value(json.into_value()),
        ErrorPayload::Body(body) => serde_json::from_slice(&body),
    }
}

fn error_code(payload: ErrorPayload) -> Result<Option<String>, serde_json::Error> {
    let value = decode_error(payload)?;
    Ok(value.get("errorCode").and_then(Value::as_str).map(str::to_string))
}

const FAULT: &str = "{
    \"faultcode\": \"Client\",
    \"faultstring\": \"AANGX-0002\",
    \"detail\": {
        \"exceptionname\": \"AccountAPINGException\",
        \"AccountAPINGException\": {
            \"requestUUID\": \"null\",
            \"errorCode\": \"INVALID_SESSION_INFORMATION\",
            \"errorDetails\": \"\"
        }
    }
}";

#[test]
fn get_account_funds_invalid_session_is_unwrapped() {
    let request: BetfairRequest<Value, Option<String>> = client()
        .send_request("getAccountFunds/", Ok(b"{\"wallet\":null}".to_vec()))
        .expect("request builds");
    let response = request.execute().pending.complete(Ok(400)).expect("an answer came");
    match response.answer() {
        Answer::Failure(failed) => match failed.raise(Ok(FAULT.as_bytes().to_vec()), error_code) {
            SendError::Exception(code) => {
                assert_eq!(code, Some("INVALID_SESSION_INFORMATION".to_string()))
            }
            SendError::Api(other) => panic!("expected an exception, got {other:?}"),
        },
        Answer::Success(_) => panic!("expected a failure"),
    }
}

#[test]
fn keep_alive() {
    let ka = client().keep_alive::<Value>().unwrap();
    let response = ka.execute().pending.complete(Ok(200)).unwrap();
    assert!(response.json_err().is_none());
}

#[test]
fn bare_exception_is_read_whole() {
    let body = b"{\"errorCode\":\"TOO_MUCH_DATA\"}".to_vec();
    assert_eq!(
        parse_betfair_error(body, error_code).unwrap(),
        Some("TOO_MUCH_DATA".to_string())
    );
}

fn is_read_whole(body: &str) {
    match error_payload(body.as_bytes().to_vec()) {
        ErrorPayload::Body(whole) => assert_eq!(whole, body.as_bytes()),
        ErrorPayload::Enclosed(inner) => panic!("{body} holds no exception, got {inner:?}"),
    }
}

fn is_unwrapped(body: &str, inner: &str) {
    match error_payload(body.as_bytes().to_vec()) {
        ErrorPayload::Enclosed(found) => {
            assert_eq!(found.into_value(), serde_json::from_str::<Value>(inner).unwrap())
        }
        ErrorPayload::Body(_) => panic!("{body} holds an exception"),
    }
}

#[test]
fn what_is_no_envelope_is_read_whole() {
    is_read_whole("");
    is_read_whole("not JSON");
    is_read_whole("[]");
    is_read_whole("null");
    is_read_whole("{}");
    is_read_whole("{\"detail\": {}}");
    is_read_whole("{\"detail\": \"exceptionname\"}");
    is_read_whole("{\"detail\": {\"exceptionname\": 1, \"1\": {}}}");
    is_read_whole("{\"detail\": {\"exceptionname\": \"X\"}}");
    is_read_whole("{\"detail\": {\"exceptionname\": \"X\", \"x\": {}}}");
    is_read_whole("{\"exceptionname\": \"X\", \"X\": {}}");
    is_read_whole("{\"detail\": {\"exceptionname\": \"X\", \"X\": {}}} trailing");
}

#[test]
fn what_an_envelope_encloses_is_unwrapped() {
    is_unwrapped("{\"detail\": {\"exceptionname\": \"X\", \"X\": null}}", "null");
    is_unwrapped(
        "{\"detail\": {\"X\": {\"a\": [1, -2, 1.5e300, true, {\"b\": \"c\"}]}, \"exceptionname\": \"X\"}}",
        "{\"a\": [1, -2, 1.5e300, true, {\"b\": \"c\"}]}",
    );
    is_unwrapped(
        "{\"detail\": {\"exceptionname\": \"exceptionname\"}}",
        "\"exceptionname\"",
    );
    is_unwrapped(
        "{\"detail\": 0, \"detail\": {\"exceptionname\": \"X\", \"X\": 1, \"X\": 2}}",
        "2",
    );
}

#[test]
fn payload_is_chosen_by_the_tree() {
    let detail = Json::Object(vec![
        ("exceptionname".to_string(), Json::Str("X".to_string())),
        ("X".to_string(), Json::Bool(true)),
    ]);
    let envelope = Json::Object(vec![
        ("faultcode".to_string(), Json::Null),
        ("detail".to_string(), detail),
    ]);
    match choose_payload(Some(envelope), b"body".to_vec()) {
        ErrorPayload::Enclosed(Json::Bool(true)) => {}
        other => panic!("expected the inside, got {other:?}"),
    }
    match choose_payload(Some(Json::Array(Vec::new())), b"body".to_vec()) {
        ErrorPayload::Body(body) => assert_eq!(body, b"body"),
        other => panic!("expected the body, got {other:?}"),
    }
    match choose_payload(None, b"body".to_vec()) {
        ErrorPayload::Body(body) => assert_eq!(body, b"body"),
        other => panic!("expected the body, got {other:?}"),
    }
    assert!(unwrap_fault(Json::Str("detail".to_string())).is_none());
}

#[test]
fn trees_go_there_and_back() {
    let text = "{\"a\":[null,true,\"s\",0,-1,18446744073709551615,0.1,{\"b\":{}}],\"c\":[]}";
    let value: Value = serde_json::from_str(text).unwrap();
    assert_eq!(Json::from_value(value.clone()).into_value(), value);
}

#[test]
fn later_member_counts() {
    let json = Json::Object(vec![
        ("k".to_string(), Json::Bool(false)),
        ("l".to_string(), Json::Null),
        ("k".to_string(), Json::Bool(true)),
    ]);
    assert!(matches!(json.get("k"), Some(Json::Bool(true))));
    assert!(json.get("m").is_none());
    assert!(json.as_str().is_none());
    assert!(matches!(json.into_member("k"), Some(Json::Bool(true))));
    assert!(Json::Null.get("k").is_none());
    assert_eq!(Json::Str("s".to_string()).as_str(), Some(&"s".to_string()));
    let twice = Json::Object(vec![
        ("k".to_string(), Json::Bool(false)),
        ("k".to_string(), Json::Bool(true)),
    ]);
    assert_eq!(twice.into_value().to_string(), "{\"k\":true}");
}

#[test]
fn ok_goes_by_the_status() {
    for status in [100, 200, 204, 299, 300, 304, 399, 600, 999] {
        assert!(response(status).ok().is_ok());
    }
    for status in [400, 404, 499, 500, 503, 599] {
        match response(status).ok() {
            Err(ApiError::HttpStatus(told)) => assert_eq!(told, status),
            _ => panic!("{status} tells of an error"),
        }
    }
}

#[test]
fn json_err_goes_by_the_status() {
    for status in [200, 204, 299] {
        assert!(response(status).json_err().is_none());
    }
    for status in [100, 199, 300, 304, 400, 500, 999] {
        assert!(response(status).json_err().is_some());
    }
}

#[test]
fn what_ok_refuses_json_err_reads() {
    for status in 100..1000 {
        let accepted = response(status).ok().is_ok();
        let is_read = response(status).json_err().is_some();
        assert!(accepted || is_read);
        let tells_neither = !(200..300).contains(&status) && !(400..600).contains(&status);
        assert_eq!(accepted && is_read, tells_neither, "{status}");
    }
}

#[test]
fn json_reads_a_successful_answer() {
    let read = response(200).json(Ok(b"[1]".to_vec()), decode, decode_error);
    assert_eq!(read.unwrap().unwrap().to_string(), "[1]");
    let read = response(200).json(Ok(b"oops".to_vec()), decode, decode_error);
    assert!(matches!(read, Err(ApiError::SerdeError(_))));
    let read = response(200).json(Err(lost()), decode, decode_error);
    assert!(matches!(read, Err(ApiError::ReqwestError(_))));
    // A fault envelope in a successful answer is an answer like any other.
    let read = response(200).json(Ok(FAULT.as_bytes().to_vec()), decode, decode_error);
    assert_eq!(read.unwrap().unwrap(), serde_json::from_str::<Value>(FAULT).unwrap());
}

#[test]
fn json_and_json_err_read_the_same_exception() {
    for body in [FAULT, "{\"errorCode\":1}", "oops"] {
        let body = body.as_bytes().to_vec();
        let whole = response(400).json(Ok(body.clone()), decode, decode_error);
        let failed = response(400).json_err().expect("a failure");
        let exception = failed.json_err(Ok(body), decode_error);
        match (whole, exception) {
            (Ok(Err(one)), Ok(Err(two))) => assert_eq!(one, two),
            (Err(ApiError::SerdeError(one)), Err(ApiError::SerdeError(two))) => {
                assert_eq!(one.to_string(), two.to_string())
            }
            _ => panic!("the two do not agree"),
        }
    }
    let failed = response(400).json_err().expect("a failure");
    assert!(matches!(
        failed.json_err(Err(lost()), decode_error),
        Err(ApiError::ReqwestError(_))
    ));
    let read = response(400).json(Err(lost()), decode, decode_error);
    assert!(matches!(read, Err(ApiError::ReqwestError(_))));
}

fn result(text: Result<String, reqwest::Error>) -> Result<Value, ApiError> {
    match response(200).answer() {
        Answer::Success(successful) => successful.result(text, decode_text),
        Answer::Failure(_) => panic!("expected a success"),
    }
}

#[test]
fn blank_answer_is_an_empty_response() {
    for text in ["", " ", "\r\n\t ", "\u{a0}\u{3000}\u{2003}\u{85}"] {
        assert!(matches!(result(Ok(text.to_string())), Err(ApiError::EmptyResponse)));
    }
    // A zero width space is no white space.
    assert!(matches!(result(Ok("\u{200b}".to_string())), Err(ApiError::SerdeError(_))));
}

#[test]
fn white_space_goes_by_the_standard_property() {
    for code in 0..=0x10ffffu32 {
        if let Some(c) = char::from_u32(code) {
            let listed = matches!(
                code,
                0x9..=0xd | 0x20 | 0x85 | 0xa0 | 0x1680 | 0x2000..=0x200a | 0x2028 | 0x2029
                    | 0x202f | 0x205f | 0x3000
            );
            assert_eq!(c.is_whitespace(), listed);
        }
    }
}

#[test]
fn successful_answer_is_decoded() {
    assert_eq!(result(Ok(" {\"status\":\"SUCCESS\"} ".to_string())).unwrap().to_string(), "{\"status\":\"SUCCESS\"}");
    assert!(matches!(result(Ok("oops".to_string())), Err(ApiError::SerdeError(_))));
    assert!(matches!(result(Err(lost())), Err(ApiError::ReqwestError(_))));
}

#[test]
fn failed_answer_is_raised() {
    let failed = || match response(500).answer() {
        Answer::Failure(failed) => failed,
        Answer::Success(_) => panic!("expected a failure"),
    };
    match failed().raise(Ok(b"{\"errorCode\":2}".to_vec()), decode_error) {
        SendError::Exception(exception) => assert_eq!(exception.to_string(), "{\"errorCode\":2}"),
        SendError::Api(other) => panic!("expected an exception, got {other:?}"),
    }
    assert!(matches!(
        failed().raise(Ok(Vec::new()), decode_error),
        SendError::Api(ApiError::SerdeError(_))
    ));
    assert!(matches!(
        failed().raise(Err(lost()), decode_error),
        SendError::Api(ApiError::ReqwestError(_))
    ));
}

#[test]
fn request_that_was_not_answered_is_an_error() {
    let request: BetfairRequest<Value, Value> =
        client().build_request("getAccountFunds/", Ok(b"{}".to_vec())).expect("request builds");
    assert!(matches!(
        request.execute().pending.complete(Err(lost())),
        Err(ApiError::ReqwestError(_))
    ));
}

#[test]
fn sending_and_json_come_to_the_same() {
    for status in [200, 299, 304, 400, 500] {
        for body in [FAULT, "{\"errorCode\":1}", " [1] ", "oops"] {
            let whole = response(status).json(Ok(body.as_bytes().to_vec()), decode, decode_error);
            let sent = match response(status).answer() {
                Answer::Success(successful) => {
                    successful.result(Ok(body.to_string()), decode_text).map_err(SendError::Api)
                }
                Answer::Failure(failed) => {
                    Err(failed.raise(Ok(body.as_bytes().to_vec()), decode_error))
                }
            };
            match (whole, sent) {
                (Ok(Ok(one)), Ok(two)) => assert_eq!(one, two),
                (Ok(Err(one)), Err(SendError::Exception(two))) => assert_eq!(one, two),
                (
                    Err(ApiError::SerdeError(one)),
                    Err(SendError::Api(ApiError::SerdeError(two))),
                ) => assert_eq!(one.to_string(), two.to_string()),
                _ => panic!("the two do not agree on {status} with {body}"),
            }
        }
    }
}

#[test]
fn overridden_members_are_left_out() {
    let json = Json::Object(vec![
        ("a".to_string(), Json::Bool(false)),
        ("b".to_string(), Json::Str("b".to_string())),
        ("a".to_string(), Json::Null),
        ("c".to_string(), Json::Array(vec![Json::Null])),
        ("a".to_string(), Json::Bool(true)),
    ]);
    assert_eq!(json.into_value().to_string(), "{\"a\":true,\"b\":\"b\",\"c\":[null]}");
}

#[test]
fn answer_has_a_debug_text() {
    assert!(format!("{:?}", response(404)).contains("404"));
}
