//! The client: which requests it makes.

use vstd::prelude::*;
use vstd::utf8::encode_utf8;
use vstd::utf8::is_ascii_chars;
use vstd::utf8::is_ascii_chars_encode_utf8;

use crate::error::ApiError;
use crate::http::adds_credentials_at_most;
use crate::http::build_http;
use crate::http::built_request;
use crate::http::content_type;
use crate::http::goes_to;
use crate::http::join_url;
use crate::http::joined_url;
use crate::http::lead_apart;
use crate::http::lemma_own_header_stays;
use crate::http::names_no_user;
use crate::http::parsed_url;
use crate::http::plain_value_is_shown_as_it_is;
use crate::http::sent_url;
use crate::http::shown_bytes;
use crate::http::Content;
use crate::http::ContentView;
use crate::http::HeaderFieldView;
use crate::http::HttpMethod;
use crate::http::HttpRequestView;
use crate::request::every_header_shows;
use crate::request::occurs_in;
use crate::request::request_text;
use crate::request::shown_str;
use crate::request::BetfairRequest;

verus! {

/// The state of a client that has logged in.
pub struct Authenticated {
    /// The client that adds the session's headers to every request.
    pub authenticated_client: reqwest::Client,
}

/// A client of the API, in the state `S`.
pub struct BetfairRpcClient<S> {
    /// The address that the methods' addresses are relative to.
    pub rest_base: String,
    /// The address that keeps the session alive.
    pub keep_alive: String,
    /// The address that ends the session.
    pub logout: String,
    pub state: S,
}

/// The content of a request that carries these bytes of JSON.
pub open spec fn json_content(bytes: Seq<u8>) -> ContentView {
    ContentView { media_type: "application/json"@, bytes }
}

/// The header that says that a request carries JSON.
pub open spec fn json_header() -> HeaderFieldView {
    content_type("application/json"@)
}

/// The request for a method of the API, or why there is none: its address cannot
/// be put together, or `reqwest` builds no request for that address, or the
/// method's parameters could not be written as JSON. The first of these that
/// holds is the one that is told.
pub open spec fn rpc_request(
    base: Seq<char>,
    method: Seq<char>,
    parameters: Result<Seq<u8>, reqwest::Error>,
) -> Result<HttpRequestView, ApiError> {
    match joined_url(base, method) {
        Err(err) => Err(ApiError::UrlParseError(err)),
        Ok(endpoint) => parameters_request(endpoint, parameters),
    }
}

/// The request that posts a method's parameters to an address, or why there is
/// none: `reqwest` builds no request for that address or, where it does, the
/// parameters could not be written as JSON.
pub open spec fn parameters_request(
    endpoint: Seq<char>,
    parameters: Result<Seq<u8>, reqwest::Error>,
) -> Result<HttpRequestView, ApiError> {
    match parameters {
        Ok(bytes) => post_request(endpoint, Some(json_content(bytes))),
        Err(unwritten) => match post_request(endpoint, None) {
            Ok(_) => Err(ApiError::ReqwestError(unwritten)),
            Err(err) => Err(err),
        },
    }
}

/// The `POST` request for an address, or why there is none.
pub open spec fn post_request(endpoint: Seq<char>, content: Option<ContentView>) -> Result<
    HttpRequestView,
    ApiError,
> {
    match built_request(HttpMethod::Post.wire_name(), endpoint, content) {
        Ok(request) => Ok(request),
        Err(err) => Err(ApiError::ReqwestError(err)),
    }
}

/// The `GET` request for an address, or why there is none.
pub open spec fn get_request(endpoint: Seq<char>) -> Result<HttpRequestView, ApiError> {
    match built_request(HttpMethod::Get.wire_name(), endpoint, None) {
        Ok(request) => Ok(request),
        Err(err) => Err(ApiError::ReqwestError(err)),
    }
}

/// The parameters of a method as a mathematical value.
pub open spec fn parameters_view(parameters: Result<Vec<u8>, reqwest::Error>) -> Result<
    Seq<u8>,
    reqwest::Error,
> {
    match parameters {
        Ok(bytes) => Ok(bytes@),
        Err(err) => Err(err),
    }
}

/// `outcome` is the expected request, to be sent by that client, or the expected
/// error.
pub open spec fn is_request<T, E>(
    outcome: Result<BetfairRequest<T, E>, ApiError>,
    expected: Result<HttpRequestView, ApiError>,
    client: reqwest::Client,
) -> bool {
    match expected {
        Ok(request) => outcome is Ok && outcome->Ok_0@ == request && outcome->Ok_0.sender()
            == client,
        Err(err) => outcome == Err::<BetfairRequest<T, E>, ApiError>(err),
    }
}

/// The request posts these parameters, as JSON, to this address. It has no other
/// header than the one that says so, save what the user that the address names
/// gives.
pub open spec fn posts(
    request: HttpRequestView,
    endpoint: Seq<char>,
    parameters: Result<Seq<u8>, reqwest::Error>,
) -> bool {
    &&& request.method == "POST"@
    &&& parameters is Ok
    &&& request.body == Some(parameters->Ok_0)
    &&& goes_to(request, endpoint)
    &&& request.headers.contains(json_header())
    &&& adds_credentials_at_most(request.headers, seq![json_header()])
    &&& names_no_user(endpoint) ==> request.headers == seq![json_header()]
}

/// The request gets this address, and carries nothing. It has no header, save
/// what the user that the address names gives.
pub open spec fn gets(request: HttpRequestView, endpoint: Seq<char>) -> bool {
    &&& request.method == "GET"@
    &&& request.body is None
    &&& goes_to(request, endpoint)
    &&& adds_credentials_at_most(request.headers, Seq::empty())
    &&& names_no_user(endpoint) ==> request.headers == Seq::<HeaderFieldView>::empty()
}

impl BetfairRpcClient<Authenticated> {
    /// Makes the request for a method of the API.
    ///
    /// `method` is the address of the method, relative to that of the API.
    /// `parameters` are the method's parameters in JSON, or why they could not be
    /// written. A request that is made posts just these parameters.
    pub fn build_request<T, E>(
        &self,
        method: &str,
        parameters: Result<Vec<u8>, reqwest::Error>,
    ) -> (outcome: Result<BetfairRequest<T, E>, ApiError>)
        ensures
            is_request(
                outcome,
                rpc_request(self.rest_base@, method@, parameters_view(parameters)),
                self.state.authenticated_client,
            ),
            outcome matches Ok(request) ==> joined_url(self.rest_base@, method@) is Ok && posts(
                request@,
                joined_url(self.rest_base@, method@)->Ok_0,
                parameters_view(parameters),
            ),
    {
        match join_url(self.rest_base.as_str(), method) {
            Ok(endpoint) => self.build_post(endpoint.as_str(), parameters),
            Err(err) => Err(ApiError::UrlParseError(err)),
        }
    }

    /// Makes the request that posts a method's parameters to this address.
    ///
    /// `parameters` are the method's parameters in JSON, or why they could not be
    /// written.
    pub fn build_post<T, E>(
        &self,
        endpoint: &str,
        parameters: Result<Vec<u8>, reqwest::Error>,
    ) -> (outcome: Result<BetfairRequest<T, E>, ApiError>)
        ensures
            is_request(
                outcome,
                parameters_request(endpoint@, parameters_view(parameters)),
                self.state.authenticated_client,
            ),
            outcome matches Ok(request) ==> posts(
                request@,
                endpoint@,
                parameters_view(parameters),
            ),
    {
        let client = self.state.authenticated_client.clone();
        let (content, unwritten) = match parameters {
            Ok(bytes) => (Some(Content { media_type: "application/json".to_owned(), bytes }), None),
            Err(err) => (None, Some(err)),
        };
        match build_http(&client, HttpMethod::Post, endpoint, content) {
            Ok(request) => match unwritten {
                None => {
                    proof {
                        lemma_own_header_stays(request@.headers, seq![json_header()], 0);
                    }
                    Ok(BetfairRequest::new(request, client))
                },
                Some(err) => Err(ApiError::ReqwestError(err)),
            },
            Err(err) => Err(ApiError::ReqwestError(err)),
        }
    }

    /// Makes the request for a method of the API that is to be sent at once: it
    /// is the one that [`BetfairRpcClient::build_request`] makes. Its answer is
    /// to be read by `BetfairResponse::answer`.
    pub fn send_request<T, E>(
        &self,
        method: &str,
        parameters: Result<Vec<u8>, reqwest::Error>,
    ) -> (outcome: Result<BetfairRequest<T, E>, ApiError>)
        ensures
            is_request(
                outcome,
                rpc_request(self.rest_base@, method@, parameters_view(parameters)),
                self.state.authenticated_client,
            ),
            outcome matches Ok(request) ==> joined_url(self.rest_base@, method@) is Ok && posts(
                request@,
                joined_url(self.rest_base@, method@)->Ok_0,
                parameters_view(parameters),
            ),
    {
        self.build_request(method, parameters)
    }

    /// Makes the request that extends the session timeout period.
    ///
    /// The minimum session time is 20 minutes on the Italian Exchange, and 24
    /// hours on the international one. A session that is not kept alive within
    /// that time expires; other activity does not extend it.
    pub fn keep_alive<T>(&self) -> (outcome: Result<BetfairRequest<T, ()>, ApiError>)
        ensures
            is_request(
                outcome,
                get_request(self.keep_alive@),
                self.state.authenticated_client,
            ),
            outcome matches Ok(request) ==> gets(request@, self.keep_alive@),
    {
        self.build_get(self.keep_alive.as_str())
    }

    /// Makes the request that terminates the session.
    pub fn logout<T>(&self) -> (outcome: Result<BetfairRequest<T, ()>, ApiError>)
        ensures
            is_request(outcome, get_request(self.logout@), self.state.authenticated_client),
            outcome matches Ok(request) ==> gets(request@, self.logout@),
    {
        self.build_get(self.logout.as_str())
    }

    /// Makes a `GET` request for an address.
    fn build_get<T>(&self, endpoint: &str) -> (outcome: Result<BetfairRequest<T, ()>, ApiError>)
        ensures
            is_request(outcome, get_request(endpoint@), self.state.authenticated_client),
            outcome matches Ok(request) ==> gets(request@, endpoint@),
    {
        let client = self.state.authenticated_client.clone();
        match build_http(&client, HttpMethod::Get, endpoint, None) {
            Ok(request) => Ok(BetfairRequest::new(request, client)),
            Err(err) => Err(ApiError::ReqwestError(err)),
        }
    }
}

/// What is sent at once is what is built to be sent later: of two outcomes for
/// one method, one base address, the same parameters and one client, both are
/// the same error, or both the same request with the same client to send it.
pub proof fn sent_is_what_is_built<T, E>(
    sent: Result<BetfairRequest<T, E>, ApiError>,
    built: Result<BetfairRequest<T, E>, ApiError>,
    base: Seq<char>,
    method: Seq<char>,
    parameters: Result<Seq<u8>, reqwest::Error>,
    client: reqwest::Client,
)
    requires
        is_request(sent, rpc_request(base, method, parameters), client),
        is_request(built, rpc_request(base, method, parameters), client),
    ensures
        match (sent, built) {
            (Ok(sent), Ok(built)) => sent@ == built@ && sent.sender() == built.sender(),
            (Err(sent), Err(built)) => sent == built,
            _ => false,
        },
{
}

/// Only `keep_alive` asks for a longer session: where the keep-alive address,
/// the logout address and the address of a method lead to different URLs, the
/// request that `keep_alive` makes is the only one of the three that is sent to
/// the URL that the keep-alive address leads to.
pub proof fn only_keep_alive_extends_the_session(
    client: BetfairRpcClient<Authenticated>,
    method: Seq<char>,
    kept_alive: HttpRequestView,
    logged_out: HttpRequestView,
    called: HttpRequestView,
)
    requires
        goes_to(kept_alive, client.keep_alive@),
        goes_to(logged_out, client.logout@),
        joined_url(client.rest_base@, method) is Ok,
        goes_to(called, joined_url(client.rest_base@, method)->Ok_0),
        lead_apart(client.keep_alive@, client.logout@),
        lead_apart(client.keep_alive@, joined_url(client.rest_base@, method)->Ok_0),
        lead_apart(client.logout@, joined_url(client.rest_base@, method)->Ok_0),
    ensures
        kept_alive.url == sent_url(client.keep_alive@),
        logged_out.url != kept_alive.url,
        called.url != kept_alive.url,
        called.url != logged_out.url,
{
}

/// A request for a method is made whenever it can be: where the method's address
/// can be put together and `reqwest` builds a `POST` of these parameters, as JSON,
/// to that address, the outcome is that request, to be sent by the client that has
/// logged in, whatever the parameters are. Where it cannot be, the outcome is the
/// error of the step that failed.
pub proof fn method_is_called_whenever_it_can_be<T, E>(
    client: BetfairRpcClient<Authenticated>,
    method: Seq<char>,
    parameters: Vec<u8>,
    outcome: Result<BetfairRequest<T, E>, ApiError>,
)
    requires
        is_request(
            outcome,
            rpc_request(client.rest_base@, method, parameters_view(Ok(parameters))),
            client.state.authenticated_client,
        ),
    ensures
        match joined_url(client.rest_base@, method) {
            Err(err) => outcome == Err::<BetfairRequest<T, E>, ApiError>(
                ApiError::UrlParseError(err),
            ),
            Ok(endpoint) => match built_request(
                "POST"@,
                endpoint,
                Some(ContentView { media_type: "application/json"@, bytes: parameters@ }),
            ) {
                Err(err) => outcome == Err::<BetfairRequest<T, E>, ApiError>(
                    ApiError::ReqwestError(err),
                ),
                Ok(request) => outcome matches Ok(made) && made@ == request && made.sender()
                    == client.state.authenticated_client,
            },
        },
{
}

/// Parameters that could not be written are never posted: the outcome is an
/// error. It is the one of the address where that is at fault, and the one of the
/// parameters where nothing else is.
pub proof fn unwritten_parameters_are_not_posted<T, E>(
    client: BetfairRpcClient<Authenticated>,
    method: Seq<char>,
    unwritten: reqwest::Error,
    outcome: Result<BetfairRequest<T, E>, ApiError>,
)
    requires
        is_request(
            outcome,
            rpc_request(client.rest_base@, method, parameters_view(Err(unwritten))),
            client.state.authenticated_client,
        ),
    ensures
        outcome is Err,
        joined_url(client.rest_base@, method) matches Err(err) ==> outcome == Err::<
            BetfairRequest<T, E>,
            ApiError,
        >(ApiError::UrlParseError(err)),
        joined_url(client.rest_base@, method) matches Ok(endpoint) ==> (built_request(
            "POST"@,
            endpoint,
            None,
        ) matches Err(err) ==> outcome == Err::<BetfairRequest<T, E>, ApiError>(
            ApiError::ReqwestError(err),
        )),
        joined_url(client.rest_base@, method) matches Ok(endpoint) ==> (built_request(
            "POST"@,
            endpoint,
            None,
        ) is Ok ==> outcome == Err::<BetfairRequest<T, E>, ApiError>(
            ApiError::ReqwestError(unwritten),
        )),
{
}

/// To call a method is to post its parameters to the address that is joined for
/// it: the two come to the same wherever there is such an address.
pub proof fn called_is_what_is_posted<T, E>(
    client: BetfairRpcClient<Authenticated>,
    method: Seq<char>,
    endpoint: Seq<char>,
    parameters: Result<Vec<u8>, reqwest::Error>,
    called: Result<BetfairRequest<T, E>, ApiError>,
    posted: Result<BetfairRequest<T, E>, ApiError>,
)
    requires
        joined_url(client.rest_base@, method) == Ok::<Seq<char>, url::ParseError>(endpoint),
        is_request(
            called,
            rpc_request(client.rest_base@, method, parameters_view(parameters)),
            client.state.authenticated_client,
        ),
        is_request(
            posted,
            parameters_request(endpoint, parameters_view(parameters)),
            client.state.authenticated_client,
        ),
    ensures
        match (called, posted) {
            (Ok(called), Ok(posted)) => called@ == posted@ && called.sender() == posted.sender(),
            (Err(called), Err(posted)) => called == posted,
            _ => false,
        },
{
}

/// Parameters are posted to an address whenever they can be: if `reqwest` builds a
/// `POST` of them, as JSON, to that address, the outcome is that request, else it
/// is the error of `reqwest`.
pub proof fn parameters_are_posted_whenever_they_can_be<T, E>(
    client: BetfairRpcClient<Authenticated>,
    endpoint: Seq<char>,
    parameters: Vec<u8>,
    outcome: Result<BetfairRequest<T, E>, ApiError>,
)
    requires
        is_request(
            outcome,
            parameters_request(endpoint, parameters_view(Ok(parameters))),
            client.state.authenticated_client,
        ),
    ensures
        match built_request(
            "POST"@,
            endpoint,
            Some(ContentView { media_type: "application/json"@, bytes: parameters@ }),
        ) {
            Err(err) => outcome == Err::<BetfairRequest<T, E>, ApiError>(
                ApiError::ReqwestError(err),
            ),
            Ok(request) => outcome matches Ok(made) && made@ == request && made.sender()
                == client.state.authenticated_client,
        },
{
}

/// The session can be kept alive, and ended, whenever `reqwest` builds a bare
/// `GET` for the address of it: that request is the outcome, to be sent by the
/// client that has logged in. The only error there is is the one of `reqwest`.
pub proof fn session_is_asked_for_whenever_it_can_be<T>(
    client: BetfairRpcClient<Authenticated>,
    kept_alive: Result<BetfairRequest<T, ()>, ApiError>,
    logged_out: Result<BetfairRequest<T, ()>, ApiError>,
)
    requires
        is_request(
            kept_alive,
            get_request(client.keep_alive@),
            client.state.authenticated_client,
        ),
        is_request(logged_out, get_request(client.logout@), client.state.authenticated_client),
    ensures
        match built_request("GET"@, client.keep_alive@, None) {
            Err(err) => kept_alive == Err::<BetfairRequest<T, ()>, ApiError>(
                ApiError::ReqwestError(err),
            ),
            Ok(request) => kept_alive matches Ok(made) && made@ == request && made.sender()
                == client.state.authenticated_client,
        },
        match built_request("GET"@, client.logout@, None) {
            Err(err) => logged_out == Err::<BetfairRequest<T, ()>, ApiError>(
                ApiError::ReqwestError(err),
            ),
            Ok(request) => logged_out matches Ok(made) && made@ == request && made.sender()
                == client.state.authenticated_client,
        },
{
}

/// A call that was made is a `POST` of just its parameters, to an address that can
/// be read, with a header that says that they are JSON and no other, unless it is
/// an `authorization` that is not to be shown.
pub proof fn call_carries_its_parameters(
    request: HttpRequestView,
    endpoint: Seq<char>,
    parameters: Vec<u8>,
)
    requires
        posts(request, endpoint, parameters_view(Ok(parameters))),
    ensures
        request.method == "POST"@,
        request.body == Some(parameters@),
        parsed_url(endpoint) is Ok,
        !endpoint.contains('@') ==> parsed_url(endpoint) == Ok::<Seq<char>, url::ParseError>(
            request.url,
        ),
        !endpoint.contains('@') ==> request.headers.len() == 1,
        exists|i: int|
            0 <= i < request.headers.len() && #[trigger] request.headers[i] == (HeaderFieldView {
                name: "content-type"@,
                value: encode_utf8("application/json"@),
                sensitive: false,
            }),
        forall|i: int|
            0 <= i < request.headers.len() ==> {
                ||| (#[trigger] request.headers[i]).name == "content-type"@
                ||| request.headers[i].name == "authorization"@ && request.headers[i].sensitive
            },
{
    let own = seq![json_header()];
    lemma_own_header_stays(request.headers, own, 0);
    assert forall|i: int| 0 <= i < request.headers.len() implies {
        ||| (#[trigger] request.headers[i]).name == "content-type"@
        ||| request.headers[i].name == "authorization"@ && request.headers[i].sensitive
    } by {
        if request.headers != own && i > 0 {
            assert(request.headers.skip(1)[i - 1] == request.headers[i]);
            assert(request.headers.skip(1).len() == request.headers.len() - 1);
        }
    }
}

/// A request about the session carries nothing: it is a `GET` without a body, for
/// an address that can be read, and without a header, unless it is an
/// `authorization` that is not to be shown.
pub proof fn request_about_the_session_carries_nothing(
    request: HttpRequestView,
    endpoint: Seq<char>,
)
    requires
        gets(request, endpoint),
    ensures
        request.method == "GET"@,
        request.body is None,
        parsed_url(endpoint) is Ok,
        !endpoint.contains('@') ==> parsed_url(endpoint) == Ok::<Seq<char>, url::ParseError>(
            request.url,
        ),
        !endpoint.contains('@') ==> request.headers.len() == 0,
        forall|i: int|
            0 <= i < request.headers.len() ==> (#[trigger] request.headers[i]).name
                == "authorization"@ && request.headers[i].sensitive,
{
    assert forall|i: int| 0 <= i < request.headers.len() implies (
    #[trigger] request.headers[i]).name == "authorization"@ && request.headers[i].sensitive by {
        assert(request.headers.skip(1).len() == request.headers.len() - 1);
    }
}

/// The text of a call shows that it carries JSON: the header that says so is no
/// secret.
pub proof fn call_shows_that_it_carries_json(
    request: HttpRequestView,
    endpoint: Seq<char>,
    parameters: Vec<u8>,
    alternate: bool,
)
    requires
        posts(request, endpoint, parameters_view(Ok(parameters))),
    ensures
        occurs_in(
            shown_str("content-type"@) + ": "@ + "\"application/json\""@,
            request_text(request, alternate),
        ),
{
    call_carries_its_parameters(request, endpoint, parameters);
    let value = encode_utf8("application/json"@);
    let i = choose|i: int|
        0 <= i < request.headers.len() && #[trigger] request.headers[i] == (HeaderFieldView {
            name: "content-type"@,
            value,
            sensitive: false,
        });
    reveal_strlit("application/json");
    reveal_strlit("\"application/json\"");
    reveal_strlit("\"");
    reveal_strlit("content-type");
    reveal_strlit("x-authentication");
    reveal_strlit("authorization");
    reveal_strlit("cookie");
    reveal_strlit("set-cookie");
    assert(is_ascii_chars("application/json"@));
    is_ascii_chars_encode_utf8("application/json"@);
    plain_value_is_shown_as_it_is(value);
    assert(shown_bytes(value) =~= "application/json"@);
    assert("\""@ + shown_bytes(value) + "\""@ =~= "\"application/json\""@);
    assert("content-type"@[0] == 'c' && "content-type"@[2] == 'n');
    every_header_shows(request, i, alternate);
}

}
