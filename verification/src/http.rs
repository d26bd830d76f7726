//! HTTP requests and statuses as plain values.

use vstd::prelude::*;
use vstd::utf8::encode_utf8;

verus! {

/// `reqwest::Client`, opaque: a handle on connections and on the headers that
/// go with every request.
#[verifier::external_type_specification]
#[verifier::external_body]
pub struct ExClient(reqwest::Client);

/// `Clone` of `reqwest::Client`: a second handle on the same client.
pub assume_specification[ <reqwest::Client as Clone>::clone ](
    client: &reqwest::Client,
) -> (handle: reqwest::Client)
    ensures
        handle == *client,
;

/// A character of a token, which is what a header name is made of.
pub open spec fn is_token_char(c: char) -> bool {
    ||| 'a' <= c <= 'z'
    ||| 'A' <= c <= 'Z'
    ||| '0' <= c <= '9'
    ||| "!#$%&'*+-.^_`|~"@.contains(c)
}

/// A header name: a token that is not too long.
pub open spec fn is_header_name(name: Seq<char>) -> bool {
    &&& 0 < name.len() <= 65535
    &&& forall|i: int| 0 <= i < name.len() ==> is_token_char(#[trigger] name[i])
}

/// The small letter of a capital one; any other character as it is.
pub open spec fn lower_char(c: char) -> char {
    if 'A' <= c <= 'Z' {
        ((c as int) + 32) as char
    } else {
        c
    }
}

/// A name in small letters.
pub open spec fn lower(name: Seq<char>) -> Seq<char> {
    name.map_values(|c: char| lower_char(c))
}

/// A byte that a header value may hold.
pub open spec fn is_header_byte(b: u8) -> bool {
    b >= 32 && b != 127 || b == 9
}

/// Bytes that may be a header value.
pub open spec fn is_header_value(value: Seq<u8>) -> bool {
    forall|i: int| 0 <= i < value.len() ==> is_header_byte(#[trigger] value[i])
}

/// Calls `reqwest::header::HeaderName::from_bytes`: it takes exactly the tokens
/// of one to 65535 characters, and gives them back in small letters.
#[verifier::external_body]
fn normal_header_name(name: &str) -> (normal: Option<String>)
    ensures
        match normal {
            Some(normal) => is_header_name(name@) && normal@ == lower(name@),
            None => !is_header_name(name@),
        },
{
    let parsed = reqwest::header::HeaderName::from_bytes(name.as_bytes());
    parsed.ok().map(|name| name.as_str().to_string())
}

/// One header of a request.
pub struct HeaderField {
    pub(crate) name: String,
    pub(crate) value: Vec<u8>,
    pub(crate) sensitive: bool,
}

/// A [`HeaderField`] as a mathematical value.
#[verifier::ext_equal]
pub struct HeaderFieldView {
    pub name: Seq<char>,
    pub value: Seq<u8>,
    pub sensitive: bool,
}

impl View for HeaderField {
    type V = HeaderFieldView;

    closed spec fn view(&self) -> HeaderFieldView {
        HeaderFieldView { name: self.name@, value: self.value@, sensitive: self.sensitive }
    }
}

impl HeaderField {
    #[verifier::type_invariant]
    pub(crate) closed spec fn well_formed(self) -> bool {
        &&& is_header_name(self.name@)
        &&& self.name@ == lower(self.name@)
        &&& is_header_value(self.value@)
    }

    /// A header with this name, in small letters, and this value. There is none
    /// where the name is no token or the value has a control character in it.
    /// The value of one that is `sensitive` is not to be shown.
    pub fn new(name: &str, value: Vec<u8>, sensitive: bool) -> (field: Option<HeaderField>)
        ensures
            field is Some <==> is_header_name(name@) && is_header_value(value@),
            field matches Some(field) ==> field@ == (HeaderFieldView {
                name: lower(name@),
                value: value@,
                sensitive,
            }),
    {
        let mut i: usize = 0;
        while i < value.len()
            invariant
                i <= value@.len(),
                forall|j: int| 0 <= j < i ==> is_header_byte(#[trigger] value@[j]),
            decreases value@.len() - i,
        {
            let b = value[i];
            if !(b >= 32 && b != 127 || b == 9) {
                assert(!is_header_byte(value@[i as int]));
                return None;
            }
            i = i + 1;
        }
        match normal_header_name(name) {
            Some(normal) => {
                proof {
                    lemma_lower_stays(name@);
                }
                Some(HeaderField { name: normal, value, sensitive })
            },
            None => None,
        }
    }

    /// The name, in small letters.
    pub fn name(&self) -> (name: &str)
        ensures
            name@ == self@.name,
    {
        self.name.as_str()
    }

    /// The value.
    pub fn value(&self) -> (value: &[u8])
        ensures
            value@ == self@.value,
    {
        self.value.as_slice()
    }

    /// Whether the value is not to be shown.
    pub fn is_sensitive(&self) -> (sensitive: bool)
        ensures
            sensitive == self@.sensitive,
    {
        self.sensitive
    }
}

/// What is in small letters stays as it is, and stays a header name.
proof fn lemma_lower_stays(name: Seq<char>)
    ensures
        lower(lower(name)) == lower(name),
        is_header_name(name) ==> is_header_name(lower(name)),
{
    assert(lower(lower(name)) =~= lower(name));
    if is_header_name(name) {
        assert forall|i: int| 0 <= i < name.len() implies is_token_char(
            #[trigger] lower(name)[i],
        ) by {
            assert(is_token_char(name[i]));
        }
    }
}

/// The digit of a number below sixteen.
pub open spec fn hex_digit(n: int) -> char {
    "0123456789abcdef"@[n]
}

/// How one byte of a header value is shown.
pub open spec fn shown_byte(b: u8) -> Seq<char> {
    if b == 34 {
        seq!['\\', '"']
    } else if 32 <= b < 127 || b == 9 {
        seq![b as char]
    } else {
        seq!['\\', 'x', hex_digit(b as int / 16), hex_digit(b as int % 16)]
    }
}

/// How the bytes of a header value are shown.
pub open spec fn shown_bytes(value: Seq<u8>) -> Seq<char>
    decreases value.len(),
{
    if value.len() == 0 {
        Seq::empty()
    } else {
        shown_bytes(value.drop_last()) + shown_byte(value.last())
    }
}

/// How a header value is shown: in quotes, with what is not visible ASCII
/// written as its number; or not at all.
pub open spec fn shown_header_value(value: Seq<u8>, sensitive: bool) -> Seq<char> {
    if sensitive {
        "Sensitive"@
    } else {
        seq!['"'] + shown_bytes(value) + seq!['"']
    }
}

/// Calls `Debug` of `reqwest::header::HeaderValue`, on the value with these
/// bytes: it gives [`shown_header_value`].
#[verifier::external_body]
fn debug_header_value(value: &[u8], sensitive: bool) -> (shown: String)
    requires
        is_header_value(value@),
    ensures
        shown@ == shown_header_value(value@, sensitive),
{
    let mut value = reqwest::header::HeaderValue::from_bytes(value).unwrap();
    value.set_sensitive(sensitive);
    format!("{:?}", value)
}

impl HeaderField {
    /// The value as it is shown.
    pub fn shown_value(&self) -> (shown: String)
        ensures
            shown@ == shown_header_value(self@.value, self@.sensitive),
    {
        proof {
            use_type_invariant(self);
        }
        debug_header_value(self.value.as_slice(), self.sensitive)
    }
}

/// The method of a request.
#[derive(Clone, Copy, Debug, PartialEq, Eq, Structural)]
pub enum HttpMethod {
    Get,
    Post,
}

impl HttpMethod {
    /// The method's name, as it goes over the wire.
    pub open spec fn wire_name(self) -> Seq<char> {
        match self {
            HttpMethod::Get => "GET"@,
            HttpMethod::Post => "POST"@,
        }
    }
}

/// What a request carries: bytes, and their media type.
pub struct Content {
    pub media_type: String,
    pub bytes: Vec<u8>,
}

/// A [`Content`] as a mathematical value.
#[verifier::ext_equal]
pub struct ContentView {
    pub media_type: Seq<char>,
    pub bytes: Seq<u8>,
}

/// The content of a request, if it has any, as a mathematical value.
pub open spec fn content_view(content: Option<Content>) -> Option<ContentView> {
    match content {
        Some(content) => Some(
            ContentView { media_type: content.media_type@, bytes: content.bytes@ },
        ),
        None => None,
    }
}

/// A request that is ready to be sent.
pub struct HttpRequest {
    pub method: String,
    pub url: String,
    /// The headers of this request alone: the client adds its own.
    pub headers: Vec<HeaderField>,
    pub body: Option<Vec<u8>>,
}

/// An [`HttpRequest`] as a mathematical value.
#[verifier::ext_equal]
pub struct HttpRequestView {
    pub method: Seq<char>,
    pub url: Seq<char>,
    pub headers: Seq<HeaderFieldView>,
    pub body: Option<Seq<u8>>,
}

/// A list of headers as a mathematical value.
pub open spec fn header_views(headers: Seq<HeaderField>) -> Seq<HeaderFieldView> {
    headers.map_values(|field: HeaderField| field@)
}

impl View for HttpRequest {
    type V = HttpRequestView;

    open spec fn view(&self) -> HttpRequestView {
        HttpRequestView {
            method: self.method@,
            url: self.url@,
            headers: header_views(self.headers@),
            body: match self.body {
                Some(bytes) => Some(bytes@),
                None => None,
            },
        }
    }
}

/// The header that tells the media type of a request's content.
pub open spec fn content_type(media_type: Seq<char>) -> HeaderFieldView {
    HeaderFieldView {
        name: "content-type"@,
        value: encode_utf8(media_type),
        sensitive: false,
    }
}

/// The headers that the content of a request asks for.
pub open spec fn own_headers(content: Option<ContentView>) -> Seq<HeaderFieldView> {
    match content {
        Some(content) => seq![content_type(content.media_type)],
        None => Seq::empty(),
    }
}

/// The headers are these, or these after an `authorization` that is not to be
/// shown.
pub open spec fn adds_credentials_at_most(
    headers: Seq<HeaderFieldView>,
    own: Seq<HeaderFieldView>,
) -> bool {
    ||| headers == own
    ||| {
        &&& headers.len() > 0
        &&& headers[0].name == "authorization"@
        &&& headers[0].sensitive
        &&& headers.skip(1) == own
    }
}

/// Credentials that were added leave the other headers where they are.
pub(crate) proof fn lemma_own_header_stays(
    headers: Seq<HeaderFieldView>,
    own: Seq<HeaderFieldView>,
    i: int,
)
    requires
        adds_credentials_at_most(headers, own),
        0 <= i < own.len(),
    ensures
        headers.contains(own[i]),
{
    if headers == own {
        assert(headers[i] == own[i]);
    } else {
        assert(headers.skip(1).len() == headers.len() - 1);
        assert(headers[i + 1] == headers.skip(1)[i]);
    }
}

/// The `http` or `https` address names a host from `start` to `end`, and no user
/// before it: what stands there is not empty and has neither an `@` nor a
/// character that ends a host or is passed over, and one that ends a host, or
/// nothing, comes after it.
pub open spec fn host_stands_at(address: Seq<char>, start: int, end: int) -> bool {
    &&& start < end <= address.len()
    &&& address.take(start) == "http://"@ || address.take(start) == "https://"@
    &&& forall|i: int| start <= i < end ==> !"@/?#\\\t\n\r"@.contains(#[trigger] address[i])
    &&& end < address.len() ==> "/?#\\"@.contains(address[end])
}

/// Neither a user name nor a password stands in the address: it has no `@`, or
/// none before the end of its host.
pub open spec fn names_no_user(address: Seq<char>) -> bool {
    ||| !address.contains('@')
    ||| exists|start: int, end: int| #[trigger] host_stands_at(address, start, end)
}

/// The text of the URL that `Url::parse` reads from an address, or why it reads
/// none.
pub uninterp spec fn parsed_url(address: Seq<char>) -> Result<Seq<char>, url::ParseError>;

/// The URL that a request for an address is sent to: that of the plain `GET`.
pub open spec fn sent_url(address: Seq<char>) -> Seq<char> {
    built_request("GET"@, address, None)->Ok_0.url
}

/// The request is one for this address. Its URL is the same whatever the method
/// and the content are, and it is the one that the address is read as, unless a
/// user name or a password had to be taken out of it.
pub open spec fn goes_to(request: HttpRequestView, address: Seq<char>) -> bool {
    &&& parsed_url(address) is Ok
    &&& built_request("GET"@, address, None) is Ok
    &&& request.url == sent_url(address)
    &&& names_no_user(address) ==> parsed_url(address) == Ok::<Seq<char>, url::ParseError>(
        request.url,
    )
}

/// Requests for the two addresses are sent to two URLs. Addresses that name no
/// user need only be read as different URLs. Of others it is asked that they
/// differ in more than a user name and a password, which are no part of what a
/// request is sent to.
pub open spec fn lead_apart(one: Seq<char>, other: Seq<char>) -> bool {
    if names_no_user(one) && names_no_user(other) {
        parsed_url(one) != parsed_url(other)
    } else {
        sent_url(one) != sent_url(other)
    }
}

/// The request that `reqwest` builds for a method, an address and a content, or
/// why it builds none.
pub uninterp spec fn built_request(
    method: Seq<char>,
    url: Seq<char>,
    content: Option<ContentView>,
) -> Result<HttpRequestView, reqwest::Error>;

/// Calls `get` or `post` of `reqwest::Client`, on the builder that it gives
/// `header` (for the media type) and `body` where there is a content, then
/// `build`; the request that comes out is read by its accessors. The outcome
/// depends on the method, the address and the content, not on the client. A
/// request that was built has that method and, as its body, those bytes. Its URL
/// depends on the address alone; it is the one that `reqwest::Url::parse` gives,
/// less a user name and a password. These become an `authorization`, marked
/// sensitive, and the only other header is the `content-type` of the content.
/// There is neither a user name nor a password in an address without an `@`, nor
/// in an `http` or `https` one without an `@` before the end of its host.
/// The headers have names in small letters, and values that may be header
/// values.
#[verifier::external_body]
pub(crate) fn build_http(
    client: &reqwest::Client,
    method: HttpMethod,
    url: &str,
    content: Option<Content>,
) -> (built: Result<HttpRequest, reqwest::Error>)
    ensures
        match built {
            Ok(request) => built_request(method.wire_name(), url@, content_view(content)) == Ok::<
                HttpRequestView,
                reqwest::Error,
            >(request@),
            Err(err) => built_request(method.wire_name(), url@, content_view(content)) == Err::<
                HttpRequestView,
                reqwest::Error,
            >(err),
        },
        built matches Ok(request) ==> request@.method == method.wire_name() && request@.body == (
        match content_view(content) {
            Some(content) => Some(content.bytes),
            None => None,
        }),
        built matches Ok(request) ==> parsed_url(url@) is Ok && (names_no_user(url@)
            ==> parsed_url(url@) == Ok::<Seq<char>, url::ParseError>(request@.url)),
        built matches Ok(request) ==> built_request("GET"@, url@, None) is Ok && request@.url
            == sent_url(url@),
        built matches Ok(request) ==> adds_credentials_at_most(
            request@.headers,
            own_headers(content_view(content)),
        ),
        built matches Ok(request) ==> names_no_user(url@) ==> request@.headers == own_headers(
            content_view(content),
        ),
{
    let mut builder = match method {
        HttpMethod::Get => client.get(url),
        HttpMethod::Post => client.post(url),
    };
    if let Some(Content { media_type, bytes }) = content {
        builder = builder.header(reqwest::header::CONTENT_TYPE, media_type).body(bytes);
    }
    let request = builder.build()?;
    let headers = request.headers().iter().map(|(name, value)| HeaderField { name: name.to_string(), value: value.as_bytes().to_vec(), sensitive: value.is_sensitive() }).collect();
    let body = request.body().and_then(|body| body.as_bytes()).map(|bytes| bytes.to_vec());
    Ok(HttpRequest { method: request.method().to_string(), url: request.url().to_string(), headers, body })
}

/// The address that `Url::join` makes of a base address and a reference, or why
/// there is none.
pub uninterp spec fn joined_url(base: Seq<char>, reference: Seq<char>) -> Result<
    Seq<char>,
    url::ParseError,
>;

/// Calls `join` of `reqwest::Url`, on the base address read by
/// `reqwest::Url::parse`; the error of either is the error of the whole. The
/// outcome depends on the two texts alone.
#[verifier::external_body]
pub(crate) fn join_url(base: &str, reference: &str) -> (joined: Result<String, url::ParseError>)
    ensures
        match joined {
            Ok(url) => joined_url(base@, reference@) == Ok::<Seq<char>, url::ParseError>(url@),
            Err(err) => joined_url(base@, reference@) == Err::<Seq<char>, url::ParseError>(err),
        },
{
    let url = reqwest::Url::parse(base)?.join(reference)?;
    Ok(url.to_string())
}

/// A number that is an HTTP status.
pub open spec fn is_status(status: u16) -> bool {
    100 <= status <= 999
}

/// A status that tells of success.
pub open spec fn is_success(status: u16) -> bool {
    200 <= status <= 299
}

/// A status that tells of an error, of the client or of the server.
pub open spec fn is_error(status: u16) -> bool {
    400 <= status <= 599
}

/// Calls `is_success` of `reqwest::StatusCode`: the status is one of 200 to 299.
#[verifier::external_body]
pub(crate) fn status_is_success(status: u16) -> (success: bool)
    requires
        is_status(status),
    ensures
        success == is_success(status),
{
    reqwest::StatusCode::from_u16(status).unwrap().is_success()
}

/// Calls `is_client_error` of `reqwest::StatusCode`: the status is one of 400 to
/// 499.
#[verifier::external_body]
pub(crate) fn status_is_client_error(status: u16) -> (error: bool)
    requires
        is_status(status),
    ensures
        error == (400 <= status <= 499),
{
    reqwest::StatusCode::from_u16(status).unwrap().is_client_error()
}

/// Calls `is_server_error` of `reqwest::StatusCode`: the status is one of 500 to
/// 599.
#[verifier::external_body]
pub(crate) fn status_is_server_error(status: u16) -> (error: bool)
    requires
        is_status(status),
    ensures
        error == (500 <= status <= 599),
{
    reqwest::StatusCode::from_u16(status).unwrap().is_server_error()
}

/// What is taken as a header name is listed: one to 65535 of these characters.
pub proof fn header_names_are_listed(name: Seq<char>)
    ensures
        is_header_name(name) <==> 1 <= name.len() <= 65535 && forall|i: int|
            0 <= i < name.len()
                ==> "abcdefghijklmnopqrstuvwxyzABCDEFGHIJKLMNOPQRSTUVWXYZ0123456789!#$%&'*+-.^_`|~"@.contains(
                #[trigger] name[i],
            ),
{
    assert forall|c: char|
        is_token_char(c)
            == #[trigger] "abcdefghijklmnopqrstuvwxyzABCDEFGHIJKLMNOPQRSTUVWXYZ0123456789!#$%&'*+-.^_`|~"@.contains(
        c,
    ) by {
        lemma_token_char_is_listed(c);
    }
    if is_header_name(name) {
        assert forall|i: int|
            0 <= i
                < name.len() implies "abcdefghijklmnopqrstuvwxyzABCDEFGHIJKLMNOPQRSTUVWXYZ0123456789!#$%&'*+-.^_`|~"@.contains(
        #[trigger] name[i]) by {
            assert(is_token_char(name[i]));
        }
    }
}

proof fn lemma_token_char_is_listed(c: char)
    ensures
        is_token_char(c)
            == "abcdefghijklmnopqrstuvwxyzABCDEFGHIJKLMNOPQRSTUVWXYZ0123456789!#$%&'*+-.^_`|~"@.contains(
            c,
        ),
{
    let listed = "abcdefghijklmnopqrstuvwxyzABCDEFGHIJKLMNOPQRSTUVWXYZ0123456789!#$%&'*+-.^_`|~"@;
    let marks = "!#$%&'*+-.^_`|~"@;
    reveal_strlit("abcdefghijklmnopqrstuvwxyzABCDEFGHIJKLMNOPQRSTUVWXYZ0123456789!#$%&'*+-.^_`|~");
    reveal_strlit("!#$%&'*+-.^_`|~");
    assert(marks =~= listed.skip(62));
    if is_token_char(c) {
        let n = c as int;
        if 'a' <= c <= 'z' {
            assert(listed[n - 97] == c);
        } else if 'A' <= c <= 'Z' {
            assert(listed[n - 65 + 26] == c);
        } else if '0' <= c <= '9' {
            assert(listed[n - 48 + 52] == c);
        } else {
            let k = choose|k: int| 0 <= k < marks.len() && marks[k] == c;
            assert(listed[k + 62] == c);
        }
    }
    if listed.contains(c) {
        let k = choose|k: int| 0 <= k < listed.len() && listed[k] == c;
        if k >= 62 {
            assert(marks[k - 62] == c);
        }
    }
}

/// Bytes are no header value just where one of them is a control character, other
/// than a tab.
pub proof fn header_values_have_no_control_characters(value: Seq<u8>)
    ensures
        is_header_value(value) <==> !(exists|i: int|
            0 <= i < value.len() && ((#[trigger] value[i]) <= 8 || 10 <= value[i] <= 31 || value[i]
                == 127)),
{
    if !is_header_value(value) {
        let i = choose|i: int| 0 <= i < value.len() && !is_header_byte(#[trigger] value[i]);
        assert(value[i] <= 8 || 10 <= value[i] <= 31 || value[i] == 127);
    } else {
        assert forall|i: int| 0 <= i < value.len() implies !((#[trigger] value[i]) <= 8 || 10
            <= value[i] <= 31 || value[i] == 127) by {
            assert(is_header_byte(value[i]));
        }
    }
}

/// A name in small letters has the small letter in the place of each capital one,
/// and every other character as it was.
pub proof fn capitals_become_small(name: Seq<char>)
    ensures
        lower(name).len() == name.len(),
        forall|i: int|
            0 <= i < name.len() && 'A' <= name[i] <= 'Z' ==> (#[trigger] lower(name)[i]) as int
                == name[i] as int + 32,
        forall|i: int|
            0 <= i < name.len() && !('A' <= name[i] <= 'Z') ==> #[trigger] lower(name)[i]
                == name[i],
{
}

/// A value that is not to be shown is not, and any other stands in quotes.
pub proof fn values_stand_in_quotes(value: Seq<u8>)
    ensures
        shown_header_value(value, true) == "Sensitive"@,
        shown_header_value(value, false) == "\""@ + shown_bytes(value) + "\""@,
{
    reveal_strlit("\"");
    assert("\""@ =~= seq!['"']);
}

/// A value is shown byte by byte, in the order of the bytes.
pub proof fn bytes_are_shown_in_order(one: Seq<u8>, other: Seq<u8>)
    ensures
        shown_bytes(one + other) == shown_bytes(one) + shown_bytes(other),
    decreases other.len(),
{
    if other.len() == 0 {
        assert(one + other =~= one);
    } else {
        assert((one + other).drop_last() =~= one + other.drop_last());
        bytes_are_shown_in_order(one, other.drop_last());
    }
}

/// A byte is shown as the character that it stands for where that is visible, a
/// space or a tab, with a backslash before a quote; any other byte as its number in
/// two digits to the base of sixteen.
pub proof fn byte_is_shown_as_character_or_number(b: u8)
    ensures
        b == 34 ==> shown_bytes(seq![b]) == "\\\""@,
        b != 34 && (32 <= b <= 126 || b == 9) ==> shown_bytes(seq![b]).len() == 1 && shown_bytes(
            seq![b],
        )[0] as int == b,
        b != 9 && (b < 32 || b > 126) ==> {
            let shown = shown_bytes(seq![b]);
            let high = b as int / 16;
            let low = b as int % 16;
            &&& shown.len() == 4
            &&& shown[0] == '\\'
            &&& shown[1] == 'x'
            &&& shown[2] as int == (if high < 10 {
                high + 48
            } else {
                high + 87
            })
            &&& shown[3] as int == (if low < 10 {
                low + 48
            } else {
                low + 87
            })
        },
{
    reveal_with_fuel(shown_bytes, 2);
    reveal_strlit("\\\"");
    reveal_strlit("0123456789abcdef");
    assert(seq![b].drop_last() =~= Seq::empty());
    assert(shown_bytes(seq![b]) =~= shown_byte(b));
    assert("\\\""@ =~= seq!['\\', '"']);
}

/// A value of visible characters without a quote among them is shown as it is.
pub proof fn plain_value_is_shown_as_it_is(value: Seq<u8>)
    requires
        forall|i: int|
            0 <= i < value.len() ==> (32 <= #[trigger] value[i] <= 126 || value[i] == 9) && value[i]
                != 34,
    ensures
        shown_bytes(value).len() == value.len(),
        forall|i: int|
            0 <= i < value.len() ==> (#[trigger] shown_bytes(value)[i]) as int == value[i],
    decreases value.len(),
{
    if value.len() > 0 {
        plain_value_is_shown_as_it_is(value.drop_last());
    }
}

/// The views leave nothing out: those of headers, of a content and of a request
/// hold the parts of these, each in its place.
pub proof fn views_leave_nothing_out(
    headers: Seq<HeaderField>,
    content: Content,
    request: HttpRequest,
)
    ensures
        header_views(headers).len() == headers.len(),
        forall|i: int| 0 <= i < headers.len() ==> #[trigger] header_views(headers)[i] == headers[i]@,
        content_view(None) is None,
        content_view(Some(content)) matches Some(seen) && seen.media_type == content.media_type@
            && seen.bytes == content.bytes@,
        request@.method == request.method@,
        request@.url == request.url@,
        request@.headers == header_views(request.headers@),
        request.body is None <==> request@.body is None,
        request.body matches Some(bytes) ==> request@.body == Some(bytes@),
{
}

/// The classes of the statuses are ranges of numbers.
pub proof fn statuses_are_ranges(status: u16)
    ensures
        is_status(status) <==> 100 <= status <= 999,
        is_success(status) <==> 200 <= status <= 299,
        is_error(status) <==> 400 <= status <= 599,
{
}

}
