//! A request of the API, and the text that shows it without its secrets.

use core::marker::PhantomData;

use vstd::prelude::*;
use vstd::string::StringExecFns;

use crate::http::header_views;
use crate::http::lower;
use crate::http::shown_bytes;
use crate::http::shown_header_value;
use crate::http::values_stand_in_quotes;
use crate::http::HeaderField;
use crate::http::HeaderFieldView;
use crate::http::HttpRequest;
use crate::http::HttpRequestView;
use crate::response::PendingResponse;

verus! {

/// How `Debug` shows a string: in quotes, with escapes.
pub uninterp spec fn shown_str(text: Seq<char>) -> Seq<char>;

/// Calls `Debug` of `str`. The outcome depends on the text alone.
#[verifier::external_body]
fn debug_str(text: &str) -> (shown: String)
    ensures
        shown@ == shown_str(text@),
{
    format!("{:?}", text)
}

/// The headers whose values must never be written to logs.
pub open spec fn is_secret_header(name: Seq<char>) -> bool {
    ||| name == "x-authentication"@
    ||| name == "authorization"@
    ||| name == "cookie"@
    ||| name == "set-cookie"@
}

/// Whether the value of the header must never be written to logs. Header names
/// are in small letters, so the comparison does not depend on how the name was
/// written.
pub fn must_redact(name: &str) -> (secret: bool)
    ensures
        secret == is_secret_header(name@),
{
    let name = name.to_owned();
    name == "x-authentication".to_owned() || name == "authorization".to_owned() || name
        == "cookie".to_owned() || name == "set-cookie".to_owned()
}

/// What stands in the place of a secret value.
pub open spec fn redaction_mark() -> Seq<char> {
    "\"<redacted>\""@
}

/// How one header is shown, behind its name as that is shown.
pub open spec fn header_line(shown_name: Seq<char>, field: HeaderFieldView) -> Seq<char> {
    shown_name + ": "@ + (if is_secret_header(field.name) {
        redaction_mark()
    } else {
        shown_header_value(field.value, field.sensitive)
    })
}

/// How each of the headers is shown, behind its name as that is shown.
pub open spec fn header_lines(
    shown_names: Seq<Seq<char>>,
    headers: Seq<HeaderFieldView>,
) -> Seq<Seq<char>> {
    Seq::new(headers.len(), |i: int| header_line(shown_names[i], headers[i]))
}

/// Texts on one line, with commas between them.
pub open spec fn on_one_line(texts: Seq<Seq<char>>) -> Seq<char>
    decreases texts.len(),
{
    if texts.len() == 0 {
        Seq::empty()
    } else if texts.len() == 1 {
        texts[0]
    } else {
        on_one_line(texts.drop_last()) + ", "@ + texts.last()
    }
}

/// Texts one to a line, one step in from the margin.
pub open spec fn on_lines(texts: Seq<Seq<char>>, margin: Seq<char>) -> Seq<char>
    decreases texts.len(),
{
    if texts.len() == 0 {
        Seq::empty()
    } else {
        on_lines(texts.drop_last(), margin) + margin + "    "@ + texts.last() + ",\n"@
    }
}

/// Texts in braces: on one line, or over several of which all but the first begin
/// with the margin.
pub open spec fn in_braces(
    texts: Seq<Seq<char>>,
    alternate: bool,
    margin: Seq<char>,
) -> Seq<char> {
    if texts.len() == 0 {
        "{}"@
    } else if alternate {
        "{\n"@ + on_lines(texts, margin) + margin + "}"@
    } else {
        "{"@ + on_one_line(texts) + "}"@
    }
}

/// How a request is shown, with its address and the names of its headers as
/// those are shown: on one line, or over several. Neither the body nor the client
/// is part of it.
pub open spec fn request_layout(
    request: HttpRequestView,
    shown_url: Seq<char>,
    shown_names: Seq<Seq<char>>,
    alternate: bool,
) -> Seq<char> {
    let headers = in_braces(header_lines(shown_names, request.headers), alternate, "    "@);
    if alternate {
        "BetfairRequest {\n    method: "@ + request.method + ",\n    url: "@ + shown_url
            + ",\n    headers: "@ + headers + ",\n    ..\n}"@
    } else {
        "BetfairRequest { method: "@ + request.method + ", url: "@ + shown_url + ", headers: "@
            + headers + ", .. }"@
    }
}

/// How `Debug` shows the names of the headers.
pub open spec fn names_shown(headers: Seq<HeaderFieldView>) -> Seq<Seq<char>> {
    headers.map_values(|field: HeaderFieldView| shown_str(field.name))
}

/// How headers are shown: on one line, or over several of which all but the first
/// begin with the margin.
pub open spec fn headers_text(
    headers: Seq<HeaderFieldView>,
    alternate: bool,
    margin: Seq<char>,
) -> Seq<char> {
    in_braces(header_lines(names_shown(headers), headers), alternate, margin)
}

/// How a request is shown.
pub open spec fn request_text(request: HttpRequestView, alternate: bool) -> Seq<char> {
    request_layout(request, shown_str(request.url), names_shown(request.headers), alternate)
}

/// The texts that strings hold.
pub open spec fn string_views(strings: Seq<String>) -> Seq<Seq<char>> {
    strings.map_values(|string: String| string@)
}

/// Shows one header, behind its name as that is shown.
pub fn show_header(shown_name: &str, field: &HeaderField) -> (text: String)
    ensures
        text@ == header_line(shown_name@, field@),
{
    let mut text = shown_name.to_owned();
    text.append(": ");
    if must_redact(field.name()) {
        text.append("\"<redacted>\"");
    } else {
        text.append(field.shown_value().as_str());
    }
    text
}

/// Shows headers, each behind its name as that is shown.
pub fn show_headers(
    shown_names: &Vec<String>,
    headers: &Vec<HeaderField>,
    alternate: bool,
    margin: &str,
) -> (text: String)
    requires
        shown_names@.len() == headers@.len(),
    ensures
        text@ == in_braces(
            header_lines(string_views(shown_names@), header_views(headers@)),
            alternate,
            margin@,
        ),
{
    let ghost lines = header_lines(string_views(shown_names@), header_views(headers@));
    if headers.len() == 0 {
        return "{}".to_owned();
    }
    let mut text = if alternate {
        "{\n".to_owned()
    } else {
        "{".to_owned()
    };
    let ghost open = text@;
    let mut i: usize = 0;
    while i < headers.len()
        invariant
            i <= headers@.len(),
            shown_names@.len() == headers@.len(),
            lines == header_lines(string_views(shown_names@), header_views(headers@)),
            alternate ==> text@ == open + on_lines(lines.take(i as int), margin@),
            !alternate ==> text@ == open + on_one_line(lines.take(i as int)),
        decreases headers@.len() - i,
    {
        let line = show_header(shown_names[i].as_str(), &headers[i]);
        proof {
            assert(lines.take(i + 1).drop_last() =~= lines.take(i as int));
            assert(lines.take(i + 1).last() == line@);
        }
        if alternate {
            text.append(margin);
            text.append("    ");
            text.append(line.as_str());
            text.append(",\n");
        } else {
            if i > 0 {
                text.append(", ");
            }
            text.append(line.as_str());
        }
        proof {
            if alternate {
                assert(text@ =~= open + on_lines(lines.take(i + 1), margin@));
            } else {
                assert(lines.take(i + 1)[0] == lines[0]);
                assert(text@ =~= open + on_one_line(lines.take(i + 1)));
            }
        }
        i = i + 1;
    }
    assert(lines.take(lines.len() as int) =~= lines);
    if alternate {
        text.append(margin);
        text.append("}");
    } else {
        text.append("}");
    }
    text
}

/// Shows a request, with its address and the names of its headers as those are
/// shown.
pub fn show_request(
    request: &HttpRequest,
    shown_url: &str,
    shown_names: &Vec<String>,
    alternate: bool,
) -> (text: String)
    requires
        shown_names@.len() == request.headers@.len(),
    ensures
        text@ == request_layout(request@, shown_url@, string_views(shown_names@), alternate),
{
    let headers = show_headers(shown_names, &request.headers, alternate, "    ");
    if alternate {
        let mut text = "BetfairRequest {\n    method: ".to_owned();
        text.append(request.method.as_str());
        text.append(",\n    url: ");
        text.append(shown_url);
        text.append(",\n    headers: ");
        text.append(headers.as_str());
        text.append(",\n    ..\n}");
        text
    } else {
        let mut text = "BetfairRequest { method: ".to_owned();
        text.append(request.method.as_str());
        text.append(", url: ");
        text.append(shown_url);
        text.append(", headers: ");
        text.append(headers.as_str());
        text.append(", .. }");
        text
    }
}

/// The names of the headers, as `Debug` shows them.
fn show_names(headers: &Vec<HeaderField>) -> (shown_names: Vec<String>)
    ensures
        string_views(shown_names@) == names_shown(header_views(headers@)),
{
    let mut shown_names: Vec<String> = Vec::new();
    let mut i: usize = 0;
    while i < headers.len()
        invariant
            i <= headers@.len(),
            string_views(shown_names@) == names_shown(header_views(headers@)).take(i as int),
        decreases headers@.len() - i,
    {
        let ghost before = shown_names@;
        shown_names.push(debug_str(headers[i].name()));
        proof {
            let names = names_shown(header_views(headers@));
            assert(string_views(shown_names@) =~= string_views(before).push(names[i as int]));
            assert(names.take(i + 1) =~= names.take(i as int).push(names[i as int]));
        }
        i = i + 1;
    }
    proof {
        let names = names_shown(header_views(headers@));
        assert(names.take(names.len() as int) =~= names);
    }
    shown_names
}

/// Headers, to be shown without the secrets among them.
pub struct RedactedHeaders<'a>(pub &'a Vec<HeaderField>);

impl<'a> RedactedHeaders<'a> {
    /// The text that shows the headers: on one line or, if `alternate`, one to a
    /// line.
    pub fn fmt(&self, alternate: bool) -> (text: String)
        ensures
            text@ == headers_text(header_views(self.0@), alternate, Seq::empty()),
    {
        let shown_names = show_names(self.0);
        assert(string_views(shown_names@).len() == shown_names@.len());
        show_headers(&shown_names, self.0, alternate, String::new().as_str())
    }
}

/// A request of the API that is ready to be sent, with the client to send it.
/// `T` is what a successful answer holds, `E` the exception of an unsuccessful
/// one.
pub struct BetfairRequest<T, E> {
    request: HttpRequest,
    client: reqwest::Client,
    result: PhantomData<T>,
    err: PhantomData<E>,
}

impl<T, E> View for BetfairRequest<T, E> {
    type V = HttpRequestView;

    closed spec fn view(&self) -> HttpRequestView {
        self.request@
    }
}

/// What it takes to send a request, and what waits for its answer.
pub struct Dispatch<T, E> {
    pub request: HttpRequest,
    pub client: reqwest::Client,
    pub pending: PendingResponse<T, E>,
}

impl<T, E> BetfairRequest<T, E> {
    /// The client that will send the request.
    pub closed spec fn sender(self) -> reqwest::Client {
        self.client
    }

    /// A request, and the client to send it.
    pub fn new(request: HttpRequest, client: reqwest::Client) -> (whole: BetfairRequest<T, E>)
        ensures
            whole@ == request@,
            whole.sender() == client,
    {
        BetfairRequest { request, client, result: PhantomData, err: PhantomData }
    }

    /// The method of the request.
    pub fn method(&self) -> (method: &str)
        ensures
            method@ == self@.method,
    {
        self.request.method.as_str()
    }

    /// The URL that the request is sent to.
    pub fn url(&self) -> (url: &str)
        ensures
            url@ == self@.url,
    {
        self.request.url.as_str()
    }

    /// The text that shows the request: on one line or, if `alternate`, over
    /// several. The client does not show, nor does the value of a header that
    /// must never be written to logs.
    pub fn fmt(&self, alternate: bool) -> (text: String)
        ensures
            text@ == request_text(self@, alternate),
    {
        let shown_url = debug_str(self.request.url.as_str());
        let shown_names = show_names(&self.request.headers);
        assert(string_views(shown_names@).len() == shown_names@.len());
        show_request(&self.request, shown_url.as_str(), &shown_names, alternate)
    }

    /// Hands out what is to be sent, and the client that is to send it.
    pub fn execute(self) -> (dispatch: Dispatch<T, E>)
        ensures
            dispatch.request@ == self@,
            dispatch.client == self.sender(),
    {
        Dispatch {
            request: self.request,
            client: self.client,
            pending: PendingResponse::new(),
        }
    }
}

/// Two headers that cannot be told apart in the text that shows them: they have
/// the same name, and one of these holds: the name is that of a secret, or both
/// are marked as not to be shown, or they are the same in all.
pub open spec fn shown_alike(a: HeaderFieldView, b: HeaderFieldView) -> bool {
    &&& a.name == b.name
    &&& is_secret_header(a.name) || (a.sensitive && b.sensitive) || a == b
}

/// Nothing of a secret shows: two requests with the same method and address,
/// whose headers differ at most in the values of secret ones and of ones that
/// are marked as not to be shown, are shown by the same text, whatever bodies
/// they carry.
pub proof fn secrets_do_not_show(a: HttpRequestView, b: HttpRequestView, alternate: bool)
    requires
        a.method == b.method,
        a.url == b.url,
        a.headers.len() == b.headers.len(),
        forall|i: int|
            0 <= i < a.headers.len() ==> shown_alike(#[trigger] a.headers[i], b.headers[i]),
    ensures
        request_text(a, alternate) == request_text(b, alternate),
{
    secrets_do_not_show_in_headers(a.headers, b.headers, alternate, "    "@);
}

/// Nothing of a secret shows in the text of the headers alone: two lists of
/// headers that differ at most in the values of secret ones and of ones that are
/// marked as not to be shown are shown by the same text.
pub proof fn secrets_do_not_show_in_headers(
    a: Seq<HeaderFieldView>,
    b: Seq<HeaderFieldView>,
    alternate: bool,
    margin: Seq<char>,
)
    requires
        a.len() == b.len(),
        forall|i: int| 0 <= i < a.len() ==> shown_alike(#[trigger] a[i], b[i]),
    ensures
        headers_text(a, alternate, margin) == headers_text(b, alternate, margin),
{
    let (c, d) = (header_lines(names_shown(a), a), header_lines(names_shown(b), b));
    assert forall|i: int| 0 <= i < c.len() implies c[i] == d[i] by {
        assert(shown_alike(a[i], b[i]));
    }
    assert(c =~= d);
}

/// `part` stands somewhere in `text`.
pub open spec fn occurs_in(part: Seq<char>, text: Seq<char>) -> bool {
    exists|before: Seq<char>, after: Seq<char>| text == #[trigger] (before + part + after)
}

proof fn lemma_occurs_in_longer(
    part: Seq<char>,
    text: Seq<char>,
    before: Seq<char>,
    after: Seq<char>,
)
    requires
        occurs_in(part, text),
    ensures
        occurs_in(part, before + text + after),
{
    let (b, a) = choose|b: Seq<char>, a: Seq<char>| text == #[trigger] (b + part + a);
    assert(before + text + after =~= (before + b) + part + (a + after));
}

/// Every secret is marked as left out: a request with a secret header is shown
/// by a text in which the mark stands.
pub proof fn redaction_is_marked(request: HttpRequestView, i: int, alternate: bool)
    requires
        0 <= i < request.headers.len(),
        is_secret_header(request.headers[i].name),
    ensures
        occurs_in(redaction_mark(), request_text(request, alternate)),
{
    let mark = redaction_mark();
    let lines = header_lines(names_shown(request.headers), request.headers);
    let margin = "    "@;
    let headers = in_braces(lines, alternate, margin);
    assert(lines[i] =~= shown_str(request.headers[i].name) + ": "@ + mark + Seq::empty());
    lemma_occurs_in_lines(mark, lines, i, margin);
    if alternate {
        lemma_occurs_in_longer(mark, on_lines(lines, margin), "{\n"@, margin + "}"@);
        assert(headers =~= "{\n"@ + on_lines(lines, margin) + (margin + "}"@));
        lemma_occurs_in_longer(
            mark,
            headers,
            "BetfairRequest {\n    method: "@ + request.method + ",\n    url: "@ + shown_str(
                request.url,
            ) + ",\n    headers: "@,
            ",\n    ..\n}"@,
        );
    } else {
        lemma_occurs_in_longer(mark, on_one_line(lines), "{"@, "}"@);
        lemma_occurs_in_longer(
            mark,
            headers,
            "BetfairRequest { method: "@ + request.method + ", url: "@ + shown_str(request.url)
                + ", headers: "@,
            ", .. }"@,
        );
    }
}

proof fn lemma_occurs_in_lines(
    part: Seq<char>,
    texts: Seq<Seq<char>>,
    i: int,
    margin: Seq<char>,
)
    requires
        0 <= i < texts.len(),
        occurs_in(part, texts[i]),
    ensures
        occurs_in(part, on_one_line(texts)),
        occurs_in(part, on_lines(texts, margin)),
    decreases texts.len(),
{
    let nothing = Seq::<char>::empty();
    let front = texts.drop_last();
    let last = texts.last();
    if i == texts.len() - 1 {
        lemma_occurs_in_longer(part, last, on_lines(front, margin) + margin + "    "@, ",\n"@);
        if texts.len() > 1 {
            lemma_occurs_in_longer(part, last, on_one_line(front) + ", "@, nothing);
            assert(on_one_line(texts) =~= on_one_line(front) + ", "@ + last + nothing);
        }
    } else {
        assert(front[i] == texts[i]);
        lemma_occurs_in_lines(part, front, i, margin);
        lemma_occurs_in_longer(part, on_one_line(front), nothing, ", "@ + last);
        assert(on_one_line(texts) =~= nothing + on_one_line(front) + (", "@ + last));
        let line = margin + "    "@ + last + ",\n"@;
        lemma_occurs_in_longer(part, on_lines(front, margin), nothing, line);
        assert(on_lines(texts, margin) =~= nothing + on_lines(front, margin) + line);
    }
}

/// It does not matter in which letters the name of a secret header was written:
/// a header under any spelling of the name is shown by the mark.
pub proof fn any_spelling_is_redacted(
    spelling: Seq<char>,
    secret: Seq<char>,
    value: Seq<u8>,
    sensitive: bool,
)
    requires
        is_secret_header(secret),
        lower(spelling) == lower(secret),
    ensures
        header_line(
            shown_str(lower(spelling)),
            (HeaderFieldView { name: lower(spelling), value, sensitive }),
        ) == shown_str(secret) + ": "@ + redaction_mark(),
{
    reveal_strlit("x-authentication");
    reveal_strlit("authorization");
    reveal_strlit("cookie");
    reveal_strlit("set-cookie");
    assert(lower(secret) =~= secret);
}

/// A header is shown with its value, in quotes, unless it is one of the four
/// secret ones, which are shown by the mark, or is marked as not to be shown.
pub proof fn only_secrets_are_left_out(shown_name: Seq<char>, field: HeaderFieldView)
    ensures
        field.name == "x-authentication"@ || field.name == "authorization"@ || field.name
            == "cookie"@ || field.name == "set-cookie"@ ==> header_line(shown_name, field)
            == shown_name + ": "@ + "\"<redacted>\""@,
        field.name != "x-authentication"@ && field.name != "authorization"@ && field.name
            != "cookie"@ && field.name != "set-cookie"@ && !field.sensitive ==> header_line(
            shown_name,
            field,
        ) == shown_name + ": "@ + ("\""@ + shown_bytes(field.value) + "\""@),
        field.name != "x-authentication"@ && field.name != "authorization"@ && field.name
            != "cookie"@ && field.name != "set-cookie"@ && field.sensitive ==> header_line(
            shown_name,
            field,
        ) == shown_name + ": "@ + "Sensitive"@,
{
    values_stand_in_quotes(field.value);
}

/// The names whose headers must never be written to logs are these four, and no
/// others.
pub proof fn four_names_are_secret(name: Seq<char>)
    ensures
        is_secret_header(name) <==> seq![
            "x-authentication"@,
            "authorization"@,
            "cookie"@,
            "set-cookie"@,
        ].contains(name),
{
    let names = seq!["x-authentication"@, "authorization"@, "cookie"@, "set-cookie"@];
    assert(names[0] == "x-authentication"@);
    assert(names[1] == "authorization"@);
    assert(names[2] == "cookie"@);
    assert(names[3] == "set-cookie"@);
}

/// Each header has a line of its own: headers are shown by as many lines as
/// they are, and each line is that of the header in its place, behind the name in
/// the same place. The names are those that `Debug` shows.
pub proof fn each_header_has_its_line(
    shown_names: Seq<String>,
    headers: Seq<HeaderFieldView>,
    i: int,
)
    requires
        0 <= i < headers.len(),
        shown_names.len() == headers.len(),
    ensures
        string_views(shown_names).len() == headers.len(),
        string_views(shown_names)[i] == shown_names[i]@,
        names_shown(headers).len() == headers.len(),
        names_shown(headers)[i] == shown_str(headers[i].name),
        header_lines(string_views(shown_names), headers).len() == headers.len(),
        header_lines(string_views(shown_names), headers)[i] == header_line(
            shown_names[i]@,
            headers[i],
        ),
        header_lines(names_shown(headers), headers).len() == headers.len(),
        header_lines(names_shown(headers), headers)[i] == header_line(
            shown_str(headers[i].name),
            headers[i],
        ),
{
}

/// Texts in braces grow by one text at a time: there is nothing between the braces
/// of none, a single one stands there alone, and one more comes after the others,
/// behind a comma or on a line of its own.
pub proof fn braces_hold_the_texts(texts: Seq<Seq<char>>, text: Seq<char>, margin: Seq<char>)
    ensures
        in_braces(Seq::empty(), false, margin) == "{}"@,
        in_braces(Seq::empty(), true, margin) == "{}"@,
        in_braces(seq![text], false, margin) == "{"@ + text + "}"@,
        in_braces(seq![text], true, margin) == "{\n"@ + margin + "    "@ + text + ",\n"@ + margin
            + "}"@,
        texts.len() > 0 ==> in_braces(texts.push(text), false, margin) == in_braces(
            texts,
            false,
            margin,
        ).drop_last() + ", "@ + text + "}"@,
        texts.len() > 0 ==> in_braces(texts.push(text), true, margin) == in_braces(
            texts,
            true,
            margin,
        ).take(in_braces(texts, true, margin).len() - margin.len() - 1) + margin + "    "@ + text
            + ",\n"@ + margin + "}"@,
{
    reveal_with_fuel(on_lines, 2);
    reveal_strlit("}");
    assert(seq![text].drop_last() =~= Seq::empty());
    assert(in_braces(seq![text], true, margin) =~= "{\n"@ + margin + "    "@ + text + ",\n"@
        + margin + "}"@);
    if texts.len() > 0 {
        let more = texts.push(text);
        assert(more.drop_last() =~= texts);
        assert(in_braces(texts, false, margin).drop_last() =~= "{"@ + on_one_line(texts));
        assert(in_braces(more, false, margin) =~= in_braces(texts, false, margin).drop_last()
            + ", "@ + text + "}"@);
        let shown = in_braces(texts, true, margin);
        assert(shown.take(shown.len() - margin.len() - 1) =~= "{\n"@ + on_lines(texts, margin));
        assert(in_braces(more, true, margin) =~= shown.take(shown.len() - margin.len() - 1)
            + margin + "    "@ + text + ",\n"@ + margin + "}"@);
    }
}

/// The text of a request tells its method, its address and its headers, in this
/// order, and nothing else of it: the address as it is shown, and of each header
/// its line.
pub proof fn request_is_told_in_order(
    request: HttpRequestView,
    shown_url: Seq<char>,
    shown_names: Seq<Seq<char>>,
    lines: Seq<Seq<char>>,
)
    requires
        shown_names.len() == request.headers.len(),
        lines.len() == request.headers.len(),
        forall|i: int|
            0 <= i < lines.len() ==> #[trigger] lines[i] == header_line(
                shown_names[i],
                request.headers[i],
            ),
    ensures
        request_layout(request, shown_url, shown_names, false)
            == "BetfairRequest { method: "@ + request.method + ", url: "@ + shown_url
            + ", headers: "@ + in_braces(lines, false, Seq::empty()) + ", .. }"@,
        request_layout(request, shown_url, shown_names, true)
            == "BetfairRequest {\n    method: "@ + request.method + ",\n    url: "@ + shown_url
            + ",\n    headers: "@ + in_braces(lines, true, "    "@) + ",\n    ..\n}"@,
{
    assert(header_lines(shown_names, request.headers) =~= lines);
}

/// The text of a request is laid out with its own address and the names of its own
/// headers, as `Debug` shows them, and so is the text of headers alone.
pub proof fn request_is_shown_by_its_own_names(
    request: HttpRequestView,
    shown_names: Seq<Seq<char>>,
    lines: Seq<Seq<char>>,
    alternate: bool,
    margin: Seq<char>,
)
    requires
        shown_names.len() == request.headers.len(),
        lines.len() == request.headers.len(),
        forall|i: int|
            0 <= i < lines.len() ==> #[trigger] shown_names[i] == shown_str(
                request.headers[i].name,
            ),
        forall|i: int|
            0 <= i < lines.len() ==> #[trigger] lines[i] == header_line(
                shown_str(request.headers[i].name),
                request.headers[i],
            ),
    ensures
        request_text(request, alternate) == request_layout(
            request,
            shown_str(request.url),
            shown_names,
            alternate,
        ),
        headers_text(request.headers, alternate, margin) == in_braces(lines, alternate, margin),
{
    assert(names_shown(request.headers) =~= shown_names);
    assert(header_lines(names_shown(request.headers), request.headers) =~= lines);
}

/// Every header shows: the text of a request has in it, for each of its headers,
/// the name and behind it the value, in quotes, or what stands for a value that is
/// not to be shown.
pub proof fn every_header_shows(request: HttpRequestView, i: int, alternate: bool)
    requires
        0 <= i < request.headers.len(),
    ensures
        occurs_in(
            shown_str(request.headers[i].name) + ": "@ + (if seq![
                "x-authentication"@,
                "authorization"@,
                "cookie"@,
                "set-cookie"@,
            ].contains(request.headers[i].name) {
                "\"<redacted>\""@
            } else if request.headers[i].sensitive {
                "Sensitive"@
            } else {
                "\""@ + shown_bytes(request.headers[i].value) + "\""@
            }),
            request_text(request, alternate),
        ),
{
    let field = request.headers[i];
    let lines = header_lines(names_shown(request.headers), request.headers);
    let margin = "    "@;
    let nothing = Seq::<char>::empty();
    let headers = in_braces(lines, alternate, margin);
    four_names_are_secret(field.name);
    only_secrets_are_left_out(shown_str(field.name), field);
    let line = header_line(shown_str(field.name), field);
    assert(lines[i] == line);
    assert(lines[i] =~= nothing + line + nothing);
    lemma_occurs_in_lines(line, lines, i, margin);
    if alternate {
        lemma_occurs_in_longer(line, on_lines(lines, margin), "{\n"@, margin + "}"@);
        assert(headers =~= "{\n"@ + on_lines(lines, margin) + (margin + "}"@));
        lemma_occurs_in_longer(
            line,
            headers,
            "BetfairRequest {\n    method: "@ + request.method + ",\n    url: "@ + shown_str(
                request.url,
            ) + ",\n    headers: "@,
            ",\n    ..\n}"@,
        );
    } else {
        lemma_occurs_in_longer(line, on_one_line(lines), "{"@, "}"@);
        lemma_occurs_in_longer(
            line,
            headers,
            "BetfairRequest { method: "@ + request.method + ", url: "@ + shown_str(request.url)
                + ", headers: "@,
            ", .. }"@,
        );
    }
}

}
