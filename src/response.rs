//! The error taxonomy and the HTTP-shaped responses of a lookup.
use vstd::prelude::*;
use crate::book::{book_json, BookEntity};
use crate::json::{json_quoted, json_string};

verus! {

/// The kind of an error response.
#[derive(Debug, PartialEq, Eq, Structural, Clone, Copy)]
pub enum ErrorType {
    RequestInvalid,
    RequestUnauthorized,
    NotFound,
    InternalServerError,
}

/// The name a kind is written as in a response body.
pub open spec fn error_type_name(t: ErrorType) -> Seq<char> {
    match t {
        ErrorType::RequestInvalid => "request_invalid"@,
        ErrorType::RequestUnauthorized => "request_unauthorized"@,
        ErrorType::NotFound => "not_found"@,
        ErrorType::InternalServerError => "internal_server_error"@,
    }
}

impl ErrorType {
    /// The name this kind is written as in a response body.
    pub fn as_str(&self) -> (r: &'static str)
        ensures
            r@ == error_type_name(*self),
    {
        match self {
            ErrorType::RequestInvalid => "request_invalid",
            ErrorType::RequestUnauthorized => "request_unauthorized",
            ErrorType::NotFound => "not_found",
            ErrorType::InternalServerError => "internal_server_error",
        }
    }
}

/// The code that marks a stored record that does not decode.
pub open spec fn invalid_record_code() -> Seq<char> {
    "invalid_record"@
}

/// The body of an error response: the request it answers, its kind, and
/// the error codes, if any.
pub struct ErrorResponse {
    pub request_id: String,
    pub error_type: ErrorType,
    pub error_codes: Option<Vec<String>>,
}

/// The texts of a list of error codes, if there is one.
pub open spec fn codes_view(c: Option<Vec<String>>) -> Option<Seq<Seq<char>>> {
    match c {
        None => None,
        Some(v) => Some(v@.map_values(|s: String| s@)),
    }
}

/// The elements of a JSON array of strings, separated by commas.
pub open spec fn json_list(c: Seq<Seq<char>>) -> Seq<char>
    decreases c.len(),
{
    if c.len() == 0 {
        Seq::empty()
    } else if c.len() == 1 {
        json_quoted(c[0])
    } else {
        json_list(c.drop_last()) + ","@ + json_quoted(c.last())
    }
}

/// The JSON object an error response is sent as. Without error codes the
/// `error_codes` key is left out.
pub open spec fn error_json(request_id: Seq<char>, t: ErrorType, codes: Option<Seq<Seq<char>>>) -> Seq<char> {
    "{\"request_id\":"@ + json_quoted(request_id) + ",\"error_type\":\""@ + error_type_name(t) + "\""@
        + match codes {
        None => Seq::empty(),
        Some(c) => ",\"error_codes\":["@ + json_list(c) + "]"@,
    } + "}"@
}

impl ErrorResponse {
    /// No record has the identifier asked for.
    pub fn not_found(request_id: String) -> (r: Self)
        ensures
            r.request_id == request_id,
            r.error_type == ErrorType::NotFound,
            r.error_codes is None,
    {
        Self { request_id, error_type: ErrorType::NotFound, error_codes: None }
    }

    /// The store could not be asked.
    pub fn internal_server(request_id: String) -> (r: Self)
        ensures
            r.request_id == request_id,
            r.error_type == ErrorType::InternalServerError,
            r.error_codes is None,
    {
        Self { request_id, error_type: ErrorType::InternalServerError, error_codes: None }
    }

    /// The stored record does not decode.
    pub fn invalid_record(request_id: String) -> (r: Self)
        ensures
            r.request_id == request_id,
            r.error_type == ErrorType::InternalServerError,
            codes_view(r.error_codes) == Some(seq![invalid_record_code()]),
    {
        let codes = vec![String::from_str("invalid_record")];
        let r = Self {
            request_id,
            error_type: ErrorType::InternalServerError,
            error_codes: Some(codes),
        };
        assert(codes_view(r.error_codes)->0 =~= seq![invalid_record_code()]);
        r
    }

    /// The JSON object this response is sent as.
    pub fn to_json(&self) -> (r: String)
        ensures
            r@ == error_json(self.request_id@, self.error_type, codes_view(self.error_codes)),
    {
        let mut r = String::from_str("{\"request_id\":");
        r.append(json_string(self.request_id.as_str()).as_str());
        r.append(",\"error_type\":\"");
        r.append(self.error_type.as_str());
        r.append("\"");
        match &self.error_codes {
            None => {},
            Some(codes) => {
                let ghost c = codes@.map_values(|s: String| s@);
                r.append(",\"error_codes\":[");
                let ghost head = r@;
                let mut i: usize = 0;
                while i < codes.len()
                    invariant
                        i <= codes@.len(),
                        c == codes@.map_values(|s: String| s@),
                        r@ == head + json_list(c.subrange(0, i as int)),
                    decreases codes@.len() - i,
                {
                    proof {
                        assert(c.subrange(0, i + 1).drop_last() =~= c.subrange(0, i as int));
                    }
                    if i > 0 {
                        r.append(",");
                    }
                    r.append(json_string(codes[i].as_str()).as_str());
                    proof {
                        if i == 0 {
                            assert(json_list(c.subrange(0, 0)) =~= Seq::<char>::empty());
                        }
                    }
                    i = i + 1;
                }
                assert(c.subrange(0, codes@.len() as int) =~= c);
                r.append("]");
            },
        }
        r.append("}");
        r
    }
}

/// An HTTP response: status, headers in order, and a text body.
pub struct Response {
    pub status: u16,
    pub headers: Vec<(String, String)>,
    pub body: String,
}

/// What a response is: its status, its headers as texts, and its body.
pub struct ResponseView {
    pub status: u16,
    pub headers: Seq<(Seq<char>, Seq<char>)>,
    pub body: Seq<char>,
}

impl View for Response {
    type V = ResponseView;

    open spec fn view(&self) -> ResponseView {
        ResponseView {
            status: self.status,
            headers: self.headers@.map_values(|h: (String, String)| (h.0@, h.1@)),
            body: self.body@,
        }
    }
}

/// The two fixed diagnostic headers of a successful lookup.
pub open spec fn diagnostic_headers() -> Seq<(Seq<char>, Seq<char>)> {
    seq![("x-foo-bar"@, "bar"@), ("x-bar-baz"@, "baz"@)]
}

/// The answer that carries a record.
pub open spec fn found_view(id: u128, title: Seq<char>) -> ResponseView {
    ResponseView { status: 200, headers: diagnostic_headers(), body: book_json(id, title) }
}

/// The answer of status `status` that carries an error body.
pub open spec fn error_view(
    status: u16,
    request_id: Seq<char>,
    t: ErrorType,
    codes: Option<Seq<Seq<char>>>,
) -> ResponseView {
    ResponseView { status, headers: Seq::empty(), body: error_json(request_id, t, codes) }
}

fn error_reply(status: u16, e: ErrorResponse) -> (r: Response)
    ensures
        r@ == error_view(status, e.request_id@, e.error_type, codes_view(e.error_codes)),
{
    let r = Response { status, headers: Vec::new(), body: e.to_json() };
    assert(r@.headers =~= Seq::empty());
    r
}

/// The 404 answer to the request `request_id`.
pub fn not_found(request_id: String) -> (r: Response)
    ensures
        r@ == error_view(404, request_id@, ErrorType::NotFound, None),
{
    error_reply(404, ErrorResponse::not_found(request_id))
}

/// The 500 answer to the request `request_id` when the store failed.
pub fn internal_server(request_id: String) -> (r: Response)
    ensures
        r@ == error_view(500, request_id@, ErrorType::InternalServerError, None),
{
    error_reply(500, ErrorResponse::internal_server(request_id))
}

/// The 500 answer to the request `request_id` when the stored record does
/// not decode; its body carries the code `invalid_record`.
pub fn invalid_record(request_id: String) -> (r: Response)
    ensures
        r@ == error_view(
            500,
            request_id@,
            ErrorType::InternalServerError,
            Some(seq![invalid_record_code()]),
        ),
{
    error_reply(500, ErrorResponse::invalid_record(request_id))
}

/// The 200 answer that carries `book`, with the diagnostic headers.
pub fn found(book: &BookEntity) -> (r: Response)
    ensures
        r@ == found_view(book.id, book.title@),
{
    let mut headers: Vec<(String, String)> = Vec::new();
    headers.push((String::from_str("x-foo-bar"), String::from_str("bar")));
    headers.push((String::from_str("x-bar-baz"), String::from_str("baz")));
    let r = Response { status: 200, headers, body: book.to_json() };
    assert(r@.headers =~= diagnostic_headers());
    r
}

} // verus!
