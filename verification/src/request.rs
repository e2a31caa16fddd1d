//! Reading an HTTP request out of the bytes received.
use crate::headers::{
    collect_content_length, content_length_values_valid, header_values_valid, RawHeader,
};
use crate::service::{get_method, post_method};
use crate::text::same_text;
use vstd::prelude::*;
use vstd::string::StringExecFns;

verus! {

/// How many bytes of a connection are read as one request.
pub const BUFFER_SIZE: usize = 1024;

/// How many headers `parse` makes room for.
pub const PARSE_MAX_HEADERS: usize = 8;

/// The error `httparse` reports for bytes that are not an HTTP request head.
#[verifier::external_type_specification]
#[verifier::external_body]
pub struct ExHttparseError(httparse::Error);

/// What `httparse` reads out of a request head: the method and path if it got that
/// far, the headers, and the length of the head when it is complete.
pub struct RawHead {
    pub method: Option<String>,
    pub path: Option<String>,
    pub headers: Vec<RawHeader>,
    pub complete: Option<usize>,
}

/// The view of a `RawHead`: its texts and bytes as sequences.
pub struct HeadView {
    pub method: Option<Seq<char>>,
    pub path: Option<Seq<char>>,
    pub headers: Seq<(Seq<char>, Seq<u8>)>,
    pub complete: Option<usize>,
}

/// The characters of an optional string.
pub open spec fn opt_text(s: Option<String>) -> Option<Seq<char>> {
    match s {
        Some(t) => Some(t@),
        None => None,
    }
}

impl View for RawHead {
    type V = HeadView;

    open spec fn view(&self) -> HeadView {
        HeadView {
            method: opt_text(self.method),
            path: opt_text(self.path),
            headers: self.headers@.map_values(|h: RawHeader| h@),
            complete: self.complete,
        }
    }
}

/// What `httparse::Request::parse` reads out of `buffer` with room for `max_headers`
/// headers, or `None` when it reports an error.
pub uninterp spec fn httparse_request(buffer: Seq<u8>, max_headers: usize) -> Option<HeadView>;

/// The facts that `httparse` gives of every head it reads out of `len` bytes: the
/// method is read before the path; a complete head has both and is no longer than
/// the bytes; header values hold only bytes a header value may hold.
pub open spec fn head_is_well_formed(h: HeadView, len: nat) -> bool {
    &&& h.path is Some ==> h.method is Some
    &&& h.complete matches Some(n) ==> n <= len && h.path is Some && h.method is Some
    &&& header_values_valid(h.headers)
}

/// `httparse::Request::parse` on `buffer` with room for `max_headers` headers. On
/// success the result is the named read of the buffer, with the facts of
/// `head_is_well_formed`; which error it reports otherwise is not stated.
#[verifier::external_body]
pub(crate) fn httparse_head(buffer: &[u8], max_headers: usize) -> (r: Result<RawHead, httparse::Error>)
    ensures
        r is Err <==> httparse_request(buffer@, max_headers) is None,
        r matches Ok(h) ==> httparse_request(buffer@, max_headers) == Some(h@)
            && head_is_well_formed(h@, buffer@.len()),
{
    let mut headers = vec![httparse::EMPTY_HEADER; max_headers];
    let mut req = httparse::Request::new(&mut headers);
    let status = req.parse(buffer)?;
    Ok(RawHead {
        method: req.method.map(|m| m.to_string()),
        path: req.path.map(|p| p.to_string()),
        headers: req.headers.iter().map(|h| RawHeader { name: h.name.to_string(), value: h.value.to_vec() }).collect(),
        complete: match status {
            httparse::Status::Complete(n) => Some(n),
            httparse::Status::Partial => None,
        },
    })
}

/// A request the server understands.
#[derive(Debug, PartialEq, Eq)]
pub enum Request {
    GET { path: String },
    POST { path: String, body: String },
}

/// The view of a `Request`.
pub enum RequestView {
    Get { path: Seq<char> },
    Post { path: Seq<char>, body: Seq<char> },
}

impl Request {
    /// The characters of the request's path.
    pub open spec fn path_view(self) -> Seq<char> {
        match self {
            Request::GET { path } => path@,
            Request::POST { path, .. } => path@,
        }
    }
}

impl View for Request {
    type V = RequestView;

    open spec fn view(&self) -> RequestView {
        match self {
            Request::GET { path } => RequestView::Get { path: path@ },
            Request::POST { path, body } => RequestView::Post { path: path@, body: body@ },
        }
    }
}

/// Why a request could not be read.
#[derive(Debug, Clone, Copy, PartialEq, Eq, Structural)]
pub enum ParseError {
    PartialRequest,
    Path,
    ContentLength,
    ContentType,
    Method,
}

impl From<httparse::Error> for ParseError {
    fn from(e: httparse::Error) -> (r: ParseError) {
        ParseError::PartialRequest
    }
}

impl vstd::std_specs::convert::FromSpecImpl<httparse::Error> for ParseError {
    open spec fn obeys_from_spec() -> bool {
        true
    }

    open spec fn from_spec(v: httparse::Error) -> ParseError {
        ParseError::PartialRequest
    }
}

/// The view of a parse result.
pub open spec fn parse_result_view(r: Result<Request, ParseError>) -> Result<RequestView, ParseError> {
    match r {
        Ok(req) => Ok(req@),
        Err(e) => Err(e),
    }
}

/// The body that a `POST` is read with: `TODO`; the body is not read yet.
pub open spec fn pending_body() -> Seq<char> {
    seq!['T', 'O', 'D', 'O']
}

/// The request that a head read by `httparse` (`None` for an error) stands for: an
/// error in the head is a partial request; a head without a path has no path; a
/// `GET` reads the path; a `POST` writes to the path; any other method is refused.
pub open spec fn request_from_head_spec(head: Option<HeadView>) -> Result<RequestView, ParseError> {
    match head {
        None => Err(ParseError::PartialRequest),
        Some(h) => match h.path {
            None => Err(ParseError::Path),
            Some(path) => if h.method == Some(get_method()) {
                Ok(RequestView::Get { path })
            } else if h.method == Some(post_method()) {
                Ok(RequestView::Post { path, body: pending_body() })
            } else {
                Err(ParseError::Method)
            },
        },
    }
}

/// A request read from a head keeps the head's path exactly as `httparse` read it,
/// query and all: a `GET` or `POST` head with path `p` gives a request with path `p`,
/// and any request read has the head's path.
pub proof fn law_request_keeps_path(h: HeadView, p: Seq<char>)
    requires
        h.path == Some(p),
    ensures
        h.method == Some(seq!['G', 'E', 'T']) ==> request_from_head_spec(Some(h)) == Ok::<
            RequestView,
            ParseError,
        >(RequestView::Get { path: p }),
        h.method == Some(seq!['P', 'O', 'S', 'T']) ==> request_from_head_spec(Some(h)) == Ok::<
            RequestView,
            ParseError,
        >(RequestView::Post { path: p, body: seq!['T', 'O', 'D', 'O'] }),
        request_from_head_spec(Some(h)) matches Ok(RequestView::Get { path }) ==> path == p,
        request_from_head_spec(Some(h)) matches Ok(RequestView::Post { path, .. }) ==> path == p,
{
}

/// A head whose method is neither `GET` nor `POST` is refused, and a head without a
/// path has no request.
pub proof fn law_request_methods(h: HeadView)
    ensures
        h.path is None ==> request_from_head_spec(Some(h)) == Err::<RequestView, ParseError>(
            ParseError::Path,
        ),
        h.path is Some && h.method != Some(seq!['G', 'E', 'T']) && h.method != Some(
            seq!['P', 'O', 'S', 'T'],
        ) ==> request_from_head_spec(Some(h)) == Err::<RequestView, ParseError>(
            ParseError::Method,
        ),
        request_from_head_spec(None) == Err::<RequestView, ParseError>(ParseError::PartialRequest),
{
}

/// The view of what `httparse` returned.
pub open spec fn head_result_view(head: Result<RawHead, httparse::Error>) -> Option<HeadView> {
    match head {
        Ok(h) => Some(h@),
        Err(_) => None,
    }
}

/// The request that a head read by `httparse` stands for. For a `POST` the
/// `Content-Length` headers are also gathered into a header map, which nothing
/// reads further.
pub fn request_from_head(head: Result<RawHead, httparse::Error>) -> (r: Result<Request, ParseError>)
    requires
        head matches Ok(h) ==> (h@.path is Some ==> h@.method is Some) && (h@.path is Some
            && h@.method == Some(post_method()) ==> content_length_values_valid(h@.headers)),
    ensures
        parse_result_view(r) == request_from_head_spec(head_result_view(head)),
        head_result_view(head) is Some && head_result_view(head)->0.path is Some && head_result_view(head)->0.method == Some(
            seq!['G', 'E', 'T'],
        ) ==> parse_result_view(r) == Ok::<RequestView, ParseError>(RequestView::Get { path: head_result_view(head)->0.path->0 }),
        head_result_view(head) is Some && head_result_view(head)->0.path is Some && head_result_view(head)->0.method == Some(
            seq!['P', 'O', 'S', 'T'],
        ) ==> parse_result_view(r) == Ok::<RequestView, ParseError>(
            RequestView::Post { path: head_result_view(head)->0.path->0, body: seq!['T', 'O', 'D', 'O'] },
        ),
        r matches Ok(req) ==> (head_result_view(head) matches Some(h) && h.path == Some(
            req.path_view(),
        )),
{
    proof {
        reveal_strlit("GET");
        reveal_strlit("POST");
        reveal_strlit("TODO");
        assert("GET"@ =~= get_method());
        assert("POST"@ =~= post_method());
        assert("TODO"@ =~= pending_body());
    }
    match head {
        Err(e) => Err(ParseError::from(e)),
        Ok(h) => {
            let path = match h.path {
                Some(p) => p,
                None => {
                    return Err(ParseError::Path);
                },
            };
            let method = h.method.unwrap();
            if same_text(method.as_str(), "GET") {
                Ok(Request::GET { path })
            } else if same_text(method.as_str(), "POST") {
                let _content_length = collect_content_length(&h.headers);
                Ok(Request::POST { path, body: String::from_str("TODO") })
            } else {
                Err(ParseError::Method)
            }
        },
    }
}

/// Reads a request out of a buffer of received bytes.
pub fn parse(buffer: [u8; BUFFER_SIZE]) -> (r: Result<Request, ParseError>)
    ensures
        parse_result_view(r) == request_from_head_spec(httparse_request(buffer@, PARSE_MAX_HEADERS)),
        httparse_request(buffer@, PARSE_MAX_HEADERS) is Some && httparse_request(buffer@, PARSE_MAX_HEADERS)->0.path is Some
            && httparse_request(buffer@, PARSE_MAX_HEADERS)->0.method == Some(seq!['G', 'E', 'T']) ==> parse_result_view(r) == Ok::<
            RequestView,
            ParseError,
        >(RequestView::Get { path: httparse_request(buffer@, PARSE_MAX_HEADERS)->0.path->0 }),
        httparse_request(buffer@, PARSE_MAX_HEADERS) is Some && httparse_request(buffer@, PARSE_MAX_HEADERS)->0.path is Some
            && httparse_request(buffer@, PARSE_MAX_HEADERS)->0.method == Some(seq!['P', 'O', 'S', 'T']) ==> parse_result_view(r) == Ok::<
            RequestView,
            ParseError,
        >(RequestView::Post { path: httparse_request(buffer@, PARSE_MAX_HEADERS)->0.path->0, body: seq!['T', 'O', 'D', 'O'] }),
        r matches Ok(req) ==> (httparse_request(buffer@, PARSE_MAX_HEADERS) matches Some(h)
            && h.path == Some(req.path_view())),
{
    let head = httparse_head(&buffer, PARSE_MAX_HEADERS);
    proof {
        if head is Ok {
            assert(content_length_values_valid(head->Ok_0@.headers));
        }
    }
    request_from_head(head)
}

} // verus!
