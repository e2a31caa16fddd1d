//! What the server does with the bytes of one connection.
use crate::request::{
    httparse_head, httparse_request, parse, parse_result_view,
    request_from_head_spec, HeadView, ParseError, RawHead, Request, RequestView, BUFFER_SIZE,
};
use crate::state::{instant_now, State};
use tokio::time::Instant;
use crate::text::text_from_bytes;
use vstd::prelude::*;
use vstd::slice::{slice_subrange, slice_to_vec};
use vstd::utf8::{decode_utf8, valid_utf8};

verus! {

/// How many headers the head of a logged connection may have.
pub const LOG_MAX_HEADERS: usize = 16;

/// Why the head of a connection could not be shown.
#[derive(Debug, Clone, Copy, PartialEq, Eq, Structural)]
pub enum HeadError {
    /// The bytes are not an HTTP request head.
    Malformed,
    /// The head is not UTF-8 text.
    NotUtf8,
}

/// The text of the request head in `buffer`, given what `httparse` read there
/// (`None` for an error): nothing while the head is incomplete, otherwise the
/// head's bytes decoded as UTF-8.
pub open spec fn head_text_spec(buffer: Seq<u8>, head: Option<HeadView>) -> Result<
    Option<Seq<char>>,
    HeadError,
> {
    match head {
        None => Err(HeadError::Malformed),
        Some(h) => match h.complete {
            None => Ok(None),
            Some(n) => {
                let bytes = buffer.subrange(0, n as int);
                if valid_utf8(bytes) {
                    Ok(Some(decode_utf8(bytes)))
                } else {
                    Err(HeadError::NotUtf8)
                }
            },
        },
    }
}

/// The view of a head text result.
pub open spec fn head_text_view(r: Result<Option<String>, HeadError>) -> Result<
    Option<Seq<char>>,
    HeadError,
> {
    match r {
        Ok(Some(s)) => Ok(Some(s@)),
        Ok(None) => Ok(None),
        Err(e) => Err(e),
    }
}

/// The text of the request head in `buffer`, given what `httparse` read there.
pub fn head_text_from(buffer: &[u8], head: Result<RawHead, httparse::Error>) -> (r: Result<
    Option<String>,
    HeadError,
>)
    requires
        head matches Ok(h) ==> (h@.complete matches Some(n) ==> n <= buffer@.len()),
    ensures
        head_text_view(r) == head_text_spec(
            buffer@,
            match head {
                Ok(h) => Some(h@),
                Err(_) => None,
            },
        ),
        head is Err ==> r == Err::<Option<String>, HeadError>(HeadError::Malformed),
        head is Ok && head->Ok_0@.complete is None ==> r matches Ok(None),
        head is Ok && head->Ok_0@.complete is Some ==> (r == Err::<Option<String>, HeadError>(
            HeadError::NotUtf8,
        ) <==> !valid_utf8(buffer@.subrange(0, head->Ok_0@.complete->0 as int))),
        head is Ok && head->Ok_0@.complete is Some && valid_utf8(buffer@.subrange(0, head->Ok_0@.complete->0 as int))
            ==> head_text_view(r) == Ok::<Option<Seq<char>>, HeadError>(
            Some(decode_utf8(buffer@.subrange(0, head->Ok_0@.complete->0 as int))),
        ),
{
    match head {
        Err(_) => Err(HeadError::Malformed),
        Ok(h) => match h.complete {
            None => Ok(None),
            Some(n) => {
                let bytes = slice_to_vec(slice_subrange(buffer, 0, n));
                match text_from_bytes(bytes) {
                    Ok(text) => Ok(Some(text)),
                    Err(_) => Err(HeadError::NotUtf8),
                }
            },
        },
    }
}

/// The text of the request head received in `buffer`, read with room for
/// `LOG_MAX_HEADERS` headers.
pub fn complete_head_text(buffer: &[u8; BUFFER_SIZE]) -> (r: Result<Option<String>, HeadError>)
    ensures
        head_text_view(r) == head_text_spec(buffer@, httparse_request(buffer@, LOG_MAX_HEADERS)),
        httparse_request(buffer@, LOG_MAX_HEADERS) is Some && httparse_request(buffer@, LOG_MAX_HEADERS)->0.complete is Some
            ==> (r == Err::<Option<String>, HeadError>(HeadError::NotUtf8) <==> !valid_utf8(
            buffer@.subrange(0, httparse_request(buffer@, LOG_MAX_HEADERS)->0.complete->0 as int),
        )),
        httparse_request(buffer@, LOG_MAX_HEADERS) is Some && httparse_request(buffer@, LOG_MAX_HEADERS)->0.complete is Some
            && valid_utf8(buffer@.subrange(0, httparse_request(buffer@, LOG_MAX_HEADERS)->0.complete->0 as int)) ==> head_text_view(r) == Ok::<
            Option<Seq<char>>,
            HeadError,
        >(Some(decode_utf8(buffer@.subrange(0, httparse_request(buffer@, LOG_MAX_HEADERS)->0.complete->0 as int)))),
{
    let head = httparse_head(buffer, LOG_MAX_HEADERS);
    head_text_from(buffer, head)
}

/// A complete head is shown exactly when its bytes are valid UTF-8, and then as the
/// characters they encode; it is refused as not UTF-8 in every other case.
pub proof fn law_head_text_is_utf8_of_head(buffer: Seq<u8>, h: HeadView, n: usize)
    requires
        h.complete == Some(n),
    ensures
        valid_utf8(buffer.subrange(0, n as int)) ==> head_text_spec(buffer, Some(h)) == Ok::<
            Option<Seq<char>>,
            HeadError,
        >(Some(decode_utf8(buffer.subrange(0, n as int)))),
        !valid_utf8(buffer.subrange(0, n as int)) ==> head_text_spec(buffer, Some(h)) == Err::<
            Option<Seq<char>>,
            HeadError,
        >(HeadError::NotUtf8),
{
}

/// What the server did with one request.
#[derive(Debug, PartialEq, Eq)]
pub enum Handled {
    /// A read: the value served.
    Read { value: String },
    /// A write: the text stored.
    Stored { body: String },
    /// The request could not be read.
    Failed,
}

/// Whether `handled`, and the state `after`, are what a parse result `parsed`
/// leads to from the state `before` at the clock reading `now`: a read serves the
/// stored text and keeps the state; a write stores its body stamped `now`; an
/// unreadable request keeps the state.
pub open spec fn handled_spec(
    before: State,
    after: State,
    parsed: Result<RequestView, ParseError>,
    handled: Handled,
    now: Instant,
) -> bool {
    match parsed {
        Ok(RequestView::Get { .. }) => handled matches Handled::Read { value } && value@
            == before.value() && after == before,
        Ok(RequestView::Post { body, .. }) => handled matches Handled::Stored { body: stored }
            && stored@ == body && after.is_set_at(before, body, now),
        Err(_) => handled == Handled::Failed && after == before,
    }
}

/// Serves a parsed request against the state at the clock reading `now`.
pub fn handle_parsed_at(state: &mut State, parsed: Result<Request, ParseError>, now: Instant) -> (handled: Handled)
    ensures
        handled_spec(*old(state), *final(state), parse_result_view(parsed), handled, now),
{
    match parsed {
        Ok(Request::GET { path: _ }) => Handled::Read { value: state.get().clone() },
        Ok(Request::POST { body, .. }) => {
            let shown = body.clone();
            state.set_at(body, now);
            Handled::Stored { body: shown }
        },
        Err(_) => Handled::Failed,
    }
}

/// Serves a parsed request against the state, stamping a write with the clock
/// reading taken during the call.
pub fn handle_parsed(state: &mut State, parsed: Result<Request, ParseError>) -> (handled: Handled)
    ensures
        exists|now: Instant| #[trigger]
            handled_spec(*old(state), *final(state), parse_result_view(parsed), handled, now),
{
    let now = instant_now();
    handle_parsed_at(state, parsed, now)
}

/// Reads a request out of the bytes received and serves it against the state,
/// stamping a write with the clock reading taken during the call.
pub fn handle_request(state: &mut State, buffer: [u8; BUFFER_SIZE]) -> (handled: Handled)
    ensures
        exists|now: Instant| #[trigger]
            handled_spec(
                *old(state),
                *final(state),
                request_from_head_spec(httparse_request(buffer@, crate::request::PARSE_MAX_HEADERS)),
                handled,
                now,
            ),
{
    let parsed = parse(buffer);
    handle_parsed(state, parsed)
}

/// A request that writes, followed by a request that reads, serves the text written.
pub proof fn law_write_then_read(
    s0: State,
    s1: State,
    s2: State,
    write: RequestView,
    read_path: Seq<char>,
    h1: Handled,
    h2: Handled,
    t1: Instant,
    t2: Instant,
)
    requires
        write is Post,
        handled_spec(s0, s1, Ok(write), h1, t1),
        handled_spec(s1, s2, Ok(RequestView::Get { path: read_path }), h2, t2),
    ensures
        h2 matches Handled::Read { value } && value@ == write->body,
        s2.value() == write->body,
        s2.stamp() == Some(t1),
{
}

/// A request that cannot be read changes nothing.
pub proof fn law_failed_request_keeps_state(
    s0: State,
    s1: State,
    e: ParseError,
    h: Handled,
    now: Instant,
)
    requires
        handled_spec(s0, s1, Err(e), h, now),
    ensures
        s1 == s0,
        h == Handled::Failed,
{
}

} // verus!
