//! What the server answers: routing, reading and writing the shared value.
use crate::state::{instant_now, State};
use tokio::time::Instant;
use crate::text::{same_text, text_from_bytes};
use vstd::prelude::*;
use vstd::utf8::{decode_utf8, valid_utf8};

verus! {

/// `200 OK`.
pub const STATUS_OK: u16 = 200;
/// `204 No Content`: a write was stored.
pub const STATUS_NO_CONTENT: u16 = 204;
/// `400 Bad Request`: a write whose body is not text.
pub const STATUS_BAD_REQUEST: u16 = 400;
/// `404 Not Found`: any other method or path.
pub const STATUS_NOT_FOUND: u16 = 404;
/// The largest request body the server reads, in bytes.
pub const MAX_BODY_BYTES: u64 = 16384;

/// The characters of `GET`.
pub open spec fn get_method() -> Seq<char> {
    seq!['G', 'E', 'T']
}

/// The characters of `POST`.
pub open spec fn post_method() -> Seq<char> {
    seq!['P', 'O', 'S', 'T']
}

/// The characters of `/value`, the one path that the server serves.
pub open spec fn value_path() -> Seq<char> {
    seq!['/', 'v', 'a', 'l', 'u', 'e']
}

/// The body of a `404` answer, `Not Found`.
pub open spec fn not_found_body() -> Seq<u8> {
    seq![78u8, 111, 116, 32, 70, 111, 117, 110, 100]
}

/// Where a request goes.
#[derive(Debug, Clone, Copy, PartialEq, Eq, Structural)]
pub enum Route {
    /// `GET /value`: read the shared value.
    GetValue,
    /// `POST /value`: replace the shared value with the body.
    PostValue,
    /// Anything else.
    NotFound,
}

/// The route of a request, from its method and path.
pub open spec fn route_spec(method: Seq<char>, path: Seq<char>) -> Route {
    if path == value_path() && method == get_method() {
        Route::GetValue
    } else if path == value_path() && method == post_method() {
        Route::PostValue
    } else {
        Route::NotFound
    }
}

/// Routes a request by its method and path.
pub fn route(method: &str, path: &str) -> (r: Route)
    ensures
        r == route_spec(method@, path@),
        (r == Route::GetValue) == (method@ == seq!['G', 'E', 'T'] && path@ == seq![
            '/',
            'v',
            'a',
            'l',
            'u',
            'e',
        ]),
        (r == Route::PostValue) == (method@ == seq!['P', 'O', 'S', 'T'] && path@ == seq![
            '/',
            'v',
            'a',
            'l',
            'u',
            'e',
        ]),
{
    proof {
        reveal_strlit("/value");
        reveal_strlit("GET");
        reveal_strlit("POST");
        assert("/value"@ =~= value_path());
        assert("GET"@ =~= get_method());
        assert("POST"@ =~= post_method());
    }
    if same_text(path, "/value") && same_text(method, "GET") {
        Route::GetValue
    } else if same_text(path, "/value") && same_text(method, "POST") {
        Route::PostValue
    } else {
        Route::NotFound
    }
}

/// The body of a `404` answer.
pub fn not_found_body_bytes() -> (r: Vec<u8>)
    ensures
        r@ == not_found_body(),
{
    let r: Vec<u8> = vec![78u8, 111, 116, 32, 70, 111, 117, 110, 100];
    assert(r@ == not_found_body());
    r
}

/// The answer to a read: the stored text.
pub fn get_handler(state: &State) -> (r: String)
    ensures
        r@ == state.value(),
{
    state.get().clone()
}

/// What a write of `body` at the clock reading `now` leaves and answers: text is
/// stored, stamped `now`, with `204`; bytes that are not UTF-8 leave the state as it
/// was, with `400`.
pub open spec fn post_spec(before: State, after: State, body: Seq<u8>, status: u16, now: Instant) -> bool {
    if valid_utf8(body) {
        status == STATUS_NO_CONTENT && after.is_set_at(before, decode_utf8(body), now)
    } else {
        status == STATUS_BAD_REQUEST && after == before
    }
}

/// A write at the clock reading `now`: stores the body, stamped `now`, when it is
/// UTF-8 text and answers `204`; otherwise leaves the state as it is and answers `400`.
pub fn post_handler_at(state: &mut State, body: Vec<u8>, now: Instant) -> (status: u16)
    ensures
        post_spec(*old(state), *final(state), body@, status, now),
{
    match text_from_bytes(body) {
        Ok(text) => {
            state.set_at(text, now);
            STATUS_NO_CONTENT
        },
        Err(_) => STATUS_BAD_REQUEST,
    }
}

/// A write: stores the body, stamped with the clock reading taken during the call,
/// when it is UTF-8 text and answers `204`; otherwise leaves the state as it is and
/// answers `400`.
pub fn post_handler(state: &mut State, body: Vec<u8>) -> (status: u16)
    ensures
        exists|now: Instant| #[trigger] post_spec(*old(state), *final(state), body@, status, now),
{
    let now = instant_now();
    post_handler_at(state, body, now)
}

/// The value that a wait for a new value leaves: the value received, or the empty
/// text when the wait ended without one.
pub fn next_value(received: Option<String>) -> (r: String)
    ensures
        r@ == match received {
            Some(s) => s@,
            None => Seq::<char>::empty(),
        },
{
    match received {
        Some(s) => s,
        None => String::new(),
    }
}

/// A write of UTF-8 text followed by a read serves that text back.
pub proof fn law_post_then_get(before: State, after: State, body: Seq<u8>, status: u16, now: Instant)
    requires
        post_spec(before, after, body, status, now),
        valid_utf8(body),
    ensures
        status == STATUS_NO_CONTENT,
        after.value() == decode_utf8(body),
        after.stamp() == Some(now),
{
}

/// A write of bytes that are not UTF-8 is refused with `400` and changes nothing.
pub proof fn law_rejected_post_keeps_state(
    before: State,
    after: State,
    body: Seq<u8>,
    status: u16,
    now: Instant,
)
    requires
        post_spec(before, after, body, status, now),
        !valid_utf8(body),
    ensures
        status == STATUS_BAD_REQUEST,
        after == before,
{
}

/// A request is routed to a read exactly when it is `GET /value`, to a write exactly
/// when it is `POST /value`, and to `404` in every other case: any other method or
/// any other path.
pub proof fn law_route_serves_only_get_and_post_on_value(method: Seq<char>, path: Seq<char>)
    ensures
        (route_spec(method, path) == Route::GetValue) == (method == seq!['G', 'E', 'T'] && path
            == seq!['/', 'v', 'a', 'l', 'u', 'e']),
        (route_spec(method, path) == Route::PostValue) == (method == seq!['P', 'O', 'S', 'T']
            && path == seq!['/', 'v', 'a', 'l', 'u', 'e']),
        method != seq!['G', 'E', 'T'] && method != seq!['P', 'O', 'S', 'T'] ==> route_spec(
            method,
            path,
        ) == Route::NotFound,
{
}

/// Only `GET` and `POST` on `/value` are served; every other path is not found.
pub proof fn law_only_value_path_is_served(method: Seq<char>, path: Seq<char>)
    requires
        path != value_path(),
    ensures
        route_spec(method, path) == Route::NotFound,
{
}

} // verus!
