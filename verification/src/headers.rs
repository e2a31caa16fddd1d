//! The header names and values of a request, as the `http` crate reads them.
use http::header::{HeaderMap, HeaderName, HeaderValue, InvalidHeaderValue};
use std::str::FromStr;
use vstd::prelude::*;

verus! {

/// A validated header value.
#[verifier::external_type_specification]
#[verifier::external_body]
pub struct ExHeaderValue(http::header::HeaderValue);

/// The error `HeaderValue::from_bytes` reports for bytes a header value cannot hold.
#[verifier::external_type_specification]
#[verifier::external_body]
pub struct ExInvalidHeaderValue(http::header::InvalidHeaderValue);

/// A map from header names to header values.
#[verifier::external_type_specification]
#[verifier::external_body]
#[verifier::reject_recursive_types(T)]
pub struct ExHeaderMap<T>(http::header::HeaderMap<T>);

/// The names, in lower case, that a header map holds values for.
pub uninterp spec fn header_map_names(m: HeaderMap<HeaderValue>) -> Set<Seq<char>>;

/// The characters of `content-length`.
pub open spec fn content_length_name() -> Seq<char> {
    seq!['c', 'o', 'n', 't', 'e', 'n', 't', '-', 'l', 'e', 'n', 'g', 't', 'h']
}

/// An ASCII upper-case letter turned to lower case; any other character kept.
pub open spec fn ascii_lower(c: char) -> char {
    if 'A' <= c && c <= 'Z' {
        ((c as u32) + 32) as char
    } else {
        c
    }
}

/// Whether `name` is `content-length` in any mix of ASCII upper and lower case.
pub open spec fn is_content_length_name(name: Seq<char>) -> bool {
    &&& name.len() == content_length_name().len()
    &&& forall|i: int| 0 <= i < name.len() ==> ascii_lower(#[trigger] name[i]) == content_length_name()[i]
}

/// A byte that a header value may hold: tab, or any byte from space up but `DEL`.
pub open spec fn header_value_byte(b: u8) -> bool {
    b == 9 || (32 <= b && b != 127)
}

/// `HeaderName::from_str(name)` compared with `header::CONTENT_LENGTH`. The name
/// parses to that standard header exactly when its bytes, mapped through the crate's
/// lower-casing table, spell `content-length`; that table maps only `A`..`Z` and
/// `a`..`z` to lower-case letters.
#[verifier::external_body]
fn names_content_length(name: &str) -> (r: bool)
    ensures
        r == is_content_length_name(name@),
{
    match HeaderName::from_str(name) {
        Ok(parsed) => parsed == http::header::CONTENT_LENGTH,
        Err(_) => false,
    }
}

/// `HeaderValue::from_bytes`: succeeds exactly when every byte is one a header value
/// may hold.
#[verifier::external_body]
fn header_value_from_bytes(bytes: &[u8]) -> (r: Result<HeaderValue, InvalidHeaderValue>)
    ensures
        r is Ok <==> forall|i: int| 0 <= i < bytes@.len() ==> header_value_byte(#[trigger] bytes@[i]),
{
    HeaderValue::from_bytes(bytes)
}

/// `HeaderMap::new`: an empty map.
#[verifier::external_body]
fn header_map_new() -> (r: HeaderMap<HeaderValue>)
    ensures
        header_map_names(r) == Set::<Seq<char>>::empty(),
{
    HeaderMap::new()
}

/// `HeaderMap::insert` under `header::CONTENT_LENGTH`: afterwards the map holds a
/// value for that name, and for the names it held before. The value stored is not
/// stated. The method panics when its table would have to grow past its largest
/// size; below 1024 names that cannot happen, and `requires` keeps to that.
#[verifier::external_body]
fn header_map_insert_content_length(map: &mut HeaderMap<HeaderValue>, value: HeaderValue)
    requires
        header_map_names(*old(map)).finite(),
        header_map_names(*old(map)).len() < 1024,
    ensures
        header_map_names(*final(map)) == header_map_names(*old(map)).insert(content_length_name()),
{
    map.insert(http::header::CONTENT_LENGTH, value);
}

/// One header of a request: its name and the bytes of its value.
pub struct RawHeader {
    pub name: String,
    pub value: Vec<u8>,
}

impl View for RawHeader {
    type V = (Seq<char>, Seq<u8>);

    open spec fn view(&self) -> (Seq<char>, Seq<u8>) {
        (self.name@, self.value@)
    }
}

/// Whether every value in `headers` holds only bytes a header value may hold.
pub open spec fn header_values_valid(headers: Seq<(Seq<char>, Seq<u8>)>) -> bool {
    forall|i: int, j: int|
        0 <= i < headers.len() && 0 <= j < headers[i].1.len() ==> header_value_byte(
            #[trigger] headers[i].1[j],
        )
}

/// Whether every value of a header named `content-length` in `headers` holds only
/// bytes a header value may hold.
pub open spec fn content_length_values_valid(headers: Seq<(Seq<char>, Seq<u8>)>) -> bool {
    forall|i: int, j: int|
        0 <= i < headers.len() && is_content_length_name(headers[i].0) && 0 <= j
            < headers[i].1.len() ==> header_value_byte(#[trigger] headers[i].1[j])
}

/// The `Content-Length` headers among `headers`, collected into a header map as a
/// request's headers are: the map holds the name `content-length` exactly when some
/// header has that name.
pub fn collect_content_length(headers: &Vec<RawHeader>) -> (r: HeaderMap<HeaderValue>)
    requires
        content_length_values_valid(headers@.map_values(|h: RawHeader| h@)),
    ensures
        header_map_names(r) == (if exists|i: int|
            0 <= i < headers@.len() && is_content_length_name(#[trigger] headers@[i].name@) {
            set![content_length_name()]
        } else {
            Set::<Seq<char>>::empty()
        }),
{
    let mut map = header_map_new();
    let mut i: usize = 0;
    while i < headers.len()
        invariant
            i <= headers@.len(),
            content_length_values_valid(headers@.map_values(|h: RawHeader| h@)),
            header_map_names(map) == (if exists|k: int|
                0 <= k < i && is_content_length_name(#[trigger] headers@[k].name@) {
                set![content_length_name()]
            } else {
                Set::<Seq<char>>::empty()
            }),
        decreases headers@.len() - i,
    {
        let header = &headers[i];
        if names_content_length(header.name.as_str()) {
            let parsed = header_value_from_bytes(header.value.as_slice());
            assert forall|j: int| 0 <= j < header.value@.len() implies header_value_byte(
                #[trigger] header.value@[j],
            ) by {
                let hv = headers@.map_values(|h: RawHeader| h@);
                assert(hv[i as int] == header@);
                assert(is_content_length_name(hv[i as int].0));
                assert(header_value_byte(hv[i as int].1[j]));
            }
            let value = parsed.unwrap();
            proof {
                assert(set![content_length_name()].len() == 1) by {
                    assert(set![content_length_name()] =~= Set::<Seq<char>>::empty().insert(content_length_name()));
                }
            }
            header_map_insert_content_length(&mut map, value);
            assert(header_map_names(map) =~= set![content_length_name()]);
        }
        i = i + 1;
    }
    map
}

} // verus!
