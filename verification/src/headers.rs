//! HTTP header maps.
//!
//! Requests and responses carry their headers in `hyper::HeaderMap`, a
//! multimap from lower-case header names to byte values. Verus cannot look
//! inside it, so this module names what a map holds, and states over that name
//! what each operation the library uses does to it. The statements follow the
//! source of the `http` crate, which `hyper` re-exports; they are believed,
//! not proved.

use crate::text::lower;
use hyper::header::HeaderName;
use hyper::header::HeaderValue;
use hyper::HeaderMap;
use vstd::prelude::*;

verus! {

/// `hyper::HeaderMap`, opaque to the verifier.
#[verifier::external_type_specification]
#[verifier::external_body]
#[verifier::reject_recursive_types(T)]
pub struct ExHeaderMap<T>(HeaderMap<T>);

/// `hyper::header::HeaderValue`, opaque to the verifier.
#[verifier::external_type_specification]
#[verifier::external_body]
pub struct ExHeaderValue(HeaderValue);

/// What a header map holds: for each header name in it, written in lower
/// case, the values stored under that name, the first one first.
pub uninterp spec fn header_view(map: HeaderMap<HeaderValue>) -> Map<Seq<char>, Seq<Seq<u8>>>;

/// One header as plain values.
#[derive(Debug, Clone, PartialEq, Eq)]
pub struct Header {
    pub name: String,
    pub value: Vec<u8>,
}

impl View for Header {
    type V = (Seq<char>, Seq<u8>);

    open spec fn view(&self) -> (Seq<char>, Seq<u8>) {
        (self.name@, self.value@)
    }
}

/// Why a header could not be stored.
#[derive(Debug, Clone, Copy, PartialEq, Eq, Structural)]
pub enum InsertError {
    /// The name is not a header name.
    Name,
    /// The value holds a byte that a header value may not hold.
    Value,
    /// The map refused to grow.
    Full,
}

/// The characters a header name is made of.
pub open spec fn is_name_char(c: char) -> bool {
    ||| 'a' <= c <= 'z'
    ||| 'A' <= c <= 'Z'
    ||| '0' <= c <= '9'
    ||| c == '!'
    ||| c == '"'
    ||| c == '#'
    ||| c == '$'
    ||| c == '%'
    ||| c == '&'
    ||| c == '\''
    ||| c == '*'
    ||| c == '+'
    ||| c == '-'
    ||| c == '.'
    ||| c == '^'
    ||| c == '_'
    ||| c == '`'
    ||| c == '|'
    ||| c == '~'
}

/// The longest header name, in bytes.
pub const MAX_NAME_LEN: usize = 65535;

/// Whether `name` can name a header: not empty, not too long, and made of
/// name characters only. Capital letters are accepted and count as small.
pub open spec fn is_header_name(name: Seq<char>) -> bool {
    &&& 0 < name.len() <= MAX_NAME_LEN
    &&& forall|i: int| 0 <= i < name.len() ==> is_name_char(#[trigger] name[i])
}

/// Whether a byte may stand in a header value: a tab, or anything from the
/// space upward but the delete character.
pub open spec fn is_value_byte(b: u8) -> bool {
    (b >= 32 && b != 127) || b == 9
}

/// Whether `value` can be a header's value.
pub open spec fn is_header_value(value: Seq<u8>) -> bool {
    forall|i: int| 0 <= i < value.len() ==> is_value_byte(#[trigger] value[i])
}

/// The values that `view` holds under `name`, none if the name is absent.
pub open spec fn values_in(view: Map<Seq<char>, Seq<Seq<u8>>>, name: Seq<char>) -> Seq<Seq<u8>> {
    if view.dom().contains(name) {
        view[name]
    } else {
        Seq::empty()
    }
}

/// The first value that `view` holds under `name`, whatever the case of its
/// letters.
pub open spec fn first_value(view: Map<Seq<char>, Seq<Seq<u8>>>, name: Seq<char>) -> Option<
    Seq<u8>,
> {
    if is_header_name(name) && view.dom().contains(lower(name)) {
        Some(view[lower(name)][0])
    } else {
        None
    }
}

/// The plain values of a list of headers.
pub open spec fn pairs(list: Seq<Header>) -> Seq<(Seq<char>, Seq<u8>)> {
    list.map_values(|h: Header| h@)
}

/// `pairs` of a list that grew by one header.
pub proof fn lemma_pairs_push(list: Seq<Header>, h: Header)
    ensures
        pairs(list.push(h)) == pairs(list).push(h@),
{
    assert(pairs(list.push(h)) =~= pairs(list).push(h@));
}

/// The values that a list of name and value pairs holds under `name`, in the
/// order of the list. The name is compared as it stands.
pub open spec fn values_named(list: Seq<(Seq<char>, Seq<u8>)>, name: Seq<char>) -> Seq<Seq<u8>>
    decreases list.len(),
{
    if list.len() == 0 {
        Seq::empty()
    } else if list.last().0 == name {
        values_named(list.drop_last(), name).push(list.last().1)
    } else {
        values_named(list.drop_last(), name)
    }
}

/// Whether `list` lays out exactly what `view` holds: every name of the list
/// is a lower-case header name, the names of the list are those of the view,
/// and under each name the list has the view's values in the view's order.
pub open spec fn lists(list: Seq<(Seq<char>, Seq<u8>)>, view: Map<Seq<char>, Seq<Seq<u8>>>) -> bool {
    &&& forall|i: int|
        0 <= i < list.len() ==> is_header_name(#[trigger] list[i].0) && lower(list[i].0)
            == list[i].0
    &&& forall|name: Seq<char>|
        view.dom().contains(name) <==> (#[trigger] values_named(list, name)).len() > 0
    &&& forall|name: Seq<char>| #[trigger] values_named(list, name) == values_in(view, name)
}

/// The fewest names that a map holds when it refuses another header.
pub const HEADER_LIMIT: usize = 6554;

/// Whether a map holds so many names that it may refuse another header.
pub open spec fn holds_many(view: Map<Seq<char>, Seq<Seq<u8>>>) -> bool {
    view.dom().finite() && view.dom().len() >= HEADER_LIMIT
}

/// The view of a map without headers.
pub open spec fn no_headers() -> Map<Seq<char>, Seq<Seq<u8>>> {
    Map::empty()
}

/// `HeaderMap::new`: a map that holds nothing.
#[verifier::external_body]
pub(crate) fn new_map() -> (r: HeaderMap<HeaderValue>)
    ensures
        header_view(r) == no_headers(),
{
    HeaderMap::new()
}

/// `HeaderMap::clone`: a map that holds what the first one holds.
#[verifier::external_body]
pub(crate) fn clone_map(map: &HeaderMap<HeaderValue>) -> (r: HeaderMap<HeaderValue>)
    ensures
        header_view(r) == header_view(*map),
{
    map.clone()
}

/// `HeaderMap::get` with a string key, the value copied out as bytes. The map
/// looks the name up without regard to case and hands out the first value
/// stored under it; a string that is no header name finds nothing.
#[verifier::external_body]
pub(crate) fn first(map: &HeaderMap<HeaderValue>, name: &str) -> (r: Option<Vec<u8>>)
    ensures
        r.is_some() == first_value(header_view(*map), name@).is_some(),
        r.is_some() ==> r.unwrap()@ == first_value(header_view(*map), name@).unwrap(),
{
    map.get(name).map(|v| v.as_bytes().to_vec())
}

/// `HeaderMap::iter`, each item copied out as plain values. The map yields
/// one pair for each value it holds, the values of one name in their order.
#[verifier::external_body]
pub(crate) fn list(map: &HeaderMap<HeaderValue>) -> (r: Vec<Header>)
    ensures
        lists(pairs(r@), header_view(*map)),
{
    map.iter().map(|(k, v)| Header { name: k.as_str().to_owned(), value: v.as_bytes().to_vec() }).collect()
}

/// `HeaderMap::remove` with a string key: every value under the name leaves,
/// the rest stays. A string that is no header name removes nothing.
#[verifier::external_body]
pub(crate) fn remove(map: &mut HeaderMap<HeaderValue>, name: &str)
    ensures
        is_header_name(name@) ==> header_view(*final(map)) == header_view(*old(map)).remove(
            lower(name@),
        ),
        !is_header_name(name@) ==> header_view(*final(map)) == header_view(*old(map)),
{
    map.remove(name);
}

/// `HeaderName::from_bytes`, `HeaderValue::from_bytes` and
/// `HeaderMap::try_insert`, in this order. The first fails exactly on what is
/// no header name, the second exactly on what is no header value. The third
/// refuses only when the map would have to grow beyond its limit. Its table
/// never has more than 32768 slots, and it asks for a larger one only when it
/// holds as many names as three quarters of its slots, or, after many
/// collisions, at least a fifth of them: so it refuses only while it holds
/// `HEADER_LIMIT` names or more. Otherwise the value replaces all that the map
/// held under the name, which it keeps in lower case. On any failure the map
/// is left as it was.
#[verifier::external_body]
pub(crate) fn try_insert(map: &mut HeaderMap<HeaderValue>, name: &str, value: &[u8]) -> (r: Result<
    (),
    InsertError,
>)
    ensures
        (r matches Err(InsertError::Name)) == !is_header_name(name@),
        (r matches Err(InsertError::Value)) == (is_header_name(name@) && !is_header_value(value@)),
        (r matches Err(InsertError::Full)) ==> holds_many(header_view(*old(map))),
        r.is_err() ==> header_view(*final(map)) == header_view(*old(map)),
        r.is_ok() ==> header_view(*final(map)) == header_view(*old(map)).insert(
            lower(name@),
            seq![value@],
        ),
{
    let key = match HeaderName::from_bytes(name.as_bytes()) {
        Ok(key) => key,
        Err(_) => return Err(InsertError::Name),
    };
    let val = match HeaderValue::from_bytes(value) {
        Ok(val) => val,
        Err(_) => return Err(InsertError::Value),
    };
    match map.try_insert(key, val) {
        Ok(_) => Ok(()),
        Err(_) => Err(InsertError::Full),
    }
}

} // verus!
