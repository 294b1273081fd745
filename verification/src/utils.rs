//! The response envelope.
//!
//! The platform reads two status codes from every response. The outer one is
//! the status of the HTTP response itself: `200` while the function instance
//! can go on serving, `502` when it should be replaced. The logical one is
//! what the caller of the function finally sees; it travels in the
//! `Fn-Http-Status` header. Two more headers name this kit and its toolchain.
//! These three headers are set last, so that nothing a handler adds can stand
//! in their place.

use crate::headers::list;
use crate::headers::new_map;
use crate::headers::pairs;
use crate::headers::try_insert;
use crate::headers::values_in;
use crate::headers::values_named;
use crate::headers::lemma_pairs_push;
use crate::headers::lists;
use crate::headers::Header;
use crate::headers::InsertError;
use crate::headers::header_view;
use crate::headers::holds_many;
use crate::headers::is_header_name;
use crate::headers::is_header_value;
use crate::headers::no_headers;
use crate::text::decimal;
use crate::text::decimal_string;
use crate::text::low_bytes;
use crate::text::lower;
use crate::text::lower_string;
use crate::text::text_bytes;
use hyper::header::HeaderValue;
use hyper::HeaderMap;
use vstd::prelude::*;

verus! {

/// The header that carries the logical status.
pub const STATUS_HEADER: &'static str = "fn-http-status";

/// The header that names this kit.
pub const VERSION_HEADER: &'static str = "fn-fdk-version";

/// The header that names the toolchain.
pub const RUNTIME_HEADER: &'static str = "fn-fdk-runtime";

/// The header that gives the length of the body.
pub const LENGTH_HEADER: &'static str = "content-length";

/// What this kit calls itself.
pub const FDK_VERSION: &'static str = "fdk-rust/0.2.0";

/// What this kit says of its toolchain.
pub const FDK_RUNTIME: &'static str = "rustc/UNKNOWN";

/// An HTTP status code from 100 to 599.
#[derive(Debug, Clone, Copy, PartialEq, Eq)]
pub struct StatusCode {
    code: u16,
}

impl View for StatusCode {
    type V = u16;

    closed spec fn view(&self) -> u16 {
        self.code
    }
}

impl StatusCode {
    #[verifier::type_invariant]
    spec fn in_range(self) -> bool {
        100 <= self.code <= 599
    }

    /// The status with the given code, if the code is one.
    pub fn from_u16(code: u16) -> (r: Option<StatusCode>)
        ensures
            r.is_some() == (100 <= code <= 599),
            r.is_some() ==> r.unwrap()@ == code,
    {
        if 100 <= code && code <= 599 {
            Some(StatusCode { code })
        } else {
            None
        }
    }

    /// The code, which is always from 100 to 599.
    pub fn as_u16(&self) -> (r: u16)
        ensures
            r == self@,
            100 <= r <= 599,
    {
        proof {
            use_type_invariant(self);
        }
        self.code
    }

    /// `200 OK`.
    pub fn ok() -> (r: StatusCode)
        ensures
            r@ == 200,
    {
        StatusCode { code: 200 }
    }

    /// `400 Bad Request`.
    pub fn bad_request() -> (r: StatusCode)
        ensures
            r@ == 400,
    {
        StatusCode { code: 400 }
    }

    /// `500 Internal Server Error`.
    pub fn internal_server_error() -> (r: StatusCode)
        ensures
            r@ == 500,
    {
        StatusCode { code: 500 }
    }

    /// `502 Bad Gateway`.
    pub fn bad_gateway() -> (r: StatusCode)
        ensures
            r@ == 502,
    {
        StatusCode { code: 502 }
    }

    /// Whether the code is from 400 to 599.
    pub fn is_error(&self) -> (r: bool)
        ensures
            r == (400 <= self@ <= 599),
    {
        self.code >= 400 && self.code <= 599
    }
}

/// An optional status as its code.
pub open spec fn code_of(status: Option<StatusCode>) -> Option<u16> {
    match status {
        Some(s) => Some(s@),
        None => None,
    }
}

/// Whether an optional code, if it is there, is one from 100 to 599.
pub open spec fn is_status(code: Option<u16>) -> bool {
    code matches Some(c) ==> 100 <= c <= 599
}

/// A response as plain values: the outer status, the headers and the body.
#[derive(Debug, Clone, PartialEq, Eq)]
pub struct Envelope {
    pub status: StatusCode,
    pub headers: Vec<Header>,
    pub body: Vec<u8>,
}

/// The value of the status header for a logical status.
pub open spec fn status_value(logical: u16) -> Seq<u8> {
    low_bytes(decimal(logical as nat))
}

/// `list` without the headers that bear `name`. The order stays.
pub open spec fn without(list: Seq<(Seq<char>, Seq<u8>)>, name: Seq<char>) -> Seq<
    (Seq<char>, Seq<u8>),
>
    decreases list.len(),
{
    if list.len() == 0 {
        Seq::empty()
    } else if list.last().0 == name {
        without(list.drop_last(), name)
    } else {
        without(list.drop_last(), name).push(list.last())
    }
}

/// `list` with `value` as the only header that bears `name`: what the list
/// had under that name is gone, and the new header stands last.
pub open spec fn with_header(list: Seq<(Seq<char>, Seq<u8>)>, name: Seq<char>, value: Seq<u8>) -> Seq<
    (Seq<char>, Seq<u8>),
> {
    without(list, name).push((name, value))
}

/// `list` with the two headers that name the kit and its toolchain.
pub open spec fn signed(list: Seq<(Seq<char>, Seq<u8>)>) -> Seq<(Seq<char>, Seq<u8>)> {
    with_header(
        with_header(list, VERSION_HEADER@, low_bytes(FDK_VERSION@)),
        RUNTIME_HEADER@,
        low_bytes(FDK_RUNTIME@),
    )
}

/// The headers of a response with the given logical status, made from the
/// headers in `list`: first the status header is set, then the two that name
/// the kit and its toolchain.
pub open spec fn framed(list: Seq<(Seq<char>, Seq<u8>)>, logical: u16) -> Seq<(Seq<char>, Seq<u8>)> {
    signed(with_header(list, STATUS_HEADER@, status_value(logical)))
}

/// What a response with the given logical status holds under `name`, when it
/// was made from headers that held `given` under that name.
pub open spec fn response_values(given: Seq<Seq<u8>>, logical: u16, name: Seq<char>) -> Seq<Seq<u8>> {
    if name == STATUS_HEADER@ {
        seq![status_value(logical)]
    } else if name == VERSION_HEADER@ {
        seq![low_bytes(FDK_VERSION@)]
    } else if name == RUNTIME_HEADER@ {
        seq![low_bytes(FDK_RUNTIME@)]
    } else {
        given
    }
}

/// Whether every name in `list` is a header name in lower case.
pub open spec fn canonical(list: Seq<(Seq<char>, Seq<u8>)>) -> bool {
    forall|i: int|
        0 <= i < list.len() ==> is_header_name(#[trigger] list[i].0) && lower(list[i].0)
            == list[i].0
}

/// What an optional body stands for: nothing is the empty body.
pub open spec fn body_or_empty(body: Option<Vec<u8>>) -> Seq<u8> {
    match body {
        Some(bytes) => bytes@,
        None => Seq::empty(),
    }
}

/// What optional headers stand for: nothing is the map without headers.
pub open spec fn view_or_empty(headers: Option<HeaderMap<HeaderValue>>) -> Map<
    Seq<char>,
    Seq<Seq<u8>>,
> {
    match headers {
        Some(map) => header_view(map),
        None => no_headers(),
    }
}

impl Envelope {
    /// The values of the status header, in the order of the headers.
    pub open spec fn status_values(self) -> Seq<Seq<u8>> {
        values_named(pairs(self.headers@), STATUS_HEADER@)
    }

    /// Whether the response bears exactly one status header, and that one
    /// gives `logical` in decimal.
    pub open spec fn carries_status(self, logical: u16) -> bool {
        self.status_values() == seq![status_value(logical)]
    }

    /// Whether the response is what the platform expects for the given logical
    /// status, made from the headers that `given` holds:
    /// every header name is in lower case, the three sentinels stand once each
    /// with their own values, and every other name has what was given.
    pub open spec fn frames(self, given: Map<Seq<char>, Seq<Seq<u8>>>, logical: u16) -> bool {
        &&& canonical(pairs(self.headers@))
        &&& forall|name: Seq<char>| #[trigger]
            values_named(pairs(self.headers@), name) == response_values(
                values_in(given, name),
                logical,
                name,
            )
    }

    /// The first value of the header with the given name. The name may be
    /// asked for in any case; the headers of a response bear theirs in lower
    /// case.
    pub fn header(&self, name: &str) -> (r: Option<Vec<u8>>)
        ensures
            r.is_some() == (values_named(pairs(self.headers@), lower(name@)).len() > 0),
            r.is_some() ==> r.unwrap()@ == values_named(pairs(self.headers@), lower(name@))[0],
    {
        let wanted = lower_string(name);
        let mut i: usize = 0;
        assert(pairs(self.headers@).subrange(0, 0) =~= Seq::empty());
        while i < self.headers.len()
            invariant
                i <= self.headers.len(),
                wanted@ == lower(name@),
                values_named(pairs(self.headers@).subrange(0, i as int), wanted@).len() == 0,
            decreases self.headers.len() - i,
        {
            if *self.headers[i].name.as_str() == *wanted.as_str() {
                let value = self.headers[i].value.clone();
                assert(value@ == self.headers@[i as int].value@);
                proof {
                    lemma_first_value_named(pairs(self.headers@), wanted@, i as int);
                }
                return Some(value);
            }
            proof {
                let after = pairs(self.headers@).subrange(0, i + 1);
                assert(after.drop_last() =~= pairs(self.headers@).subrange(0, i as int));
            }
            i = i + 1;
        }
        assert(pairs(self.headers@).subrange(0, i as int) =~= pairs(self.headers@));
        None
    }
}

/// Reads a status from the three decimal digits of a status header.
fn read_status(value: &Vec<u8>) -> (r: Option<StatusCode>)
    ensures
        r matches Some(status) ==> 100 <= status@ <= 599 && status_value(status@) == value@,
        r is None ==> forall|code: u16|
            100 <= code <= 599 ==> #[trigger] status_value(code) != value@,
{
    if value.len() != 3 {
        proof {
            assert forall|code: u16| 100 <= code <= 599 implies #[trigger] status_value(code)
                != value@ by {
                lemma_status_value_digits(code);
            }
        }
        return None;
    }
    let hundreds = value[0];
    let tens = value[1];
    let units = value[2];
    if hundreds < 49 || hundreds > 53 || tens < 48 || tens > 57 || units < 48 || units > 57 {
        proof {
            assert forall|code: u16| 100 <= code <= 599 implies #[trigger] status_value(code)
                != value@ by {
                lemma_status_value_digits(code);
                let digits = status_value(code);
                assert(49 <= digits[0] <= 53 && 48 <= digits[1] <= 57 && 48 <= digits[2] <= 57);
            }
        }
        return None;
    }
    let h: u16 = (hundreds - 48) as u16;
    let t: u16 = (tens - 48) as u16;
    let n: u16 = (units - 48) as u16;
    let read: u16 = h * 100 + t * 10 + n;
    proof {
        assert(read / 100 == h && (read / 10) % 10 == t && read % 10 == n);
        lemma_status_value_digits(read);
        assert(status_value(read) =~= value@);
    }
    StatusCode::from_u16(read)
}

/// Two statuses from 100 to 599 with the same status header are the same.
pub proof fn lemma_status_value_injective(a: u16, b: u16)
    requires
        100 <= a <= 599,
        100 <= b <= 599,
        status_value(a) == status_value(b),
    ensures
        a == b,
{
    lemma_status_value_digits(a);
    lemma_status_value_digits(b);
    let x = status_value(a);
    let y = status_value(b);
    assert(x[0] == y[0] && x[1] == y[1] && x[2] == y[2]);
    assert(a / 100 == b / 100 && (a / 10) % 10 == (b / 10) % 10 && a % 10 == b % 10);
}

impl Envelope {
    /// The logical status of the response, read back from its status header.
    /// It is there whenever the first status header gives a code from 100 to
    /// 599 in three decimal digits, as that of a framed response does.
    pub fn logical_status(&self) -> (r: Option<StatusCode>)
        ensures
            forall|code: u16|
                100 <= code <= 599 && #[trigger] self.carries_status(code) ==> code_of(r) == Some(
                    code,
                ),
            r.is_some() ==> self.status_values().len() > 0 && self.status_values()[0]
                == status_value(r.unwrap()@),
    {
        proof {
            lemma_own_names_canonical();
        }
        match self.header(STATUS_HEADER) {
            Some(value) => {
                let r = read_status(&value);
                proof {
                    assert forall|code: u16|
                        100 <= code <= 599 && #[trigger] self.carries_status(code) implies code_of(
                        r,
                    ) == Some(code) by {
                        assert(status_value(code) == value@);
                        if let Some(status) = r {
                            lemma_status_value_injective(code, status@);
                        }
                    }
                }
                r
            },
            None => None,
        }
    }
}

/// The status header of a status from 100 to 599 has three bytes: the decimal
/// digits of the hundreds, the tens and the units.
pub proof fn lemma_status_value_digits(code: u16)
    requires
        100 <= code <= 599,
    ensures
        status_value(code) == seq![
            (48 + code / 100) as u8,
            (48 + (code / 10) % 10) as u8,
            (48 + code % 10) as u8,
        ],
{
    crate::text::lemma_decimal_three_digits(code as nat);
    let digits = decimal(code as nat);
    assert(digits.len() == 3);
    assert(status_value(code) =~= seq![
        (48 + code / 100) as u8,
        (48 + (code / 10) % 10) as u8,
        (48 + code % 10) as u8,
    ]) by {
        assert(crate::text::low_byte(digits[0]) == (48 + code / 100) as u8);
        assert(crate::text::low_byte(digits[1]) == (48 + (code / 10) % 10) as u8);
        assert(crate::text::low_byte(digits[2]) == (48 + code % 10) as u8);
    }
}

/// The values under a name in two lists laid end to end.
pub proof fn lemma_values_named_add(
    a: Seq<(Seq<char>, Seq<u8>)>,
    b: Seq<(Seq<char>, Seq<u8>)>,
    name: Seq<char>,
)
    ensures
        values_named(a + b, name) == values_named(a, name) + values_named(b, name),
    decreases b.len(),
{
    if b.len() == 0 {
        assert(a + b =~= a);
        assert(values_named(a, name) + values_named(b, name) =~= values_named(a, name));
    } else {
        assert((a + b).drop_last() =~= a + b.drop_last());
        assert((a + b).last() == b.last());
        lemma_values_named_add(a, b.drop_last(), name);
        if b.last().0 == name {
            assert(values_named(a + b, name) =~= values_named(a, name) + values_named(b, name));
        }
    }
}

/// If no header before position `i` bears `name` and the one at `i` does, its
/// value is the first under that name.
pub proof fn lemma_first_value_named(list: Seq<(Seq<char>, Seq<u8>)>, name: Seq<char>, i: int)
    requires
        0 <= i < list.len(),
        list[i].0 == name,
        values_named(list.subrange(0, i), name).len() == 0,
    ensures
        values_named(list, name).len() > 0,
        values_named(list, name)[0] == list[i].1,
{
    let head = list.subrange(0, i);
    let one = seq![list[i]];
    let tail = list.subrange(i + 1, list.len() as int);
    assert(list =~= head + one + tail);
    lemma_values_named_add(head + one, tail, name);
    lemma_values_named_add(head, one, name);
    assert(values_named(one, name) =~= seq![list[i].1]) by {
        reveal_with_fuel(values_named, 2);
        assert(one.drop_last() =~= Seq::empty());
    }
}

/// What is left under each name when the headers of one name are taken out.
pub proof fn lemma_values_without(list: Seq<(Seq<char>, Seq<u8>)>, name: Seq<char>, other: Seq<char>)
    ensures
        other == name ==> values_named(without(list, name), other) == Seq::<Seq<u8>>::empty(),
        other != name ==> values_named(without(list, name), other) == values_named(list, other),
    decreases list.len(),
{
    if list.len() > 0 {
        lemma_values_without(list.drop_last(), name, other);
        if list.last().0 != name {
            let shorter = without(list.drop_last(), name);
            assert(shorter.push(list.last()).drop_last() =~= shorter);
        }
    }
}

/// What stands under each name once a header was set: the new value alone
/// under its own name, and what was there under every other.
pub proof fn lemma_values_with_header(
    list: Seq<(Seq<char>, Seq<u8>)>,
    name: Seq<char>,
    value: Seq<u8>,
    other: Seq<char>,
)
    ensures
        other == name ==> values_named(with_header(list, name, value), other) == seq![value],
        other != name ==> values_named(with_header(list, name, value), other) == values_named(
            list,
            other,
        ),
{
    lemma_values_without(list, name, other);
    let shorter = without(list, name);
    assert(shorter.push((name, value)).drop_last() =~= shorter);
    if other == name {
        assert(values_named(with_header(list, name, value), other) =~= seq![value]);
    }
}

/// The three sentinel names differ from one another.
pub proof fn lemma_sentinel_names_differ()
    ensures
        STATUS_HEADER@ != VERSION_HEADER@,
        STATUS_HEADER@ != RUNTIME_HEADER@,
        VERSION_HEADER@ != RUNTIME_HEADER@,
{
    reveal_strlit("fn-http-status");
    reveal_strlit("fn-fdk-version");
    reveal_strlit("fn-fdk-runtime");
    assert(STATUS_HEADER@[3] == 'h');
    assert(VERSION_HEADER@[3] == 'f');
    assert(RUNTIME_HEADER@[3] == 'f');
    assert(VERSION_HEADER@[7] == 'v');
    assert(RUNTIME_HEADER@[7] == 'r');
}

/// Sentinels win: whatever headers a response is made from, it holds under
/// each sentinel's name the kit's own value and nothing else, and under every
/// other name exactly what it was given.
pub proof fn lemma_values_framed(list: Seq<(Seq<char>, Seq<u8>)>, logical: u16, name: Seq<char>)
    ensures
        values_named(framed(list, logical), name) == response_values(
            values_named(list, name),
            logical,
            name,
        ),
{
    lemma_sentinel_names_differ();
    let a = with_header(list, STATUS_HEADER@, status_value(logical));
    let b = with_header(a, VERSION_HEADER@, low_bytes(FDK_VERSION@));
    lemma_values_with_header(list, STATUS_HEADER@, status_value(logical), name);
    lemma_values_with_header(a, VERSION_HEADER@, low_bytes(FDK_VERSION@), name);
    lemma_values_with_header(b, RUNTIME_HEADER@, low_bytes(FDK_RUNTIME@), name);
}

/// Every response made for a logical status bears exactly one status header,
/// and its value is that status in decimal.
pub proof fn lemma_one_status_header(list: Seq<(Seq<char>, Seq<u8>)>, logical: u16)
    ensures
        values_named(framed(list, logical), STATUS_HEADER@) == seq![status_value(logical)],
{
    lemma_values_framed(list, logical, STATUS_HEADER@);
}

/// A name is canonical when it is a header name in lower case.
pub open spec fn is_canonical_name(name: Seq<char>) -> bool {
    is_header_name(name) && lower(name) == name
}

/// The names that the kit itself writes are header names in lower case.
pub proof fn lemma_own_names_canonical()
    ensures
        is_canonical_name(STATUS_HEADER@),
        is_canonical_name(VERSION_HEADER@),
        is_canonical_name(RUNTIME_HEADER@),
        is_canonical_name(LENGTH_HEADER@),
{
    reveal_strlit("fn-http-status");
    reveal_strlit("fn-fdk-version");
    reveal_strlit("fn-fdk-runtime");
    reveal_strlit("content-length");
    assert(lower(STATUS_HEADER@) =~= STATUS_HEADER@);
    assert(lower(VERSION_HEADER@) =~= VERSION_HEADER@);
    assert(lower(RUNTIME_HEADER@) =~= RUNTIME_HEADER@);
    assert(lower(LENGTH_HEADER@) =~= LENGTH_HEADER@);
}

/// Taking headers out of a canonical list leaves a canonical list.
pub proof fn lemma_canonical_without(list: Seq<(Seq<char>, Seq<u8>)>, name: Seq<char>)
    requires
        canonical(list),
    ensures
        canonical(without(list, name)),
    decreases list.len(),
{
    if list.len() > 0 {
        assert forall|i: int| 0 <= i < list.drop_last().len() implies is_canonical_name(
            #[trigger] list.drop_last()[i].0,
        ) by {
            assert(list.drop_last()[i] == list[i]);
        }
        lemma_canonical_without(list.drop_last(), name);
    }
}

/// Setting a header with a canonical name in a canonical list leaves a
/// canonical list.
pub proof fn lemma_canonical_with_header(
    list: Seq<(Seq<char>, Seq<u8>)>,
    name: Seq<char>,
    value: Seq<u8>,
)
    requires
        canonical(list),
        is_canonical_name(name),
    ensures
        canonical(with_header(list, name, value)),
{
    lemma_canonical_without(list, name);
}

/// A response made from a canonical list is canonical.
pub proof fn lemma_canonical_framed(list: Seq<(Seq<char>, Seq<u8>)>, logical: u16)
    requires
        canonical(list),
    ensures
        canonical(framed(list, logical)),
{
    lemma_own_names_canonical();
    let a = with_header(list, STATUS_HEADER@, status_value(logical));
    let b = with_header(a, VERSION_HEADER@, low_bytes(FDK_VERSION@));
    lemma_canonical_with_header(list, STATUS_HEADER@, status_value(logical));
    lemma_canonical_with_header(a, VERSION_HEADER@, low_bytes(FDK_VERSION@));
    lemma_canonical_with_header(b, RUNTIME_HEADER@, low_bytes(FDK_RUNTIME@));
}

/// Sets a header in a list: the headers that bear `name` leave, and the new
/// one is put last.
pub(crate) fn set_header(headers: Vec<Header>, name: &str, value: Vec<u8>) -> (r: Vec<Header>)
    ensures
        pairs(r@) == with_header(pairs(headers@), name@, value@),
{
    let mut out: Vec<Header> = Vec::new();
    let mut i: usize = 0;
    assert(pairs(headers@).subrange(0, 0) =~= Seq::empty());
    assert(pairs(out@) =~= Seq::empty());
    while i < headers.len()
        invariant
            i <= headers.len(),
            pairs(out@) == without(pairs(headers@).subrange(0, i as int), name@),
        decreases headers.len() - i,
    {
        proof {
            let after = pairs(headers@).subrange(0, i + 1);
            assert(after.drop_last() =~= pairs(headers@).subrange(0, i as int));
            assert(after.last() == headers@[i as int]@);
        }
        if !(*headers[i].name.as_str() == *name) {
            let kept_name = headers[i].name.clone();
            let kept_value = headers[i].value.clone();
            assert(kept_value@ == headers@[i as int].value@);
            let h = Header { name: kept_name, value: kept_value };
            proof {
                lemma_pairs_push(out@, h);
            }
            out.push(h);
        }
        i = i + 1;
    }
    assert(pairs(headers@).subrange(0, i as int) =~= pairs(headers@));
    let h = Header { name: name.to_owned(), value };
    proof {
        lemma_pairs_push(out@, h);
    }
    out.push(h);
    out
}

/// Sets the status header for the logical status.
fn add_status_header(headers: Vec<Header>, status: StatusCode) -> (r: Vec<Header>)
    ensures
        pairs(r@) == with_header(pairs(headers@), STATUS_HEADER@, status_value(status@)),
{
    let code = decimal_string(status.as_u16() as usize);
    set_header(headers, STATUS_HEADER, text_bytes(code.as_str()))
}

/// Builds a response with the given outer status: the two headers that name
/// the kit and its toolchain are set, and a missing body is the empty body.
fn generic_response(status: StatusCode, body: Option<Vec<u8>>, headers: Vec<Header>) -> (r:
    Envelope)
    ensures
        r.status == status,
        r.body@ == body_or_empty(body),
        pairs(r.headers@) == signed(pairs(headers@)),
{
    let versioned = set_header(headers, VERSION_HEADER, text_bytes(FDK_VERSION));
    let signed_headers = set_header(versioned, RUNTIME_HEADER, text_bytes(FDK_RUNTIME));
    let bytes = match body {
        Some(bytes) => bytes,
        None => Vec::new(),
    };
    Envelope { status, headers: signed_headers, body: bytes }
}

/// A response that leaves the function instance in service: the outer status
/// is `200`, whatever the logical status says.
pub(crate) fn recoverable(status: StatusCode, body: Option<Vec<u8>>, headers: Vec<Header>) -> (r:
    Envelope)
    ensures
        r.status@ == 200,
        r.body@ == body_or_empty(body),
        pairs(r.headers@) == framed(pairs(headers@), status@),
        r.carries_status(status@),
        100 <= status@ <= 599,
{
    proof {
        lemma_one_status_header(pairs(headers@), status@);
    }
    let _ = status.as_u16();
    generic_response(StatusCode::ok(), body, add_status_header(headers, status))
}

/// A response that tells the platform to replace the function instance: the
/// outer status is `502`.
pub(crate) fn unrecoverable(status: StatusCode, body: Option<Vec<u8>>, headers: Vec<Header>) -> (r:
    Envelope)
    ensures
        r.status@ == 502,
        r.body@ == body_or_empty(body),
        pairs(r.headers@) == framed(pairs(headers@), status@),
        r.carries_status(status@),
        100 <= status@ <= 599,
{
    proof {
        lemma_one_status_header(pairs(headers@), status@);
    }
    let _ = status.as_u16();
    generic_response(StatusCode::bad_gateway(), body, add_status_header(headers, status))
}

/// The headers of an optional map as a list; no map gives no headers.
pub(crate) fn listing(headers: Option<HeaderMap<HeaderValue>>) -> (r: Vec<Header>)
    ensures
        lists(pairs(r@), view_or_empty(headers)),
{
    match headers {
        Some(map) => list(&map),
        None => {
            let empty: Vec<Header> = Vec::new();
            assert(pairs(empty@) =~= Seq::empty());
            assert forall|name: Seq<char>| #[trigger]
                values_named(pairs(empty@), name) == values_in(no_headers(), name) by {}
            empty
        },
    }
}

/// A response made from a list that lays out `view` holds what `view` held
/// under every name that is no sentinel's.
proof fn lemma_frames(e: Envelope, list: Seq<(Seq<char>, Seq<u8>)>, view: Map<
    Seq<char>,
    Seq<Seq<u8>>,
>, logical: u16)
    requires
        lists(list, view),
        pairs(e.headers@) == framed(list, logical),
    ensures
        e.frames(view, logical),
{
    lemma_canonical_framed(list, logical);
    assert forall|name: Seq<char>| #[trigger]
        values_named(pairs(e.headers@), name) == response_values(
            values_in(view, name),
            logical,
            name,
        ) by {
        lemma_values_framed(list, logical, name);
    }
}

/// Wraps a success, or a failure that leaves the function instance in
/// service. The outer status is `200`; the logical status goes into the status
/// header. The headers given are kept, but for those that bear a sentinel's
/// name.
pub fn success_or_recoverable_error(
    status: StatusCode,
    body: Option<Vec<u8>>,
    headers: Option<HeaderMap<HeaderValue>>,
) -> (r: Envelope)
    ensures
        r.status@ == 200,
        r.body@ == body_or_empty(body),
        r.frames(view_or_empty(headers), status@),
        r.carries_status(status@),
        100 <= status@ <= 599,
{
    let given = listing(headers);
    let r = recoverable(status, body, given);
    proof {
        lemma_frames(r, pairs(given@), view_or_empty(headers), status@);
    }
    r
}

/// Wraps a failure after which the function instance should be replaced. The
/// outer status is `502`; the logical status goes into the status header. The
/// headers given are kept, but for those that bear a sentinel's name.
pub fn unrecoverable_error(
    status: StatusCode,
    body: Option<Vec<u8>>,
    headers: Option<HeaderMap<HeaderValue>>,
) -> (r: Envelope)
    ensures
        r.status@ == 502,
        r.body@ == body_or_empty(body),
        r.frames(view_or_empty(headers), status@),
        r.carries_status(status@),
        100 <= status@ <= 599,
{
    let given = listing(headers);
    let r = unrecoverable(status, body, given);
    proof {
        lemma_frames(r, pairs(given@), view_or_empty(headers), status@);
    }
    r
}

/// A header map with one header. The map holds the value under the name in
/// lower case. It fails on a name or a value that no header can have, and on
/// nothing else.
pub fn make_header_map_with_single_value(key: &str, value: &[u8]) -> (r: Result<
    HeaderMap<HeaderValue>,
    InsertError,
>)
    ensures
        (r matches Err(InsertError::Name)) == !is_header_name(key@),
        (r matches Err(InsertError::Value)) == (is_header_name(key@) && !is_header_value(value@)),
        is_header_name(key@) && is_header_value(value@) ==> r is Ok,
        r matches Ok(map) ==> header_view(map) == no_headers().insert(lower(key@), seq![value@]),
{
    let mut map = new_map();
    assert(!holds_many(no_headers())) by {
        assert(no_headers().dom() =~= Set::<Seq<char>>::empty());
    }
    match try_insert(&mut map, key, value) {
        Ok(()) => Ok(map),
        Err(e) => Err(e),
    }
}

} // verus!
