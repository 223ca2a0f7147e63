//! HTTP header maps: what the proxy reads from and writes to them.
use vstd::prelude::*;

use hyper::header::{HeaderName, HeaderValue};
use hyper::HeaderMap;

use crate::text::{chars_of, push_char};

verus! {

#[verifier::external_type_specification]
#[verifier::external_body]
#[verifier::reject_recursive_types(T)]
pub struct ExHeaderMap<T>(HeaderMap<T>);

#[verifier::external_type_specification]
#[verifier::external_body]
pub struct ExHeaderValue(HeaderValue);

/// What a header map holds: for each (lower-case) header name, its values
/// in order, each as its bytes.
pub uninterp spec fn header_fields(headers: HeaderMap) -> Map<Seq<char>, Seq<Seq<u8>>>;

/// A character that may stand in a header name as this library writes
/// them: a lower-case ASCII letter, a digit or `-`.
pub open spec fn name_char(c: char) -> bool {
    ('a' <= c && c <= 'z') || ('0' <= c && c <= '9') || c == '-'
}

/// A header name written in lower case.
pub open spec fn is_header_name(n: Seq<char>) -> bool {
    n.len() > 0 && forall|i: int| 0 <= i < n.len() ==> name_char(#[trigger] n[i])
}

/// A byte that `HeaderValue::to_str` accepts: visible ASCII or a tab.
pub open spec fn visible_byte(b: u8) -> bool {
    (32 <= b && b < 127) || b == 9
}

/// A character that is visible ASCII or a tab.
pub open spec fn visible_char(c: char) -> bool {
    (32 <= c as u32 && (c as u32) < 127) || c == '\t'
}

/// A text made only of visible ASCII characters and tabs.
pub open spec fn visible_text(s: Seq<char>) -> bool {
    forall|i: int| 0 <= i < s.len() ==> visible_char(#[trigger] s[i])
}

/// The bytes of an ASCII text.
pub open spec fn ascii_bytes(s: Seq<char>) -> Seq<u8> {
    s.map_values(|c: char| c as u8)
}

/// The text of header value bytes, when they are all visible ASCII (what
/// `HeaderValue::to_str` yields).
pub open spec fn value_text(v: Seq<u8>) -> Option<Seq<char>> {
    if forall|i: int| 0 <= i < v.len() ==> visible_byte(#[trigger] v[i]) {
        Some(v.map_values(|b: u8| b as char))
    } else {
        None
    }
}

/// The first value stored under `name` in `fields`, if any.
pub open spec fn first_in(fields: Map<Seq<char>, Seq<Seq<u8>>>, name: Seq<char>) -> Option<Seq<u8>> {
    if fields.contains_key(name) {
        Some(fields[name][0])
    } else {
        None
    }
}

/// The first value stored under `name`, if any.
pub open spec fn first_value(headers: HeaderMap, name: Seq<char>) -> Option<Seq<u8>> {
    first_in(header_fields(headers), name)
}

/// `HeaderMap::get`: the first value stored under `name`, as its bytes
/// (`HeaderValue::as_bytes`).
#[verifier::external_body]
pub(crate) fn header_first(headers: &HeaderMap, name: &str) -> (r: Option<Vec<u8>>)
    requires
        is_header_name(name@),
    ensures
        r matches Some(v) ==> first_value(*headers, name@) == Some(v@),
        r is None ==> first_value(*headers, name@) is None,
{
    headers.get(name).map(|v| v.as_bytes().to_vec())
}

/// How many names a map may hold before `HeaderMap::insert` can run out of
/// room: its table has at most 2^15 slots and is enlarged once five times
/// the names reach the slots, so below this count no insert panics.
pub const HEADER_NAME_ROOM: usize = 6553;

/// `HeaderMap::insert`: `name` then holds `value` alone, whatever it held
/// before. The name and value are made with `HeaderName::from_bytes` and
/// `HeaderValue::from_str`, which accept every input that `requires` admits.
#[verifier::external_body]
pub(crate) fn header_set(headers: &mut HeaderMap, name: &str, value: &str)
    requires
        is_header_name(name@),
        visible_text(value@),
        header_fields(*old(headers)).dom().finite(),
        header_fields(*old(headers)).dom().len() <= HEADER_NAME_ROOM,
    ensures
        header_fields(*final(headers)) == header_fields(*old(headers)).insert(
            name@,
            seq![ascii_bytes(value@)],
        ),
{
    if let (Ok(n), Ok(v)) = (HeaderName::from_bytes(name.as_bytes()), HeaderValue::from_str(value)) {
        headers.insert(n, v);
    }
}

/// `HeaderMap::keys_len`: the number of distinct names the map holds (one
/// entry per name), which is finite.
#[verifier::external_body]
pub(crate) fn header_name_count(headers: &HeaderMap) -> (r: usize)
    ensures
        if header_fields(*headers).dom().finite() {
            r == header_fields(*headers).dom().len()
        } else {
            false
        },
{
    headers.keys_len()
}

/// `HeaderMap::remove`: `name` holds nothing afterwards.
#[verifier::external_body]
pub(crate) fn header_remove(headers: &mut HeaderMap, name: &str)
    requires
        is_header_name(name@),
    ensures
        header_fields(*final(headers)) == header_fields(*old(headers)).remove(name@),
{
    headers.remove(name);
}

} // verus!

verus! {

/// The text of header value bytes when they are all visible ASCII; `None`
/// otherwise.
pub fn text_of_value(v: &Vec<u8>) -> (r: Option<String>)
    ensures
        r matches Some(s) ==> value_text(v@) == Some(s@),
        r is None ==> value_text(v@) is None,
{
    let mut s = String::new();
    let mut i: usize = 0;
    while i < v.len()
        invariant
            0 <= i <= v.len(),
            s@ == v@.take(i as int).map_values(|b: u8| b as char),
            forall|j: int| 0 <= j < i ==> visible_byte(#[trigger] v@[j]),
        decreases v.len() - i,
    {
        let b = v[i];
        if !((b >= 32 && b < 127) || b == 9) {
            assert(!visible_byte(v@[i as int]));
            return None;
        }
        push_char(&mut s, b as char);
        assert(v@.take(i + 1).map_values(|b: u8| b as char) =~= v@.take(i as int).map_values(
            |b: u8| b as char,
        ).push(b as char));
        i = i + 1;
    }
    assert(v@.take(v.len() as int) =~= v@);
    Some(s)
}

/// A letter `A`–`Z` turned to lower case; any other character unchanged.
pub open spec fn ascii_lower_char(c: char) -> char {
    if 'A' <= c && c <= 'Z' {
        ((c as u32) + 32) as char
    } else {
        c
    }
}

/// `str::to_ascii_lowercase`.
pub open spec fn ascii_lower(s: Seq<char>) -> Seq<char> {
    s.map_values(|c: char| ascii_lower_char(c))
}

/// `s` with its ASCII letters in lower case.
pub fn to_ascii_lower(s: &str) -> (r: String)
    ensures
        r@ == ascii_lower(s@),
{
    let v = chars_of(s);
    let mut r = String::new();
    let mut i: usize = 0;
    while i < v.len()
        invariant
            0 <= i <= v.len(),
            v@ == s@,
            r@ == v@.take(i as int).map_values(|c: char| ascii_lower_char(c)),
        decreases v.len() - i,
    {
        let c = v[i];
        let l = if 'A' <= c && c <= 'Z' {
            ((c as u32) + 32) as u8 as char
        } else {
            c
        };
        assert(l == ascii_lower_char(c)) by {
            if 'A' <= c && c <= 'Z' {
                assert((c as u32) + 32 < 128);
            }
        }
        push_char(&mut r, l);
        assert(v@.take(i + 1).map_values(|c: char| ascii_lower_char(c)) =~= v@.take(
            i as int,
        ).map_values(|c: char| ascii_lower_char(c)).push(l));
        i = i + 1;
    }
    assert(v@.take(v.len() as int) =~= v@);
    r
}

/// Whether `needle` occurs in `hay` starting at `at`.
pub open spec fn occurs_at(hay: Seq<char>, needle: Seq<char>, at: int) -> bool {
    0 <= at && at + needle.len() <= hay.len() && hay.subrange(at, at + needle.len()) == needle
}

/// Whether `needle` occurs anywhere in `hay` (`str::contains`).
pub open spec fn contains_text(hay: Seq<char>, needle: Seq<char>) -> bool {
    exists|at: int| occurs_at(hay, needle, at)
}

/// Whether `needle` occurs in `hay`.
pub fn text_contains(hay: &str, needle: &str) -> (r: bool)
    ensures
        r == contains_text(hay@, needle@),
{
    let h = chars_of(hay);
    let n = chars_of(needle);
    if n.len() > h.len() {
        assert forall|at: int| !occurs_at(hay@, needle@, at) by {}
        return false;
    }
    let mut at: usize = 0;
    while at <= h.len() - n.len()
        invariant
            h@ == hay@,
            n@ == needle@,
            n.len() <= h.len(),
            0 <= at <= h.len() - n.len() + 1,
            forall|k: int| 0 <= k < at ==> !occurs_at(hay@, needle@, k),
        decreases h.len() - at,
    {
        let mut j: usize = 0;
        let mut same = true;
        while j < n.len()
            invariant
                h@ == hay@,
                n@ == needle@,
                at + n.len() <= h.len(),
                0 <= j <= n.len(),
                same == (forall|q: int| 0 <= q < j ==> h@[at + q] == n@[q]),
            decreases n.len() - j,
        {
            if h[at + j] != n[j] {
                same = false;
            }
            j = j + 1;
        }
        if same {
            assert(hay@.subrange(at as int, at + needle@.len()) =~= needle@);
            assert(occurs_at(hay@, needle@, at as int));
            return true;
        }
        assert(!occurs_at(hay@, needle@, at as int)) by {
            let q = choose|q: int| 0 <= q < n.len() && h@[at + q] != n@[q];
            assert(hay@.subrange(at as int, at + needle@.len())[q] != needle@[q]);
        }
        at = at + 1;
    }
    assert forall|k: int| !occurs_at(hay@, needle@, k) by {
        if 0 <= k && k < at {
        }
    }
    false
}

} // verus!
