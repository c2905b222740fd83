//! The `http` types that requests and responses carry, and the header map
//! operations that request preparation performs on them.
use vstd::prelude::*;
use vstd::string::StringSliceAdditionalSpecFns;

verus! {

#[verifier::external_type_specification]
#[verifier::external_body]
pub struct ExMethod(http::Method);

#[verifier::external_type_specification]
#[verifier::external_body]
pub struct ExStatusCode(http::StatusCode);

#[verifier::external_type_specification]
#[verifier::external_body]
pub struct ExHeaderValue(http::HeaderValue);

#[verifier::external_type_specification]
#[verifier::external_body]
#[verifier::reject_recursive_types(T)]
pub struct ExHeaderMap<T>(http::HeaderMap<T>);

/// What a header map holds: for each (lower-case) header name, its values in order.
pub uninterp spec fn header_entries(m: http::HeaderMap) -> Map<Seq<u8>, Seq<Seq<u8>>>;

/// The number of distinct header names below which `HeaderMap::try_insert`
/// cannot run out of room, whatever the map has allocated.
pub open spec fn header_map_roomy_below() -> nat {
    6553
}

/// A byte that may stand in an HTTP header name (a `tchar` of RFC 9110).
pub open spec fn is_header_name_byte(b: u8) -> bool {
    ||| (97 <= b <= 122)  // a-z
    ||| (65 <= b <= 90)  // A-Z
    ||| (48 <= b <= 57)  // 0-9
    ||| b == 33 || b == 35 || b == 36 || b == 37 || b == 38 || b == 39  // ! # $ % & '
    ||| b == 42 || b == 43 || b == 45 || b == 46 || b == 94 || b == 95  // * + - . ^ _
    ||| b == 96 || b == 124 || b == 126  // ` | ~
}

/// The bytes that `HeaderName::from_bytes` accepts: 1 to 65535 name bytes.
pub open spec fn is_header_name(name: Seq<u8>) -> bool {
    &&& 1 <= name.len() <= 65535
    &&& forall|i: int| 0 <= i < name.len() ==> is_header_name_byte(#[trigger] name[i])
}

/// ASCII lower case of one byte.
pub open spec fn ascii_lower(b: u8) -> u8 {
    if 65 <= b <= 90 {
        (b + 32) as u8
    } else {
        b
    }
}

/// The key under which a header map files a header name: its lower-case form.
pub open spec fn header_key(name: Seq<u8>) -> Seq<u8> {
    name.map_values(|b: u8| ascii_lower(b))
}

/// The bytes that `HeaderValue::from_str` accepts (its `is_valid` test): tab,
/// and every byte from space up, but DEL.
pub open spec fn is_header_value(value: Seq<u8>) -> bool {
    forall|i: int|
        0 <= i < value.len() ==> ((32 <= #[trigger] value[i] && value[i] != 127) || value[i] == 9)
}

/// The contents of a header map with no headers.
pub open spec fn no_headers() -> Map<Seq<u8>, Seq<Seq<u8>>> {
    Map::empty()
}

/// Wraps `HeaderMap::new`: the map holds nothing.
#[verifier::external_body]
pub(crate) fn header_map_new() -> (map: http::HeaderMap)
    ensures
        header_entries(map) == no_headers(),
{
    http::HeaderMap::new()
}

/// Wraps `HeaderMap::try_insert`, with the name converted by `HeaderName::from_bytes`
/// and the value by `HeaderValue::from_str`.
///
/// Claimed: when it returns `true`, the name and value were accepted, and the
/// name's key now maps to the one value (all earlier values under it are gone);
/// when it returns `false`, the map is as it was. The conversions accept exactly
/// the names and values of `is_header_name` and `is_header_value` (the http
/// source's `HEADER_CHARS` table and `is_valid` test), and `try_insert` only
/// fails when the map would outgrow `MAX_SIZE`, which its growth rules rule
/// out while it holds fewer than `header_map_roomy_below()` names.
#[verifier::external_body]
pub(crate) fn header_map_try_insert(m: &mut http::HeaderMap, name: &str, value: &str) -> (inserted: bool)
    ensures
        inserted ==> {
            &&& is_header_name(name.spec_bytes())
            &&& is_header_value(value.spec_bytes())
            &&& header_entries(*final(m)) == header_entries(*old(m)).insert(
                header_key(name.spec_bytes()),
                seq![value.spec_bytes()],
            )
        },
        !inserted ==> header_entries(*final(m)) == header_entries(*old(m)),
        (is_header_name(name.spec_bytes()) && is_header_value(value.spec_bytes())
            && header_entries(*old(m)).dom().len() < header_map_roomy_below()) ==> inserted,
{
    match (http::HeaderName::from_bytes(name.as_bytes()), http::HeaderValue::from_str(value)) {
        (Ok(n), Ok(v)) => m.try_insert(n, v).is_ok(),
        _ => false,
    }
}


/// The name of a method (`Method::as_str`), which tells methods apart.
pub uninterp spec fn method_name(m: http::Method) -> Seq<char>;

/// Wraps the constant `Method::POST`: the method named `POST`.
#[verifier::external_body]
pub(crate) fn method_post() -> (method: http::Method)
    ensures
        method_name(method) == "POST"@,
{
    http::Method::POST
}

} // verus!
