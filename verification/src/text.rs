//! Specifications of the standard string operations that the library uses and
//! that vstd does not specify, with one wrapper each.
use vstd::prelude::*;

verus! {

/// `needle` occurs in `haystack` as a contiguous run of characters.
pub open spec fn has_infix(haystack: Seq<char>, needle: Seq<char>) -> bool {
    exists|i: int|
        0 <= i && i + needle.len() <= haystack.len() && #[trigger] haystack.subrange(
            i,
            i + needle.len(),
        ) == needle
}

/// `s` with every trailing `c` removed.
pub open spec fn strip_trailing(s: Seq<char>, c: char) -> Seq<char>
    decreases s.len(),
{
    if s.len() > 0 && s.last() == c {
        strip_trailing(s.drop_last(), c)
    } else {
        s
    }
}

/// The characters with the Unicode `White_Space` property, which is what
/// `char::is_whitespace` tests.
pub open spec fn is_unicode_whitespace(c: char) -> bool {
    let u = c as u32;
    ||| (9 <= u <= 13)
    ||| u == 32 || u == 0x85 || u == 0xA0 || u == 0x1680
    ||| (0x2000 <= u <= 0x200A)
    ||| u == 0x2028 || u == 0x2029 || u == 0x202F || u == 0x205F || u == 0x3000
}

/// `s` with leading white space removed.
pub open spec fn strip_leading_whitespace(s: Seq<char>) -> Seq<char>
    decreases s.len(),
{
    if s.len() > 0 && is_unicode_whitespace(s[0]) {
        strip_leading_whitespace(s.drop_first())
    } else {
        s
    }
}

/// `s` with trailing white space removed.
pub open spec fn strip_trailing_whitespace(s: Seq<char>) -> Seq<char>
    decreases s.len(),
{
    if s.len() > 0 && is_unicode_whitespace(s.last()) {
        strip_trailing_whitespace(s.drop_last())
    } else {
        s
    }
}

/// `s` with leading and trailing white space removed, as `str::trim` does.
pub open spec fn trimmed(s: Seq<char>) -> Seq<char> {
    strip_trailing_whitespace(strip_leading_whitespace(s))
}

/// The text that `FromUtf8Error`'s `Display` gives for bytes that are not UTF-8.
pub uninterp spec fn utf8_error_text(bytes: Seq<u8>) -> Seq<char>;

/// Wraps `str::contains` with a `&str` pattern: true exactly when `needle`
/// occurs in `haystack`, as its documentation says.
#[verifier::external_body]
pub(crate) fn str_contains(haystack: &str, needle: &str) -> (found: bool)
    ensures
        found == has_infix(haystack@, needle@),
{
    haystack.contains(needle)
}

/// Wraps `str::trim_end_matches('/')`: the string with all trailing slashes removed.
#[verifier::external_body]
pub(crate) fn str_trim_end_slashes(s: &str) -> (trimmed_s: &str)
    ensures
        trimmed_s@ == strip_trailing(s@, '/'),
{
    s.trim_end_matches('/')
}

/// Wraps `str::trim`: the string with leading and trailing white space removed.
#[verifier::external_body]
pub(crate) fn str_trim(s: &str) -> (trimmed_s: &str)
    ensures
        trimmed_s@ == trimmed(s@),
{
    s.trim()
}

/// Wraps `String::from_utf8`: `Ok` with the decoded text exactly when the bytes
/// are UTF-8; otherwise the error, turned into its `Display` text.
#[verifier::external_body]
pub(crate) fn string_from_utf8(bytes: Vec<u8>) -> (decoded: Result<String, String>)
    ensures
        decoded is Ok <==> vstd::utf8::valid_utf8(bytes@),
        decoded matches Ok(s) ==> s@ == vstd::utf8::decode_utf8(bytes@),
        decoded matches Err(e) ==> e@ == utf8_error_text(bytes@),
{
    String::from_utf8(bytes).map_err(|err| err.to_string())
}

} // verus!
