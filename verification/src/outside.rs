//! Declarations and thin wrappers for what the library takes from other crates
//! and from std. Every contract here is believed, not proved; each doc comment
//! says what it claims.

use vstd::prelude::*;

verus! {

/// `uuid::Uuid`, carried through the library as an opaque identifier.
#[verifier::external_type_specification]
#[verifier::external_body]
pub struct ExUuid(uuid::Uuid);

/// Calls `uuid::Uuid::new_v4`, which draws a random version-4 identifier.
/// The result depends on a random source, so nothing is claimed of it.
#[verifier::external_body]
pub(crate) fn fresh_uuid() -> (id: uuid::Uuid) {
    uuid::Uuid::new_v4()
}

/// What `str::to_uppercase` returns for a string: the Unicode upper-case mapping of
/// each character, which can lengthen the string. It depends on its argument alone.
pub uninterp spec fn unicode_uppercase(s: Seq<char>) -> Seq<char>;

/// Calls `str::to_uppercase`. Claims that the result is `unicode_uppercase` of the
/// argument's characters.
#[verifier::external_body]
pub(crate) fn to_uppercase(s: &str) -> (res: String)
    ensures
        res@ == unicode_uppercase(s@),
{
    s.to_uppercase()
}

/// What the `Display` impl of `reqwest::StatusCode` (http's `StatusCode`) writes for
/// a code: the number, a space, and the canonical reason phrase, or
/// `<unknown status code>` where the code has none. It depends on the code alone.
pub uninterp spec fn status_line(code: u16) -> Seq<char>;

/// Calls `reqwest::StatusCode::from_u16` and renders the code with its `Display` impl.
/// `from_u16` accepts exactly the codes from 100 to 999, which `requires` demands.
/// Claims that the text is `status_line(code)`.
#[verifier::external_body]
pub(crate) fn render_status(code: u16) -> (res: String)
    requires
        100 <= code <= 999,
    ensures
        res@ == status_line(code),
{
    match reqwest::StatusCode::from_u16(code) {
        Ok(status) => format!("{}", status),
        Err(_) => String::new(),
    }
}

/// What `serde_json::from_str` makes of a text, read as a JSON value, for one of
/// its members: `None` where the text is not JSON; otherwise the member `key` where
/// it is a string, and `None` inside where it is missing or not a string. It
/// depends on the text and the key alone.
pub uninterp spec fn json_string_member(payload: Seq<char>, key: Seq<char>) -> Option<Option<Seq<char>>>;

/// What `serde_json::from_str` makes of a text, read as a JSON value, for one of
/// its members: `None` where the text is not JSON; otherwise the member `key` as
/// serde_json writes it out compactly (`null` where it is missing). It depends on
/// the text and the key alone.
pub uninterp spec fn json_member_text(payload: Seq<char>, key: Seq<char>) -> Option<Seq<char>>;

/// The characters of an optional string.
pub open spec fn opt_chars(o: Option<String>) -> Option<Seq<char>> {
    match o {
        Some(s) => Some(s@),
        None => None,
    }
}

/// Calls `serde_json::from_str` for a `serde_json::Value` and picks the member
/// `key` where it is a string. Claims that the result is `json_string_member` of
/// the text and the key.
#[verifier::external_body]
pub(crate) fn read_string_member(payload: &str, key: &str) -> (res: Option<Option<String>>)
    ensures
        match res {
            None => json_string_member(payload@, key@) is None,
            Some(m) => json_string_member(payload@, key@) == Some(opt_chars(m)),
        },
{
    match serde_json::from_str::<serde_json::Value>(payload) {
        Ok(v) => Some(v[key].as_str().map(|t| t.to_string())),
        Err(_) => None,
    }
}

/// Calls `serde_json::from_str` for a `serde_json::Value` and writes the member
/// `key` back out with `to_string`. Claims that the result is `json_member_text`
/// of the text and the key.
#[verifier::external_body]
pub(crate) fn read_member_text(payload: &str, key: &str) -> (res: Option<String>)
    ensures
        opt_chars(res) == json_member_text(payload@, key@),
{
    match serde_json::from_str::<serde_json::Value>(payload) {
        Ok(v) => Some(v[key].to_string()),
        Err(_) => None,
    }
}

} // verus!
