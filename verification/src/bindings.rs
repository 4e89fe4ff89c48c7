//! Calls into std and outside crates that the library makes, each with the
//! contract that the rest of the library relies on.
use vstd::prelude::*;
use crate::encoding::{base64_standard, form_query, lower_hex_digit, pair_views};

verus! {

/// `std::time::Instant`, the monotonic clock's readings. Verus sees nothing
/// inside an instant; the library only carries instants and asks for the
/// time between two of them.
#[verifier::external_type_specification]
#[verifier::external_body]
pub struct ExInstant(std::time::Instant);

/// `Instant`'s `Clone` (derived, as `Instant` is `Copy`) gives back the same
/// instant.
pub assume_specification[ <std::time::Instant as Clone>::clone ](i: &std::time::Instant) -> (r: std::time::Instant)
    ensures
        r == *i,
;

/// Reads the monotonic clock (`std::time::Instant::now`). Nothing is
/// promised of the instant: it is the time of the call.
#[verifier::external_body]
pub(crate) fn clock_now() -> (t: std::time::Instant) {
    std::time::Instant::now()
}

/// The nanoseconds from `earlier` to `later`, as
/// `Instant::saturating_duration_since` and `Duration::as_nanos` give them
/// (0 when `later` is not after `earlier`). It depends on the two instants
/// alone; what an instant stands for is the machine's clock.
pub uninterp spec fn elapsed_nanos(earlier: std::time::Instant, later: std::time::Instant) -> u128;

/// The time from `earlier` to `later` in nanoseconds
/// (`Instant::saturating_duration_since`, then `Duration::as_nanos`).
#[verifier::external_body]
pub(crate) fn age_nanos(earlier: &std::time::Instant, later: &std::time::Instant) -> (age: u128)
    ensures
        age == elapsed_nanos(*earlier, *later),
{
    later.saturating_duration_since(*earlier).as_nanos()
}

/// Base64 of the UTF-8 bytes of `text` with the standard alphabet and
/// padding, through `base64::Engine::encode` on
/// `base64::engine::general_purpose::STANDARD`.
#[verifier::external_body]
pub(crate) fn base64_encode(text: &str) -> (r: String)
    ensures
        r@ == base64_standard(vstd::utf8::encode_utf8(text@)),
{
    base64::Engine::encode(&base64::engine::general_purpose::STANDARD, text)
}

/// The form-urlencoded query of `pairs`, through `serde_urlencoded::to_string`,
/// which serialises each pair with `form_urlencoded` and never fails on
/// pairs of strings (its error is mapped to the empty string).
#[verifier::external_body]
pub(crate) fn urlencode_pairs(pairs: &Vec<(String, String)>) -> (r: String)
    ensures
        r@ == form_query(pair_views(pairs@)),
{
    serde_urlencoded::to_string(pairs).unwrap_or_default()
}

/// A fresh random token: a version 4 UUID (`uuid::Uuid::new_v4`) written as
/// 32 lower-case hexadecimal digits (`simple()`), whose version digit is `4`
/// and whose variant digit is one of `8`, `9`, `a`, `b`. Which token comes
/// out is chance; its form is all that is promised.
#[verifier::external_body]
pub(crate) fn new_state_token() -> (r: String)
    ensures
        r@.len() == 32,
        forall|i: int| 0 <= i < 32 ==> lower_hex_digit(#[trigger] r@[i]),
        r@[12] == '4',
        r@[16] == '8' || r@[16] == '9' || r@[16] == 'a' || r@[16] == 'b',
{
    uuid::Uuid::new_v4().simple().to_string()
}

/// `bytes` decoded as UTF-8 (`std::str::from_utf8`): the text when the bytes
/// are valid UTF-8, else nothing.
#[verifier::external_body]
pub(crate) fn utf8_text(bytes: &[u8]) -> (r: Option<String>)
    ensures
        match r {
            Some(t) => vstd::utf8::valid_utf8(bytes@) && t@ == vstd::utf8::decode_utf8(bytes@),
            None => !vstd::utf8::valid_utf8(bytes@),
        },
{
    match std::str::from_utf8(bytes) {
        Ok(text) => Some(text.to_string()),
        Err(_) => None,
    }
}

/// What `jacquard`'s `Handle::new_owned` makes of `text`: the normalised
/// handle (prefix `@` or `at://` stripped, lower-cased) when it is a valid
/// AT Protocol handle, else the text of the error it reports.
pub uninterp spec fn atproto_handle(text: Seq<char>) -> Result<Seq<char>, Seq<char>>;

/// Checks `text` as an AT Protocol handle with `jacquard`'s
/// `Handle::new_owned`, giving the normalised handle or the error's text.
/// The checks themselves (length, the handle pattern, reserved top-level
/// domains) are not stated: the result is named by `atproto_handle`.
#[verifier::external_body]
pub(crate) fn check_handle(text: &str) -> (r: Result<String, String>)
    ensures
        match r {
            Ok(h) => atproto_handle(text@) == Ok::<Seq<char>, Seq<char>>(h@),
            Err(e) => atproto_handle(text@) == Err::<Seq<char>, Seq<char>>(e@),
        },
{
    match jacquard::types::handle::Handle::<jacquard::DefaultStr>::new_owned(text) {
        Ok(handle) => Ok(handle.as_str().to_string()),
        Err(e) => Err(e.to_string()),
    }
}

/// Whether `jacquard`'s `AtIdentifier::new_owned` accepts `text`: as a DID,
/// or else as a handle.
pub uninterp spec fn atproto_identifier_valid(text: Seq<char>) -> bool;

/// Checks `text` as an AT Protocol identifier with `jacquard`'s
/// `AtIdentifier::new_owned`. The checks themselves (the DID and handle
/// syntax) are not stated: the result is named by `atproto_identifier_valid`.
#[verifier::external_body]
pub(crate) fn is_at_identifier(text: &str) -> (b: bool)
    ensures
        b == atproto_identifier_valid(text@),
{
    jacquard::types::ident::AtIdentifier::<jacquard::DefaultStr>::new_owned(text).is_ok()
}

} // verus!
