//! The text encodings that the cursor relies on, from `base64`, `uuid`, `chrono`
//! and std. Each function here makes one outside call; its contract is what the
//! library assumes of that call.
use base64::engine::general_purpose::URL_SAFE_NO_PAD;
use base64::Engine;
use chrono::TimeZone;
use chrono::Utc;
use uuid::Uuid;
use vstd::arithmetic::power2::pow2;
use vstd::prelude::*;
use vstd::utf8::valid_utf8;

verus! {

/// The text that `base64`'s `URL_SAFE_NO_PAD` engine encodes `bytes` to.
pub uninterp spec fn base64_url_encoding(bytes: Seq<u8>) -> Seq<char>;

/// What `base64`'s `URL_SAFE_NO_PAD` engine decodes `text` to, `None` where it
/// refuses the text.
pub uninterp spec fn base64_url_decoding(text: Seq<char>) -> Option<Seq<u8>>;

/// What `uuid`'s parser (`Uuid::try_parse_ascii`, which `Uuid::parse_str` shares)
/// gives for the ASCII text `text`, as the value `Uuid::as_u128` reads.
pub uninterp spec fn uuid_parsed(text: Seq<u8>) -> Option<u128>;

/// Microseconds from the Unix epoch to the earliest `DateTime<Utc>` that `chrono`
/// represents, January 1 of year -262143 (262144 BCE), 00:00:00.
pub open spec fn earliest_utc_micros() -> int {
    -8_334_601_228_800_000_000
}

/// Microseconds from the Unix epoch to the last microsecond of the latest
/// `DateTime<Utc>` that `chrono` represents, December 31 of year 262142, 23:59:59.999999.
pub open spec fn latest_utc_micros() -> int {
    8_210_266_876_799_999_999
}

/// Whether `chrono` can represent the instant `micros` microseconds after the Unix
/// epoch as a `DateTime<Utc>`: its dates run from year -262143 to year 262142.
pub open spec fn utc_micros_representable(micros: i64) -> bool {
    earliest_utc_micros() <= micros <= latest_utc_micros()
}

/// The lowercase hexadecimal digit for `d < 16`.
pub open spec fn hex_lower(d: nat) -> u8 {
    if d < 10 {
        (0x30 + d) as u8
    } else {
        (0x61 + d - 10) as u8
    }
}

/// The `k`-th hexadecimal digit of `id`, most significant first (`0 <= k < 32`).
pub open spec fn uuid_nibble(id: u128, k: int) -> nat {
    ((id as nat) / pow2((4 * (31 - k)) as nat)) % 16
}

/// Positions of the hyphens in the hyphenated form `8-4-4-4-12`.
pub open spec fn uuid_hyphen_at(i: int) -> bool {
    i == 8 || i == 13 || i == 18 || i == 23
}

/// Which hexadecimal digit stands at position `i` of the hyphenated form.
pub open spec fn uuid_digit_index(i: int) -> int {
    if i < 8 {
        i
    } else if i < 13 {
        i - 1
    } else if i < 18 {
        i - 2
    } else if i < 23 {
        i - 3
    } else {
        i - 4
    }
}

/// The hyphenated lowercase text of a UUID, as its `Display` writes it:
/// 32 hexadecimal digits in groups of 8, 4, 4, 4 and 12, joined by hyphens.
pub open spec fn uuid_text(id: u128) -> Seq<u8> {
    Seq::new(
        36,
        |i: int|
            if uuid_hyphen_at(i) {
                0x2du8
            } else {
                hex_lower(uuid_nibble(id, uuid_digit_index(i)))
            },
    )
}

/// Calls `URL_SAFE_NO_PAD.encode`. Assumed: the result is the named encoding of
/// the bytes.
#[verifier::external_body]
pub(crate) fn base64_url_encode(bytes: &[u8]) -> (text: String)
    ensures
        text@ == base64_url_encoding(bytes@),
{
    URL_SAFE_NO_PAD.encode(bytes)
}

/// Calls `URL_SAFE_NO_PAD.decode`. Assumed: the result is the named decoding of the
/// text, and decoding gives back the bytes whose encoding the text is.
#[verifier::external_body]
pub(crate) fn base64_url_decode(text: &str) -> (bytes: Option<Vec<u8>>)
    ensures
        bytes is None <==> base64_url_decoding(text@) is None,
        bytes matches Some(b) ==> base64_url_decoding(text@) == Some(b@),
        forall|encoded: Seq<u8>|
            #[trigger] base64_url_encoding(encoded) == text@ ==> bytes is Some
                && bytes.unwrap()@ == encoded,
{
    match URL_SAFE_NO_PAD.decode(text) {
        Ok(b) => Some(b),
        Err(_) => None,
    }
}

/// Calls `Uuid::from_u128(id).to_string()`. Assumed: the text is the hyphenated
/// lowercase form of the UUID.
#[verifier::external_body]
pub(crate) fn uuid_to_text(id: u128) -> (text: Vec<u8>)
    ensures
        text@ == uuid_text(id),
{
    Uuid::from_u128(id).to_string().into_bytes()
}

/// Calls `Uuid::try_parse_ascii`. Assumed: the result is the named parse of the
/// text, and the hyphenated lowercase text of a UUID parses back to that UUID.
#[verifier::external_body]
pub(crate) fn uuid_parse(text: &[u8]) -> (id: Option<u128>)
    ensures
        id == uuid_parsed(text@),
        forall|u: u128| #[trigger] uuid_text(u) == text@ ==> id == Some(u),
{
    match Uuid::try_parse_ascii(text) {
        Ok(u) => Some(u.as_u128()),
        Err(_) => None,
    }
}

/// Calls `Utc.timestamp_micros(micros).single()`. Assumed: it is `Some` exactly
/// when the instant lies within `chrono`'s range of dates, years -262143 to 262142.
#[verifier::external_body]
pub(crate) fn utc_micros_valid(micros: i64) -> (valid: bool)
    ensures
        valid == utc_micros_representable(micros),
{
    Utc.timestamp_micros(micros).single().is_some()
}

/// Calls `std::str::from_utf8`. Assumed: it succeeds exactly on valid UTF-8.
#[verifier::external_body]
pub(crate) fn is_utf8(bytes: &[u8]) -> (valid: bool)
    ensures
        valid == valid_utf8(bytes@),
{
    std::str::from_utf8(bytes).is_ok()
}

} // verus!
