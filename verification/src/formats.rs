//! Calls into chrono, base64 and reqwest that the library's logic needs: UTC
//! timestamps and their RFC 3339 text, standard base64, and HTTP status lines.
//!
//! Each function here is trusted: Verus believes its contract and does not read
//! its body. Where what the outside crate computes takes more than a few lines to
//! state, it is given a name (an uninterpreted spec function) that depends on the
//! arguments alone.

use base64::Engine;
use vstd::prelude::*;

verus! {

/// Whether chrono can represent the UTC instant `secs` seconds (and `nanos`
/// nanoseconds) after the Unix epoch, that is whether
/// `chrono::DateTime::<Utc>::from_timestamp(secs, nanos)` returns `Some`: the day
/// must lie between January 1 of year -262143 and December 31 of year 262142
/// (chrono's `NaiveDate::MIN` and `NaiveDate::MAX`), and the nanoseconds must be
/// below one second, or below two seconds in the last second of a minute (a leap
/// second).
pub open spec fn utc_representable(secs: i64, nanos: u32) -> bool {
    &&& -8_334_601_228_800 <= secs <= 8_210_266_876_799
    &&& (nanos < 1_000_000_000 || (nanos < 2_000_000_000 && secs % 60 == 59))
}

/// The text that chrono's `DateTime::<Utc>::to_rfc3339` gives for that instant.
pub uninterp spec fn utc_rfc3339(secs: i64, nanos: u32) -> Seq<char>;

/// What `base64::engine::general_purpose::STANDARD.decode` gives for the UTF-8
/// bytes of `text`: `Some` of the decoded bytes, or `None` when it reports a
/// `DecodeError`.
pub uninterp spec fn b64_standard_decode(text: Seq<char>) -> Option<Seq<u8>>;

/// What `base64::engine::general_purpose::STANDARD.encode` gives for `bytes`.
pub uninterp spec fn b64_standard_encode(bytes: Seq<u8>) -> Seq<char>;

/// The text that `reqwest::StatusCode`'s `Display` gives for the code: the number,
/// a space, and the canonical reason phrase (or `<unknown status code>`).
pub uninterp spec fn status_line(code: u16) -> Seq<char>;

/// Trusted: formats the instant with chrono's `DateTime::<Utc>::to_rfc3339`; the
/// contract claims that the text is `utc_rfc3339(secs, nanos)`. By chrono's
/// `from_timestamp` (with `NaiveDate::from_num_days_from_ce_opt` and
/// `NaiveTime::from_num_seconds_from_midnight_opt`), building the instant succeeds
/// exactly on the inputs that `requires` admits.
#[verifier::external_body]
pub(crate) fn format_rfc3339(secs: i64, nanos: u32) -> (text: String)
    requires
        utc_representable(secs, nanos),
    ensures
        text@ == utc_rfc3339(secs, nanos),
{
    chrono::DateTime::<chrono::Utc>::from_timestamp(secs, nanos).unwrap().to_rfc3339()
}

/// The error type of base64's decoding, carried through opaquely.
#[verifier::external_type_specification]
#[verifier::external_body]
pub struct ExDecodeError(base64::DecodeError);

/// Trusted: decodes `text` with `base64::engine::general_purpose::STANDARD.decode`;
/// the contract claims that the outcome is `b64_standard_decode(text@)`, and the
/// example of base64's documentation (`src/lib.rs`), which fixes the RFC 4648
/// standard alphabet (`+` and `/`): `+uwgVQA=` decodes to FA EC 20 55 00.
#[verifier::external_body]
pub(crate) fn decode_b64_standard(text: &str) -> (res: Result<Vec<u8>, base64::DecodeError>)
    ensures
        match res {
            Ok(bytes) => b64_standard_decode(text@) == Some(bytes@),
            Err(_) => b64_standard_decode(text@) is None,
        },
        res is Ok || text@ != "+uwgVQA="@,
        res matches Ok(bytes) ==> (text@ == "+uwgVQA="@ ==> bytes@.len() == 5 && bytes@[0] == 0xFA && bytes@[1]
            == 0xEC && bytes@[2] == 0x20 && bytes@[3] == 0x55 && bytes@[4] == 0x00),
{
    base64::engine::general_purpose::STANDARD.decode(text)
}

/// Trusted: encodes `bytes` with `base64::engine::general_purpose::STANDARD.encode`;
/// the contract claims that the text is `b64_standard_encode(bytes@)`, and that
/// `STANDARD.decode` of that text gives the bytes back (the round trip that
/// base64's own tests check for the `STANDARD` engine, `tests/tests.rs`); and the
/// example of base64's documentation (`src/lib.rs`): FF EC 20 55 00 encodes to
/// `/+wgVQA=`.
#[verifier::external_body]
pub(crate) fn encode_b64_standard(bytes: &[u8]) -> (text: String)
    ensures
        text@ == b64_standard_encode(bytes@),
        b64_standard_decode(text@) == Some(bytes@),
        (bytes@.len() == 5 && bytes@[0] == 0xFF && bytes@[1] == 0xEC && bytes@[2] == 0x20 && bytes@[3] == 0x55
            && bytes@[4] == 0x00) ==> text@ == "/+wgVQA="@,
{
    base64::engine::general_purpose::STANDARD.encode(bytes)
}

/// Trusted: formats the status code with `reqwest::StatusCode`'s `Display`; the
/// contract claims that the text is `status_line(code)`. `StatusCode::from_u16`
/// accepts exactly the codes from 100 to 999, which `requires` asks for.
#[verifier::external_body]
pub(crate) fn format_status_line(code: u16) -> (text: String)
    requires
        100 <= code <= 999,
    ensures
        text@ == status_line(code),
{
    reqwest::StatusCode::from_u16(code).unwrap().to_string()
}

} // verus!
