//! Trusted boundary: the few calls into std, chrono, uuid and serde_json that
//! the verified code relies on, each with the contract its source shows.

use vstd::prelude::*;
use vstd::utf8::{valid_utf8, decode_utf8};
use crate::text::is_suffix;
use crate::json::hex_lower;
use crate::audit::SystemAuditReport;
use crate::json::no_newline;

verus! {

/// `Iterator::collect` of characters into a `String`: the string made of the
/// characters `cs`, in order.
#[verifier::external_body]
pub(crate) fn string_of(cs: &Vec<char>) -> (r: String)
    ensures
        r@ == cs@,
{
    cs.iter().collect()
}

/// What `String::from_utf8_lossy` makes of a byte string: a function of the
/// bytes alone.
pub uninterp spec fn utf8_lossy_text(bytes: Seq<u8>) -> Seq<char>;

/// `String::from_utf8_lossy`. Its documentation promises that valid UTF-8 is
/// decoded unchanged; what it makes of invalid sequences (U+FFFD in their place)
/// is left to the name `utf8_lossy_text`.
#[verifier::external_body]
pub(crate) fn decode_lossy(bytes: &Vec<u8>) -> (r: String)
    ensures
        r@ == utf8_lossy_text(bytes@),
        valid_utf8(bytes@) ==> r@ == decode_utf8(bytes@),
{
    String::from_utf8_lossy(bytes.as_slice()).into_owned()
}

/// A reading of the system clock: its distance from the Unix epoch in whole
/// seconds and nanoseconds, and whether it lies before the epoch.
#[derive(Debug, Clone, Copy)]
pub struct ClockReading {
    pub before_epoch: bool,
    pub secs: u64,
    pub nanos: u32,
}

/// `std::time::SystemTime::now()`, measured from `UNIX_EPOCH` with
/// `duration_since`; a clock before the epoch gives the distance in the
/// error. The reading is the machine's clock, so only what holds of every
/// reading is stated: `Duration::subsec_nanos` is below one billion.
#[verifier::external_body]
pub(crate) fn read_clock() -> (r: ClockReading)
    ensures
        r.nanos < 1_000_000_000,
{
    match std::time::SystemTime::now().duration_since(std::time::UNIX_EPOCH) {
        Ok(d) => ClockReading { before_epoch: false, secs: d.as_secs(), nanos: d.subsec_nanos() },
        Err(e) => ClockReading {
            before_epoch: true,
            secs: e.duration().as_secs(),
            nanos: e.duration().subsec_nanos(),
        },
    }
}

/// The RFC 3339 text that chrono writes for the UTC instant `secs` seconds
/// and `nanos` nanoseconds after the Unix epoch: a function of the two
/// numbers alone.
pub uninterp spec fn rfc3339_text(secs: i64, nanos: u32) -> Seq<char>;

/// The instants of years 0 to 9999: from 0000-01-01T00:00:00 to
/// 9999-12-31T23:59:59 UTC.
pub open spec fn in_four_digit_years(secs: int) -> bool {
    -62167219200 <= secs && secs <= 253402300799
}

/// The instants of the dates chrono represents, years -262143 to 262142:
/// from -262143-01-01T00:00:00 to +262142-12-31T23:59:59 UTC.
pub open spec fn in_chrono_range(secs: int) -> bool {
    -8334601228800 <= secs && secs <= 8210266876799
}

/// The instants that `DateTime::from_timestamp` accepts: a date in chrono's
/// range, and a fraction below one second, or below two seconds on the last
/// second of a minute (a leap second).
pub open spec fn chrono_accepts(secs: int, nanos: int) -> bool {
    in_chrono_range(secs) && (nanos < 1_000_000_000 || (nanos < 2_000_000_000 && secs % 60 == 59))
}

/// An ASCII decimal digit.
pub open spec fn is_ascii_digit(c: char) -> bool {
    48 <= (c as u32) && (c as u32) <= 57
}

/// `YYYY-MM-DDTHH:MM:SS` at the start of `t`.
pub open spec fn rfc3339_shape(t: Seq<char>) -> bool {
    &&& t.len() >= 25
    &&& t[4] == '-' && t[7] == '-' && t[10] == 'T' && t[13] == ':' && t[16] == ':'
    &&& forall|i: int|
        0 <= i < 19 && i != 4 && i != 7 && i != 10 && i != 13 && i != 16 ==> is_ascii_digit(
            #[trigger] t[i],
        )
}

/// `chrono::DateTime::from_timestamp(secs, nanos)`, written with
/// `to_rfc3339`. `from_timestamp` gives a date exactly for the instants of
/// `chrono_accepts`: the day must fall between `NaiveDate::MIN` and
/// `NaiveDate::MAX`, and `NaiveTime::from_num_seconds_from_midnight_opt`
/// takes a fraction of two seconds only on second 59. `to_rfc3339` writes the UTC offset as `+00:00` (it is called
/// without the `Z` form), and a year in 0..=9999 as four digits, followed by
/// `-MM-DDTHH:MM:SS` and an optional fraction. The digits themselves are
/// left to the name `rfc3339_text`.
#[verifier::external_body]
pub(crate) fn format_rfc3339(secs: i64, nanos: u32) -> (r: Option<String>)
    ensures
        r matches Some(t) ==> t@ == rfc3339_text(secs, nanos),
        r matches Some(t) ==> is_suffix("+00:00"@, t@),
        r matches Some(t) ==> (in_four_digit_years(secs as int) ==> rfc3339_shape(t@)),
        r is Some <==> chrono_accepts(secs as int, nanos as int),
{
    match chrono::DateTime::from_timestamp(secs, nanos) {
        Some(d) => Some(d.to_rfc3339()),
        None => None,
    }
}

} // verus!

verus! {

/// `serde_json::to_string` of a `&str`: serde_json writes the string between
/// double quotes, escaping `"` and `\`, the control characters with short
/// forms (`\b \t \n \f \r`) by them and the other control characters below
/// U+0020 as `\u00XX` with lower-case hex digits; every other character is
/// written as it is. Serializing a `str` into a `Vec` cannot fail, so the
/// error arm is never taken.
#[verifier::external_body]
pub(crate) fn json_string(s: &str) -> (r: String)
    ensures
        r@ == crate::json::json_quoted(s@),
{
    match serde_json::to_string(s) {
        Ok(t) => t,
        Err(_) => String::new(),
    }
}

} // verus!

verus! {

/// Two lower-case hex digits per byte, in order.
pub open spec fn hex_bytes(b: Seq<u8>) -> Seq<char>
    decreases b.len(),
{
    if b.len() == 0 {
        Seq::empty()
    } else {
        hex_bytes(b.drop_last()) + seq![
            hex_lower((b.last() as int) / 16),
            hex_lower((b.last() as int) % 16),
        ]
    }
}

/// Sixteen random bytes with the version set to 4 and the variant to RFC 4122.
pub open spec fn uuid_v4_bytes(b: Seq<u8>) -> Seq<u8> {
    b.update(6, (b[6] & 0x0f) | 0x40).update(8, (b[8] & 0x3f) | 0x80)
}

/// The hyphenated lower-case text of a UUID's sixteen bytes.
pub open spec fn uuid_text(b: Seq<u8>) -> Seq<char> {
    hex_bytes(b.subrange(0, 4)) + seq!['-'] + hex_bytes(b.subrange(4, 6)) + seq!['-']
        + hex_bytes(b.subrange(6, 8)) + seq!['-'] + hex_bytes(b.subrange(8, 10)) + seq!['-']
        + hex_bytes(b.subrange(10, 16))
}

/// `uuid::Builder::from_random_bytes(bytes).into_uuid().to_string()`: the
/// builder keeps the bytes, sets the version nibble of byte 6 to 4 and the
/// two top bits of byte 8 to `10`; `Display` writes the hyphenated form with
/// lower-case hex digits.
#[verifier::external_body]
pub(crate) fn uuid_text_from_random(bytes: [u8; 16]) -> (r: String)
    ensures
        r@ == uuid_text(uuid_v4_bytes(bytes@)),
{
    uuid::Builder::from_random_bytes(bytes).into_uuid().to_string()
}

} // verus!

verus! {

/// What the derived `Debug` writes for a report: a function of the report
/// alone.
pub uninterp spec fn report_debug_text(r: SystemAuditReport) -> Seq<char>;

/// `format!("{:?}", report)` through the derived `Debug` impls of the
/// report types. The text itself (field names, quoted and escaped strings)
/// is left to the name `report_debug_text`.
#[verifier::external_body]
pub(crate) fn debug_report(report: &SystemAuditReport) -> (r: String)
    ensures
        r@ == report_debug_text(*report),
{
    format!("{:?}", report)
}

} // verus!

verus! {

/// A string field that may be missing reads as the empty string.
pub open spec fn opt_text(s: Option<Seq<char>>) -> Seq<char> {
    match s {
        Some(t) => t,
        None => Seq::empty(),
    }
}

/// Whether `serde_json::from_str::<Value>` accepts the text: a function of
/// the text alone.
pub uninterp spec fn parses_as_json(text: Seq<char>) -> bool;

/// The value that `Value::pointer(pointer)` finds in the parsed text,
/// written back by `Value::to_string`: a function of the two texts alone.
pub uninterp spec fn json_value_text(text: Seq<char>, pointer: Seq<char>) -> Option<Seq<char>>;

/// The string that `Value::pointer(pointer)` finds in the parsed text, read
/// by `Value::as_str`: a function of the two texts alone.
pub uninterp spec fn json_str_value(text: Seq<char>, pointer: Seq<char>) -> Option<Seq<char>>;

/// `serde_json::from_str::<Value>(text)`, then `Value::pointer(pointer)`
/// written back with `Value::to_string`: `None` when the text is not JSON,
/// otherwise what the pointer finds. `to_string` uses the compact
/// formatter, which writes no whitespace between tokens and escapes every
/// control character inside strings, so the value text holds no line feed.
#[verifier::external_body]
pub(crate) fn json_value_at(text: &str, pointer: &str) -> (r: Option<Option<String>>)
    ensures
        r is None <==> !parses_as_json(text@),
        r matches Some(o) ==> opt_view(o) == json_value_text(text@, pointer@),
        r matches Some(Some(t)) ==> no_newline(t@),
{
    let v: serde_json::Value = match serde_json::from_str(text) {
        Ok(v) => v,
        Err(_) => return None,
    };
    match v.pointer(pointer) {
        Some(found) => Some(Some(found.to_string())),
        None => Some(None),
    }
}

/// `serde_json::from_str::<Value>(text)`, then `Value::pointer(pointer)`
/// read with `Value::as_str`: `None` when the text is not JSON, otherwise the
/// string the pointer finds, if it finds a string.
#[verifier::external_body]
pub(crate) fn json_str_at(text: &str, pointer: &str) -> (r: Option<Option<String>>)
    ensures
        r is None <==> !parses_as_json(text@),
        r matches Some(o) ==> opt_view(o) == json_str_value(text@, pointer@),
{
    let v: serde_json::Value = match serde_json::from_str(text) {
        Ok(v) => v,
        Err(_) => return None,
    };
    match v.pointer(pointer) {
        Some(found) => Some(found.as_str().map(String::from)),
        None => Some(None),
    }
}

/// An optional string by its text.
pub open spec fn opt_view(o: Option<String>) -> Option<Seq<char>> {
    match o {
        Some(s) => Some(s@),
        None => None,
    }
}

} // verus!
