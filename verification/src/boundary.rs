//! The calls that leave the verified code: std's `String::push`, humantime's
//! RFC 3339 formatting, the `(?s)(.*)(\.opus)` regular expression of the regex
//! crate, and uuid's random identifiers.  Each contract below is believed,
//! not proved; it repeats what the called code's source and documentation
//! show.
use vstd::prelude::*;

verus! {

/// Calls `String::push`: the character is appended to the string.
#[verifier::external_body]
pub(crate) fn push_char(s: &mut String, c: char)
    ensures
        final(s)@ == old(s)@.push(c),
{
    s.push(c);
}

// ---------------------------------------------------------------------------
// humantime

/// The first instant that humantime refuses to format (year 10000).
pub const RFC3339_LIMIT_SECS: u64 = 253_402_300_800;

/// What humantime writes for the instant `secs` seconds after the Unix epoch,
/// in RFC 3339 with whole seconds (`2018-02-14T00:28:07Z`).  The calendar
/// date is humantime's computation and is not written out here.
pub uninterp spec fn rfc3339_seconds_text(secs: u64) -> Seq<char>;

pub open spec fn is_ascii_digit(c: char) -> bool {
    '0' <= c && c <= '9'
}

/// The character of a decimal digit `d` (0 to 9).
pub open spec fn digit_char(d: int) -> char {
    ((d + 48) as u8) as char
}

/// Positions of the separators in `YYYY-MM-DDTHH:MM:SSZ`.
pub open spec fn rfc3339_separator_at(i: int) -> bool {
    i == 4 || i == 7 || i == 10 || i == 13 || i == 16 || i == 19
}

/// The layout that humantime's formatter fills in for whole seconds: twenty
/// characters, the separators `-`, `-`, `T`, `:`, `:`, `Z` at their fixed
/// places, decimal digits everywhere else, and the time of day taken from
/// `secs` modulo one day.
pub open spec fn rfc3339_seconds_layout(t: Seq<char>, secs: u64) -> bool {
    let day: int = (secs % 86400) as int;
    &&& t.len() == 20
    &&& t[4] == '-' && t[7] == '-' && t[10] == 'T'
    &&& t[13] == ':' && t[16] == ':' && t[19] == 'Z'
    &&& forall|i: int| 0 <= i < 20 && !rfc3339_separator_at(i) ==> is_ascii_digit(#[trigger] t[i])
    &&& t[11] == digit_char(day / 3600 / 10) && t[12] == digit_char(day / 3600 % 10)
    &&& t[14] == digit_char(day / 60 / 10 % 6) && t[15] == digit_char(day / 60 % 10)
    &&& t[17] == digit_char(day / 10 % 6) && t[18] == digit_char(day % 10)
}

/// Calls `humantime::format_rfc3339_seconds` on the instant `secs` seconds
/// after the Unix epoch and renders it with `to_string`.  Claimed: the text
/// is humantime's (named by `rfc3339_seconds_text`), has the layout that
/// humantime's formatter writes, and differs from the text of every other
/// instant it formats (whole seconds map one to one onto calendar date and
/// time of day).  humantime refuses instants from the year 10000 on (the
/// rendering panics), so those are left out.
#[verifier::external_body]
pub(crate) fn rfc3339_seconds(secs: u64) -> (r: String)
    requires
        secs < RFC3339_LIMIT_SECS,
    ensures
        r@ == rfc3339_seconds_text(secs),
        rfc3339_seconds_layout(r@, secs),
        forall|other: u64|
            other < RFC3339_LIMIT_SECS && other != secs ==> #[trigger] rfc3339_seconds_text(other)
                != r@,
{
    let instant = std::time::UNIX_EPOCH + std::time::Duration::from_secs(secs);
    humantime::format_rfc3339_seconds(instant).to_string()
}

// ---------------------------------------------------------------------------
// regex: `(?s)(.*)(\.opus)`

/// `.opus` stands in `s` at position `q`.
pub open spec fn opus_at(s: Seq<char>, q: int) -> bool {
    0 <= q && q + 5 <= s.len() && s.subrange(q, q + 5) == seq!['.', 'o', 'p', 'u', 's']
}

/// `q` is the last position at which `.opus` stands in `s`.
pub open spec fn last_opus_at(s: Seq<char>, q: int) -> bool {
    opus_at(s, q) && forall|q2: int| opus_at(s, q2) ==> q2 <= q
}

/// The text of the match that the regex crate reports for `(?s)(.*)(\.opus)`
/// on `s`.  With the `s` flag `.` takes every character, line breaks too, so
/// the leftmost match starts at the beginning of `s`, and the greedy `.*`
/// makes it end after the last `.opus`.  Without a `.opus` there is no
/// match.
pub open spec fn opus_capture(s: Seq<char>) -> Option<Seq<char>> {
    if exists|q: int| opus_at(s, q) {
        let q = choose|q: int| last_opus_at(s, q);
        Some(s.subrange(0, q + 5))
    } else {
        None
    }
}

/// Compiles `(?s)(.*)(\.opus)` with `regex::Regex::new` and calls `captures`
/// on `name`, returning the text of the whole match (group 0).  Claimed: the
/// result is the leftmost-first match described by `opus_capture`.
#[verifier::external_body]
pub(crate) fn opus_match(name: &str) -> (r: Option<String>)
    ensures
        match r {
            Some(m) => opus_capture(name@) == Some(m@),
            None => opus_capture(name@) is None,
        },
{
    let re = regex::Regex::new(r"(?s)(.*)(\.opus)").unwrap();
    re.captures(name).and_then(|caps| caps.get(0)).map(|m| m.as_str().to_string())
}

// ---------------------------------------------------------------------------
// uuid

pub open spec fn is_lower_hex(c: char) -> bool {
    ('0' <= c && c <= '9') || ('a' <= c && c <= 'f')
}

/// Positions of the hyphens in the hyphenated form of a UUID.
pub open spec fn uuid_hyphen_at(i: int) -> bool {
    i == 8 || i == 13 || i == 18 || i == 23
}

/// The hyphenated lower-case text of a version 4 UUID:
/// `xxxxxxxx-xxxx-4xxx-yxxx-xxxxxxxxxxxx` with `y` one of `8`, `9`, `a`, `b`.
pub open spec fn is_v4_uuid_text(t: Seq<char>) -> bool {
    &&& t.len() == 36
    &&& forall|i: int| 0 <= i < 36 && uuid_hyphen_at(i) ==> #[trigger] t[i] == '-'
    &&& forall|i: int| 0 <= i < 36 && !uuid_hyphen_at(i) ==> is_lower_hex(#[trigger] t[i])
    &&& t[14] == '4'
    &&& (t[19] == '8' || t[19] == '9' || t[19] == 'a' || t[19] == 'b')
}

/// Calls `uuid::Uuid::new_v4` and renders it with `to_string` (uuid's
/// `Display` writes the hyphenated lower-case form).  The value is random:
/// only its form is claimed.
#[verifier::external_body]
pub(crate) fn random_uuid_text() -> (r: String)
    ensures
        is_v4_uuid_text(r@),
{
    uuid::Uuid::new_v4().to_string()
}

} // verus!
