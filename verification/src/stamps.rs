//! Identifiers and time stamps: the only values the service takes from
//! chance and from the clock.

use vstd::prelude::*;

verus! {

/// A lower-case hexadecimal digit.
pub open spec fn is_lower_hex(c: char) -> bool {
    ||| ('0' as int) <= (c as int) <= ('9' as int)
    ||| ('a' as int) <= (c as int) <= ('f' as int)
}

/// A decimal digit.
pub open spec fn is_digit(c: char) -> bool {
    ('0' as int) <= (c as int) <= ('9' as int)
}

/// The hyphenated lower-case text of a random (version 4, RFC 4122 variant)
/// UUID, such as `67e55044-10b1-426f-9247-bb680e5fe0c8`.
pub open spec fn is_uuid_v4_text(s: Seq<char>) -> bool {
    &&& s.len() == 36
    &&& forall|i: int|
        0 <= i < 36 ==> if i == 8 || i == 13 || i == 18 || i == 23 {
            s[i] == '-'
        } else {
            is_lower_hex(#[trigger] s[i])
        }
    &&& s[14] == '4'
    &&& (s[19] == '8' || s[19] == '9' || s[19] == 'a' || s[19] == 'b')
}

/// An RFC 3339 time stamp in UTC written with the offset `+00:00`, such as
/// `2024-05-01T12:30:00.250+00:00`.
pub open spec fn is_utc_rfc3339(s: Seq<char>) -> bool {
    &&& s.len() >= 25
    &&& s.subrange(s.len() - 6, s.len() as int) == seq!['+', '0', '0', ':', '0', '0']
}

/// A calendar date written `year-MM-DD`, such as `2024-05-01`; the year has at
/// least four characters.
pub open spec fn is_date_text(s: Seq<char>) -> bool {
    &&& s.len() >= 10
    &&& s[s.len() - 6] == '-'
    &&& s[s.len() - 3] == '-'
    &&& is_digit(s[s.len() - 5])
    &&& is_digit(s[s.len() - 4])
    &&& is_digit(s[s.len() - 2])
    &&& is_digit(s[s.len() - 1])
}

/// A fresh identifier: `uuid::Uuid::new_v4()` written by its `Display` impl.
/// The bits are random; the text is always 36 lower-case hexadecimal digits
/// and hyphens with the version digit `4` and a variant digit in `8..b`. That
/// two calls give different identifiers is not stated.
#[verifier::external_body]
pub fn new_id() -> (s: String)
    ensures
        is_uuid_v4_text(s@),
{
    uuid::Uuid::new_v4().to_string()
}

/// The current time: `chrono::Utc::now().to_rfc3339()`. Which instant is read
/// is not stated; the text always ends with the offset `+00:00`.
#[verifier::external_body]
pub fn now_rfc3339() -> (s: String)
    ensures
        is_utc_rfc3339(s@),
{
    chrono::Utc::now().to_rfc3339()
}

/// Today's date in UTC: `chrono::Utc::now()` formatted with `%Y-%m-%d`.
/// Which day is read is not stated; the text always ends with `-MM-DD`.
#[verifier::external_body]
pub fn today_date() -> (s: String)
    ensures
        is_date_text(s@),
{
    chrono::Utc::now().format("%Y-%m-%d").to_string()
}

} // verus!
