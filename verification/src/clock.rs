//! The clock, and the HTTP date of an instant.

use time::OffsetDateTime;
use vstd::prelude::*;

verus! {

/// `time::OffsetDateTime`, an instant. It is carried from the clock to the
/// formatter, never read.
#[verifier::external_type_specification]
#[verifier::external_body]
pub struct ExOffsetDateTime(time::OffsetDateTime);

/// The HTTP date of an instant, as `azure_core::date::to_rfc7231` writes it:
/// day of the week, day, month, year and time of day, ending in `GMT`.
pub uninterp spec fn http_date(when: OffsetDateTime) -> Seq<char>;

/// `OffsetDateTime::now_utc`. The instant depends on the clock, so nothing is
/// claimed of it. (The call panics on a machine whose clock is set outside
/// the dates that `time` can hold.)
#[verifier::external_body]
pub(crate) fn now_utc() -> OffsetDateTime {
    OffsetDateTime::now_utc()
}

/// `azure_core::date::to_rfc7231`. The text is a function of the instant
/// alone, the one `http_date` names.
#[verifier::external_body]
pub(crate) fn to_rfc7231(when: &OffsetDateTime) -> (text: String)
    ensures
        text@ == http_date(*when),
{
    azure_core::date::to_rfc7231(when)
}

} // verus!
