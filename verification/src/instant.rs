//! Reading an instant from text. The reading itself is chrono's.

use vstd::prelude::*;

verus! {

/// The instant that a text denotes, in microseconds since the Unix epoch, or
/// `None` where the text is no date and time.
///
/// This is what chrono reads from the text as a `DateTime<Utc>`: RFC 3339 in
/// chrono's relaxed form, where a space may stand for the `T` and any offset
/// is converted to UTC. Nothing more is claimed of it than that the same text
/// always denotes the same instant.
pub uninterp spec fn parsed_instant(text: Seq<char>) -> Option<i64>;

/// Calls chrono's `FromStr` for `DateTime<Utc>` on `text` and, where that
/// succeeds, `DateTime::timestamp_micros` on what it read.
///
/// Trusted: that the outcome depends on the text alone, which is what gives
/// [`parsed_instant`] its meaning. chrono returns an error for every text it
/// does not accept, and the microseconds of every `DateTime` fit an `i64`.
#[verifier::external_body]
pub(crate) fn parse_instant(text: &str) -> (instant: Option<i64>)
    ensures
        instant == parsed_instant(text@),
{
    match text.parse::<chrono::DateTime<chrono::Utc>>() {
        Ok(at) => Some(at.timestamp_micros()),
        Err(_) => None,
    }
}

} // verus!
