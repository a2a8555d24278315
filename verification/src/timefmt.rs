//! Rendering of creation timestamps, backed by chrono.

use vstd::prelude::*;

verus! {

/// The RFC 3339 rendering, in UTC, of a count of non-leap milliseconds since
/// the Unix epoch.
pub uninterp spec fn rfc3339_of(ms: i64) -> Seq<char>;

/// The first millisecond count of the year 10000; every count from the epoch
/// up to here is relied on to render successfully.
pub const RFC3339_RENDER_LIMIT: i64 = 253_402_300_800_000;

/// Relies on chrono's `DateTime::<Utc>::from_timestamp_millis`, whose result
/// depends on the millisecond count alone and which accepts every count
/// between the epoch and the year 10000, and on `DateTime::to_rfc3339`,
/// whose rendering depends on the instant alone.
#[verifier::external_body]
fn rfc3339_utc_millis(ms: i64) -> (r: Option<String>)
    ensures
        r matches Some(s) ==> s@ == rfc3339_of(ms),
        0 <= ms < RFC3339_RENDER_LIMIT ==> r is Some,
{
    match chrono::DateTime::<chrono::Utc>::from_timestamp_millis(ms) {
        Some(d) => Some(d.to_rfc3339()),
        None => None,
    }
}

/// How a creation timestamp is rendered on the info screen: RFC 3339 for
/// counts from the epoch up to the year 10000, a fixed marker otherwise.
pub open spec fn creation_date_text(ms: i64) -> Seq<char> {
    if 0 <= ms < RFC3339_RENDER_LIMIT {
        rfc3339_of(ms)
    } else {
        "(time out of range)"@
    }
}

/// Renders a creation timestamp for the info screen.
pub fn creation_date_label(ms: i64) -> (r: String)
    ensures
        r@ == creation_date_text(ms),
{
    if 0 <= ms && ms < RFC3339_RENDER_LIMIT {
        match rfc3339_utc_millis(ms) {
            Some(s) => s,
            None => {
                // contradicts the renderer's promise for this range
                proof {
                    assert(false);
                }
                String::new()
            },
        }
    } else {
        String::from_str("(time out of range)")
    }
}

} // verus!
