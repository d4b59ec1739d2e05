//! Where an accepted verification gets its identifier and its time stamp.

use crate::record::Timestamp;
use vstd::prelude::*;

verus! {

/// Whether `id`, read as the sixteen bytes of a UUID with the first byte in
/// the highest place, is a random (version 4) UUID of the standard variant.
pub open spec fn is_random_uuid(id: u128) -> bool {
    id & 0x0000_0000_0000_f000_c000_0000_0000_0000u128
        == 0x0000_0000_0000_4000_8000_0000_0000_0000u128
}

/// A new identifier from `uuid::Uuid::new_v4`, read off with
/// `uuid::Uuid::as_u128`. The identifier is drawn from the operating
/// system's random numbers, so all that is claimed of it is what that
/// function fixes in every UUID it makes: the version and the variant.
/// Nothing here says that two identifiers differ. The call panics where the
/// operating system has no random bytes to give, and there is no going on
/// from that.
#[verifier::external_body]
pub(crate) fn fresh_id() -> (id: u128)
    ensures
        is_random_uuid(id),
{
    uuid::Uuid::new_v4().as_u128()
}

/// The time of the call from `chrono::Utc::now`, read off with
/// `DateTime::timestamp` and `DateTime::timestamp_subsec_nanos`. Nothing is
/// claimed of the result: it is whatever the system clock says. The call
/// panics where the clock stands before the Unix epoch.
#[verifier::external_body]
pub(crate) fn current_time() -> (now: Timestamp) {
    let now = chrono::Utc::now();
    Timestamp { seconds: now.timestamp(), nanoseconds: now.timestamp_subsec_nanos() }
}

} // verus!
