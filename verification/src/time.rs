//! Times: the moments FUSE hands over, as the 32-bit seconds that ext4 stores.

use vstd::prelude::*;

verus! {

/// A moment given to `setattr`: either a given moment or "now".
///
/// A given moment is carried as its whole seconds after the Unix epoch,
/// or `None` when it lies before the epoch.
#[derive(Clone, Copy, Debug, PartialEq, Eq, Structural)]
pub enum TimeOrNow {
    SpecificTime(Option<u64>),
    Now,
}

/// The 32-bit timestamp of a moment: its seconds after the epoch, cut to
/// their low 32 bits; a moment before the epoch counts as the epoch.
pub open spec fn spec_system_time_to_secs(since_epoch: Option<u64>) -> u32 {
    match since_epoch {
        Some(secs) => (secs % 0x1_0000_0000) as u32,
        None => 0,
    }
}

/// Converts a moment, given as its seconds after the epoch (`None` before
/// the epoch), to the 32-bit timestamp ext4 stores.
pub fn system_time_to_secs(since_epoch: Option<u64>) -> (r: u32)
    ensures
        r == spec_system_time_to_secs(since_epoch),
        since_epoch is None ==> r == 0,
        since_epoch matches Some(secs) ==> (secs <= u32::MAX ==> r == secs),
{
    match since_epoch {
        Some(secs) => {
            assert((secs as u32) == secs % 0x1_0000_0000) by (bit_vector);
            secs as u32
        },
        None => 0,
    }
}

/// The timestamp that a `TimeOrNow` stands for when the clock reads `now`.
pub open spec fn spec_time_or_now_to_secs(t: TimeOrNow, now: u32) -> u32 {
    match t {
        TimeOrNow::SpecificTime(since_epoch) => spec_system_time_to_secs(since_epoch),
        TimeOrNow::Now => now,
    }
}

/// Resolves a `TimeOrNow` against the timestamp `now` of the present moment.
pub fn time_or_now_to_secs(t: TimeOrNow, now: u32) -> (r: u32)
    ensures
        r == spec_time_or_now_to_secs(t, now),
{
    match t {
        TimeOrNow::SpecificTime(since_epoch) => system_time_to_secs(since_epoch),
        TimeOrNow::Now => now,
    }
}

/// A timestamp read back as a moment and converted again is the same
/// timestamp: the reply's times survive the trip through `SystemTime`.
pub proof fn law_timestamp_round_trip(t: u32)
    ensures
        spec_system_time_to_secs(Some(t as u64)) == t,
{
}

} // verus!
