//! Timestamps. A timestamp is a whole number of nanoseconds since the Unix
//! epoch, negative before it. Clocks report such a distance in seconds and
//! nanoseconds of the last second; this module converts between the two.

use vstd::prelude::*;

verus! {

/// The number of nanoseconds in a second.
pub const NANOS_PER_SECOND: u32 = 1_000_000_000;

/// A distance from the Unix epoch as clocks report it: a direction, whole
/// seconds, and the nanoseconds of the second that has begun.
#[derive(Debug, Clone, Copy, PartialEq, Eq, Structural)]
pub struct EpochDistance {
    pub before_epoch: bool,
    pub seconds: u64,
    pub subsec_nanos: u32,
}

impl EpochDistance {
    /// The timestamp at this distance from the epoch.
    pub open spec fn timestamp(self) -> int {
        let nanos = self.seconds * NANOS_PER_SECOND + self.subsec_nanos;
        if self.before_epoch {
            -nanos
        } else {
            nanos
        }
    }

    /// The distance is written the one way a clock writes it: less than a
    /// second's worth of nanoseconds, and the epoch itself is not before
    /// the epoch.
    pub open spec fn is_canonical(self) -> bool {
        &&& self.subsec_nanos < NANOS_PER_SECOND
        &&& self.before_epoch ==> self.seconds > 0 || self.subsec_nanos > 0
    }
}

/// Two canonical distances with the same timestamp are the same distance.
pub proof fn lemma_canonical_distance_is_unique(a: EpochDistance, b: EpochDistance)
    requires
        a.is_canonical(),
        b.is_canonical(),
        a.timestamp() == b.timestamp(),
    ensures
        a == b,
{
    assert(a.seconds == b.seconds && a.subsec_nanos == b.subsec_nanos) by (nonlinear_arith)
        requires
            a.subsec_nanos < 1_000_000_000,
            b.subsec_nanos < 1_000_000_000,
            a.seconds * 1_000_000_000 + a.subsec_nanos == b.seconds * 1_000_000_000
                + b.subsec_nanos,
    ;
}

/// The timestamp at `distance` from the epoch.
pub fn timestamp_of(distance: EpochDistance) -> (timestamp: i128)
    ensures
        timestamp == distance.timestamp(),
{
    let nanos: i128 = (distance.seconds as i128) * (NANOS_PER_SECOND as i128) + (
    distance.subsec_nanos as i128);
    if distance.before_epoch {
        -nanos
    } else {
        nanos
    }
}

/// The canonical distance of `timestamp` from the epoch, or `None` if its
/// seconds do not fit into 64 bits.
pub fn distance_of(timestamp: i128) -> (distance: Option<EpochDistance>)
    ensures
        distance matches Some(d) ==> d.timestamp() == timestamp && d.is_canonical(),
        distance is None <==> timestamp < -(u64::MAX * NANOS_PER_SECOND + NANOS_PER_SECOND - 1)
            || timestamp > u64::MAX * NANOS_PER_SECOND + NANOS_PER_SECOND - 1,
{
    if timestamp == i128::MIN {
        return None;
    }
    let before_epoch = timestamp < 0;
    let nanos: i128 = if before_epoch {
        -timestamp
    } else {
        timestamp
    };
    let seconds: i128 = nanos / (NANOS_PER_SECOND as i128);
    let rest: i128 = nanos % (NANOS_PER_SECOND as i128);
    if seconds > u64::MAX as i128 {
        None
    } else {
        Some(EpochDistance { before_epoch, seconds: seconds as u64, subsec_nanos: rest as u32 })
    }
}

} // verus!
