//! Spans between instants.
use crate::model::Timestamp;
use vstd::prelude::*;

verus! {

/// A length of time, in nanoseconds.
pub type Nanoseconds = u128;

/// Nanoseconds in a second.
pub const SECOND: u128 = 1_000_000_000;

/// Nanoseconds in a millisecond.
pub const MILLISECOND: u128 = 1_000_000;

/// The time from one instant to a later one.
pub fn span(from: Timestamp, to: Timestamp) -> (length: Nanoseconds)
    requires
        from <= to,
    ensures
        length == to - from,
{
    if from < 0 && to >= 0 {
        (to as u128) + ((-(from + 1)) as u128) + 1
    } else {
        (to - from) as u128
    }
}

/// The whole seconds that are left before a deadline, if any time is left. A span
/// whose seconds do not fit counts as none.
pub open spec fn time_left(deadline: Timestamp, now: Timestamp) -> Option<u64> {
    if deadline > now {
        let seconds = (deadline - now) / (SECOND as int);
        Some(
            if seconds <= u64::MAX {
                seconds as u64
            } else {
                0
            },
        )
    } else {
        None
    }
}

/// The whole seconds that are left before a deadline, if any time is left.
pub fn remaining(deadline: Timestamp, now: Timestamp) -> (left: Option<u64>)
    ensures
        left == time_left(deadline, now),
{
    if deadline <= now {
        return None;
    }
    let seconds: u128 = span(now, deadline) / SECOND;
    if seconds <= 0xffff_ffff_ffff_ffffu128 {
        Some(seconds as u64)
    } else {
        Some(0)
    }
}

/// Time is left exactly before the deadline, and less of it the later it is.
pub proof fn law_time_left_shrinks(deadline: Timestamp, earlier: Timestamp, later: Timestamp)
    requires
        earlier <= later,
        (deadline - earlier) / (SECOND as int) <= u64::MAX,
    ensures
        time_left(deadline, later) is Some ==> time_left(deadline, earlier) is Some
            && time_left(deadline, later)->0 <= time_left(deadline, earlier)->0,
{
    if deadline > later {
        vstd::arithmetic::div_mod::lemma_div_is_ordered(
            deadline - later,
            deadline - earlier,
            SECOND as int,
        );
    }
}

/// The seconds that are left are whole ones: the deadline is that many seconds away, and
/// less than one more. A count that does not fit is given as zero.
pub proof fn law_whole_seconds_are_left(deadline: Timestamp, now: Timestamp)
    ensures
        time_left(deadline, now) is Some <==> now < deadline,
        time_left(deadline, now) matches Some(left) ==> {
            let fits = deadline - now < (u64::MAX + 1) * 1_000_000_000;
            &&& fits ==> left * 1_000_000_000 <= deadline - now
            &&& fits ==> deadline - now < (left + 1) * 1_000_000_000
            &&& !fits ==> left == 0
        },
{
}

} // verus!
