//! Ensures that a client can't request a process action too quickly.

use vstd::prelude::*;
use crate::text::{chars_of, decimal, parse_unsigned, parse_unsigned_chars, push_decimal_u64};

verus! {

/// The time of an admitted request (seconds since the Unix epoch, in decimal).
pub struct TimerRequest(pub String);

/// Why a request is refused.
#[derive(Clone, Copy, Debug, PartialEq, Eq, Structural)]
pub enum TimerRequestError {
    TooQuick,
}

/// The time recorded in a `request-timer` cookie value.
pub open spec fn cookie_time(value: Seq<char>) -> Option<nat> {
    parse_unsigned(value, u64::MAX as nat)
}

/// A request is admitted when there is no earlier request on record, or the
/// last one was at least three seconds ago (a time on record that lies ahead
/// of `now` differs from it by less than three seconds, so it is refused).
pub open spec fn timer_admits(now: u64, last: Option<nat>) -> bool {
    match last {
        None => true,
        Some(t) => t <= now && now - t >= 3,
    }
}

impl TimerRequest {
    /// Decides a request at time `now` (seconds since the Unix epoch) given
    /// the pending `request-timer` cookie value, if any. Gives the decision
    /// and the new cookie value, which is `now` in every case.
    pub fn from_parts(now: u64, cookie: Option<&str>) -> (r: (Result<TimerRequest, TimerRequestError>, String))
        requires
            match cookie {
                Some(c) => cookie_time(c@) is Some,
                None => true,
            },
        ensures
            r.1@ == decimal(now as nat),
            ({
                let last = match cookie { Some(c) => cookie_time(c@), None => None };
                if timer_admits(now, last) {
                    r.0 matches Ok(t) && t.0@ == decimal(now as nat)
                } else {
                    r.0 == Err::<TimerRequest, TimerRequestError>(TimerRequestError::TooQuick)
                }
            }),
            match cookie {
                Some(c) => match cookie_time(c@) {
                    Some(t) => (t <= now && now - t >= 3 <==> r.0 is Ok),
                    None => true,
                },
                None => r.0 is Ok,
            },
    {
        let mut epoch_string = String::new();
        push_decimal_u64(&mut epoch_string, now);
        assert(epoch_string@ =~= decimal(now as nat));
        match cookie {
            None => (Ok(TimerRequest(epoch_string.clone())), epoch_string),
            Some(value) => {
                let last = parse_unsigned_chars(&chars_of(value), u64::MAX);
                match last {
                    Some(v) => {
                        if v > now || now - v < 3 {
                            (Err(TimerRequestError::TooQuick), epoch_string)
                        } else {
                            (Ok(TimerRequest(epoch_string.clone())), epoch_string)
                        }
                    },
                    None => (Err(TimerRequestError::TooQuick), epoch_string),
                }
            },
        }
    }
}

/// A request whose previous one is on record at a time `t` no later than
/// `now` is admitted exactly when at least three seconds have passed since,
/// however long ago that was; a time on record ahead of `now` is refused,
/// and a request with none on record is admitted.
pub proof fn law_timer_three_seconds(now: u64, t: nat)
    ensures
        t <= now ==> (timer_admits(now, Some(t)) <==> now - t >= 3),
        t + 3 <= now ==> timer_admits(now, Some(t)),
        t > now ==> !timer_admits(now, Some(t)),
        timer_admits(now, None),
{
}

} // verus!
