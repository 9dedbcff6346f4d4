//! Decisions of the frame-paced scheduler: when a tick is due, and the phase
//! correction taken from an edge of the signal line. Times are microseconds.
use vstd::prelude::*;

verus! {

/// Length of one frame, in microseconds.
pub const FRAME_LENGTH: u128 = 1000;

/// Outcome of one pass of the scheduler's polling loop.
#[derive(Clone, Copy, Debug, PartialEq, Eq, Structural)]
pub struct FrameDecision {
    /// The reference time for the next pass.
    pub last_time_checked: u128,
    /// Whether to run a tick now.
    pub run_tick: bool,
    /// The time since the reference, when a tick runs more than two frames late.
    pub missed_by: Option<u128>,
}

/// The reference time a pass measures from: the correction when one arrived,
/// the previous reference otherwise.
pub open spec fn frame_reference(last_time_checked: u128, correction: Option<u128>) -> u128 {
    match correction {
        Some(c) => c,
        None => last_time_checked,
    }
}

/// One pass of the polling loop at time `now`: a correction, if one arrived,
/// replaces the reference time; a tick is due once a whole frame has passed
/// since the reference, and the reference then moves to `now`. A tick more
/// than two frames late is reported. A reference later than `now` is not due.
pub fn schedule_frame(last_time_checked: u128, correction: Option<u128>, now: u128) -> (r: FrameDecision)
    ensures
        ({
            let base = frame_reference(last_time_checked, correction);
            &&& r.run_tick == (now >= base && now - base >= FRAME_LENGTH)
            &&& r.last_time_checked == (if r.run_tick { now } else { base })
            &&& r.missed_by == (if r.run_tick && now - base > 2 * FRAME_LENGTH {
                Some((now - base) as u128)
            } else {
                None
            })
        }),
{
    let base = match correction {
        Some(c) => c,
        None => last_time_checked,
    };
    if now >= base && now - base >= FRAME_LENGTH {
        let elapsed = now - base;
        let missed_by = if elapsed > 2 * FRAME_LENGTH { Some(elapsed) } else { None };
        FrameDecision { last_time_checked: now, run_tick: true, missed_by }
    } else {
        FrameDecision { last_time_checked: base, run_tick: false, missed_by: None }
    }
}

/// The reference time published for an edge seen at `now`: half a frame
/// earlier, so that samples fall midway between edges.
pub fn phase_correction(now: u128) -> (r: u128)
    requires
        now >= FRAME_LENGTH / 2,
    ensures
        r == now - FRAME_LENGTH / 2,
{
    now - FRAME_LENGTH / 2
}

} // verus!
