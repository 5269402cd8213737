//! Frame pacing: the fixed-rate scheduler decision and the rolling frame
//! counter, both over integer nanoseconds.
use vstd::prelude::*;

verus! {

/// What the scheduler does when the redraw queue drains.
#[derive(Clone, Copy, Debug, PartialEq, Eq, Structural)]
pub enum PaceAction {
    /// The target interval has elapsed: request a redraw now.
    RedrawNow,
    /// The target interval has not elapsed: wait this much longer.
    WaitFor { delay_ns: u64 },
}

/// Decide whether to redraw. A frame is due exactly when the time since the
/// last one has reached the target interval; otherwise the scheduler waits
/// out precisely the remainder, so that frames are deferred, never dropped.
pub fn pace(elapsed_ns: u64, target_ns: u64) -> (a: PaceAction)
    ensures
        elapsed_ns >= target_ns ==> a == PaceAction::RedrawNow,
        elapsed_ns < target_ns ==> a == (PaceAction::WaitFor {
            delay_ns: (target_ns - elapsed_ns) as u64,
        }),
{
    if elapsed_ns >= target_ns {
        PaceAction::RedrawNow
    } else {
        PaceAction::WaitFor { delay_ns: target_ns - elapsed_ns }
    }
}

/// How many frames the counter accumulates before reporting an average.
pub const REPORT_EVERY: u32 = 100;

/// A rolling counter of frame times.
#[derive(Clone, Copy, Debug, PartialEq, Eq, Structural)]
pub struct FrameCounter {
    /// Frames accumulated since the last report.
    pub frame_count: u32,
    /// Their summed duration.
    pub accum_time_ns: u64,
}

impl FrameCounter {
    /// An empty counter.
    pub fn new() -> (r: FrameCounter)
        ensures
            r == (FrameCounter { frame_count: 0, accum_time_ns: 0 }),
    {
        FrameCounter { frame_count: 0, accum_time_ns: 0 }
    }

    /// Add one frame's duration. Every hundredth frame the counter reports
    /// the average frame time over the window and starts over; in between
    /// it reports nothing.
    pub fn record(&mut self, dt_ns: u64) -> (avg: Option<u64>)
        requires
            old(self).frame_count < REPORT_EVERY,
            old(self).accum_time_ns + dt_ns <= u64::MAX,
        ensures
            final(self).frame_count < REPORT_EVERY,
            old(self).frame_count + 1 < REPORT_EVERY ==> {
                &&& avg is None
                &&& *final(self) == (FrameCounter {
                    frame_count: (old(self).frame_count + 1) as u32,
                    accum_time_ns: (old(self).accum_time_ns + dt_ns) as u64,
                })
            },
            old(self).frame_count + 1 == REPORT_EVERY ==> {
                &&& avg == Some((((old(self).accum_time_ns + dt_ns) as u64) / (REPORT_EVERY as u64)) as u64)
                &&& *final(self) == (FrameCounter { frame_count: 0, accum_time_ns: 0 })
            },
    {
        self.accum_time_ns = self.accum_time_ns + dt_ns;
        self.frame_count = self.frame_count + 1;
        if self.frame_count == REPORT_EVERY {
            let avg = self.accum_time_ns / (REPORT_EVERY as u64);
            self.accum_time_ns = 0;
            self.frame_count = 0;
            Some(avg)
        } else {
            None
        }
    }
}

} // verus!
