//! The frame-timing harness: an explicit state machine that drives the
//! benchmark loop. The surrounding binary owns the clock and the display;
//! each iteration it hands the current time and the previous frame's
//! duration in, and the harness decides whether the run is over, records
//! the sample, and decides whether a periodic progress report is due.

use vstd::prelude::*;

verus! {

/// Microseconds between two periodic progress reports.
pub const REPORT_INTERVAL_US: u64 = 500_000;

/// The life of a run: created, looping, done.
#[derive(Clone, Copy, Debug, PartialEq, Eq, Structural)]
pub enum Phase {
    Idle,
    Running,
    Finished,
}

/// What the loop must do after one harness step.
#[derive(Clone, Copy, Debug, PartialEq, Eq, Structural)]
pub enum StepOutcome {
    /// The configured duration has elapsed: leave the loop without
    /// rendering this iteration.
    Finish,
    /// Render this frame; `emit_report` says whether a progress report
    /// is due first.
    Render { emit_report: bool },
}

/// All mutable timing state of one run, threaded through the loop by
/// ownership.
#[derive(Debug)]
pub struct HarnessState {
    pub phase: Phase,
    /// Wall-clock time at which the run entered `Running`, microseconds.
    pub start_us: u64,
    /// Wall-clock time of the last periodic progress report.
    pub last_report_us: u64,
    /// Frames rendered so far; always equal to the number of samples.
    pub frame_count: u64,
    /// One duration per rendered frame, in recording order.
    pub samples: Vec<u64>,
}

impl HarnessState {
    /// The harness invariant: the frame counter matches the sample
    /// record, and the report timer never lies before the start.
    pub open spec fn wf(self) -> bool {
        &&& self.frame_count == self.samples@.len()
        &&& self.start_us <= self.last_report_us
    }
}

/// Whether a step taken at `now_us` ends the run.
pub open spec fn step_finishes(pre: HarnessState, now_us: int, duration_us: int) -> bool {
    now_us - pre.start_us >= duration_us
}

/// Whether a rendering step taken at `now_us` owes a progress report.
pub open spec fn step_emits_report(pre: HarnessState, now_us: int) -> bool {
    now_us - pre.last_report_us >= REPORT_INTERVAL_US
}

/// Enters `Running` at time `now_us` with an empty record.
pub fn start(now_us: u64) -> (r: HarnessState)
    ensures
        r.phase == Phase::Running,
        r.start_us == now_us,
        r.last_report_us == now_us,
        r.frame_count == 0,
        r.samples@ == Seq::<u64>::empty(),
        r.wf(),
{
    HarnessState {
        phase: Phase::Running,
        start_us: now_us,
        last_report_us: now_us,
        frame_count: 0,
        samples: Vec::new(),
    }
}

impl HarnessState {
    /// One loop iteration at wall-clock time `now_us`, where the frame
    /// just completed took `frame_dt_us`. If the configured duration has
    /// elapsed the run finishes and nothing is recorded; otherwise the
    /// sample is appended, the frame counter advances, and a progress
    /// report is due exactly when the report interval has passed since
    /// the last one.
    pub fn step(&mut self, now_us: u64, frame_dt_us: u64, duration_us: u64) -> (r: StepOutcome)
        requires
            old(self).wf(),
            old(self).phase == Phase::Running,
            now_us >= old(self).last_report_us,
        ensures
            final(self).wf(),
            final(self).start_us == old(self).start_us,
            step_finishes(*old(self), now_us as int, duration_us as int) ==> {
                &&& final(self).phase == Phase::Finished
                &&& final(self).samples@ == old(self).samples@
                &&& final(self).frame_count == old(self).frame_count
                &&& final(self).last_report_us == old(self).last_report_us
                &&& r == StepOutcome::Finish
            },
            !step_finishes(*old(self), now_us as int, duration_us as int) ==> {
                &&& final(self).phase == Phase::Running
                &&& final(self).samples@ == old(self).samples@.push(frame_dt_us)
                &&& final(self).frame_count == old(self).frame_count + 1
                &&& (r == StepOutcome::Render {
                    emit_report: step_emits_report(*old(self), now_us as int),
                })
                &&& final(self).last_report_us == if step_emits_report(
                    *old(self),
                    now_us as int,
                ) {
                    now_us
                } else {
                    old(self).last_report_us
                }
            },
    {
        let elapsed = now_us - self.start_us;
        if elapsed >= duration_us {
            self.phase = Phase::Finished;
            return StepOutcome::Finish;
        }
        self.samples.push(frame_dt_us);
        let n = self.samples.len();
        proof {
            assert(self.frame_count + 1 == n);
        }
        self.frame_count = self.frame_count + 1;
        let emit_report = now_us - self.last_report_us >= REPORT_INTERVAL_US;
        if emit_report {
            self.last_report_us = now_us;
        }
        StepOutcome::Render { emit_report }
    }
}

/// One periodic progress line: how far the run is, the rolling average
/// frame time, and the frame rate it amounts to.
#[derive(Clone, Copy, Debug, PartialEq, Eq, Structural)]
pub struct ProgressReport {
    pub elapsed_us: u64,
    pub avg_frame_us: u64,
    pub fps_milli: u64,
}

/// Builds the progress report that a rendering step owes: the rolling
/// average over the last 30 recorded samples and the matching frame
/// rate. Returns `None` exactly while nothing has been recorded yet.
pub fn progress_report(state: &HarnessState, now_us: u64) -> (r: Option<ProgressReport>)
    requires
        now_us >= state.start_us,
    ensures
        r is Some <==> state.samples@.len() > 0,
        r is Some ==> ({
            let avg = crate::stats::seq_sum_spec(
                crate::stats::rolling_window_spec(state.samples@),
            ) / crate::stats::rolling_window_spec(state.samples@).len() as int;
            &&& r->Some_0.elapsed_us == now_us - state.start_us
            &&& r->Some_0.avg_frame_us == avg
            &&& r->Some_0.fps_milli == if avg == 0 {
                0
            } else {
                1_000_000_000int / avg
            }
        }),
{
    match crate::stats::rolling_avg_frame_us(&state.samples) {
        None => None,
        Some(avg_frame_us) => {
            let fps_milli = crate::stats::fps_milli_from_avg(avg_frame_us);
            Some(ProgressReport { elapsed_us: now_us - state.start_us, avg_frame_us, fps_milli })
        },
    }
}

/// A run configured with a zero duration finishes on its very first
/// iteration, whatever the clock reads: no frame is rendered and no
/// sample is ever recorded, so the reporter sees an empty record and
/// reports no data instead of dividing by zero.
pub proof fn lemma_zero_duration_finishes_immediately(pre: HarnessState, now_us: int)
    requires
        now_us >= pre.start_us,
    ensures
        step_finishes(pre, now_us, 0),
{
}

} // verus!
