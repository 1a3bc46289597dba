use vstd::prelude::*;
use crate::average::Acceleration;
use crate::average::Average;
use crate::average::SimpleMovingAverage;
use crate::average::spec_push;
use crate::average::sum_of;
use crate::control::Measuring;
use crate::timing::ElapsedTimeTracker;
use crate::timing::wrap_diff;

verus! {

/// One report, built at a report boundary from the current window averages:
/// the cumulative timestamp in counter ticks, the averager's target window
/// size, and the exact per-axis acceleration averages.
#[derive(Clone, Copy, Debug)]
pub struct Report {
    pub timestamp_ticks: u64,
    pub window_size: u8,
    pub acc: (Average, Average, Average),
}

/// What one step of the control loop asks of the hardware shell: whether to
/// clear the hardware counter, and which report, if any, to put on the wire.
pub struct StepOutcome {
    pub clear_counter: bool,
    pub report: Option<Report>,
}

/// A window size of zero would make every later average undefined, so a
/// malformed resize is clamped to one before it is applied.
pub open spec fn spec_clamped(ws: u8) -> u8 {
    if ws == 0 {
        1
    } else {
        ws
    }
}

/// The acceleration windows after one loop iteration's sensor intake: one
/// lockstep push when a sample was available, untouched otherwise.
pub open spec fn spec_intake(
    acc: (Seq<i32>, Seq<i32>, Seq<i32>),
    sample: Option<Acceleration>,
    ws: u8,
) -> (Seq<i32>, Seq<i32>, Seq<i32>) {
    match sample {
        Option::None => acc,
        Option::Some(s) => (
            spec_push(acc.0, s.x_mg, ws),
            spec_push(acc.1, s.y_mg, ws),
            spec_push(acc.2, s.z_mg, ws),
        ),
    }
}

/// The sampling control loop's state: the rolling averages, the elapsed-time
/// tracker, and the fixed report interval in counter ticks.
pub struct SamplingController {
    aves: SimpleMovingAverage,
    timer: ElapsedTimeTracker,
    interval_ticks: u64,
}

/// Everything one `step` call does, relating the controller before (`pre`)
/// and after (`post`) to its inputs and to the outcome handed back:
/// an available sample enters the acceleration windows first; then the delta
/// since the mark decides whether the report interval elapsed. At a boundary
/// the delta joins the cumulative total, the hardware counter is ordered
/// cleared, and — when reporting is active — a report is built from the
/// fresh averages (unless the windows are still empty) and the snapshot's
/// window size is applied, clamped away from zero. Off the boundary nothing
/// else moves.
pub open spec fn spec_step(
    pre: SamplingController,
    sample: Option<Acceleration>,
    counter_now: u32,
    control: Measuring,
    post: SamplingController,
    outcome: StepOutcome,
) -> bool {
    let ws0 = pre.averager().window_size();
    let acc1 = spec_intake(pre.averager().acc_view(), sample, ws0);
    let delta = wrap_diff(counter_now, pre.tracker().mark());
    let boundary = delta >= pre.interval();
    let reporting = boundary && control.active;
    &&& post.interval() == pre.interval()
    &&& post.averager().acc_view() == acc1
    &&& post.averager().mag_view() == pre.averager().mag_view()
    &&& post.averager().temp_view() == pre.averager().temp_view()
    &&& post.averager().window_size() == if reporting {
        spec_clamped(control.num_aves)
    } else {
        ws0
    }
    &&& outcome.clear_counter == boundary
    &&& if boundary {
        post.tracker().mark() == 0 && post.tracker().total() == if pre.tracker().total() + delta
            <= u64::MAX {
            pre.tracker().total() + delta
        } else {
            u64::MAX as int
        }
    } else {
        post.tracker() == pre.tracker()
    }
    &&& (outcome.report is Some <==> reporting && acc1.0.len() > 0)
    &&& (outcome.report matches Some(rep) ==> {
        &&& rep.timestamp_ticks == post.tracker().total()
        &&& rep.window_size == ws0
        &&& rep.acc.0.sum == sum_of(acc1.0) && rep.acc.0.count == acc1.0.len()
        &&& rep.acc.1.sum == sum_of(acc1.1) && rep.acc.1.count == acc1.0.len()
        &&& rep.acc.2.sum == sum_of(acc1.2) && rep.acc.2.count == acc1.0.len()
    })
}

impl SamplingController {
    /// The rolling averages.
    pub closed spec fn averager(&self) -> SimpleMovingAverage {
        self.aves
    }

    /// The elapsed-time tracker.
    pub closed spec fn tracker(&self) -> ElapsedTimeTracker {
        self.timer
    }

    /// The report interval, in counter ticks.
    pub closed spec fn interval(&self) -> u64 {
        self.interval_ticks
    }

    pub closed spec fn wf(&self) -> bool {
        self.aves.wf()
    }

    /// A controller with empty windows under the given initial target size —
    /// clamped away from zero at configuration time — nothing elapsed, and
    /// the given report interval.
    pub fn new(initial_size: u8, interval_ticks: u64) -> (r: SamplingController)
        ensures
            r.wf(),
            r.averager().window_size() == spec_clamped(initial_size),
            r.averager().acc_view() == (
                Seq::<i32>::empty(),
                Seq::<i32>::empty(),
                Seq::<i32>::empty(),
            ),
            r.averager().mag_view() == (
                Seq::<i32>::empty(),
                Seq::<i32>::empty(),
                Seq::<i32>::empty(),
            ),
            r.averager().temp_view() == Seq::<i32>::empty(),
            r.tracker().mark() == 0,
            r.tracker().total() == 0,
            r.interval() == interval_ticks,
    {
        let size = if initial_size == 0 {
            1
        } else {
            initial_size
        };
        SamplingController {
            aves: SimpleMovingAverage::new(size),
            timer: ElapsedTimeTracker::new(),
            interval_ticks,
        }
    }

    /// One iteration of the sampling control loop.
    pub fn step(
        &mut self,
        sample: Option<Acceleration>,
        counter_now: u32,
        control: Measuring,
    ) -> (outcome: StepOutcome)
        requires
            old(self).wf(),
        ensures
            final(self).wf(),
            spec_step(*old(self), sample, counter_now, control, *final(self), outcome),
    {
        if let Some(s) = sample {
            self.aves.add_acceleration(s);
        }
        let delta = self.timer.tick(counter_now);
        let mut outcome = StepOutcome { clear_counter: false, report: None };
        if delta >= self.interval_ticks {
            self.timer.accumulate(delta);
            self.timer.mark_counter_cleared();
            outcome.clear_counter = true;
            if control.active {
                let ws_byte = self.aves.get_num_aves();
                if let Some(acc3) = self.aves.get_acc_average() {
                    outcome.report = Some(
                        Report {
                            timestamp_ticks: self.timer.total_ticks(),
                            window_size: ws_byte,
                            acc: acc3,
                        },
                    );
                }
                let new_size = if control.num_aves == 0 {
                    1
                } else {
                    control.num_aves
                };
                self.aves.update_size(new_size);
            }
        }
        outcome
    }

    /// The ticks accumulated over all report boundaries so far.
    pub fn total_elapsed_ticks(&self) -> (r: u64)
        ensures
            r == self.tracker().total(),
    {
        self.timer.total_ticks()
    }

    /// The averager's current target window size.
    pub fn current_window_size(&self) -> (r: u8)
        ensures
            r == self.averager().window_size(),
    {
        self.aves.get_num_aves()
    }
}

} // verus!
