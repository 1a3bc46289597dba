use vstd::prelude::*;
use crate::storage::SampleBuffer;
use crate::storage::sample_buffer_get;
use crate::storage::sample_buffer_len;
use crate::storage::sample_buffer_new;
use crate::storage::sample_buffer_push;
use crate::storage::sample_buffer_remove_front;
use crate::storage::sample_seq;

verus! {

/// A three-axis acceleration sample, in milli-g per axis.
#[derive(Clone, Copy, PartialEq, Eq, Structural, Debug)]
pub struct Acceleration {
    pub x_mg: i32,
    pub y_mg: i32,
    pub z_mg: i32,
}

/// A three-axis magnetic-field sample, in nanotesla per axis.
#[derive(Clone, Copy, PartialEq, Eq, Structural, Debug)]
pub struct MagneticField {
    pub x_nt: i32,
    pub y_nt: i32,
    pub z_nt: i32,
}

/// An exact rolling average: the sum of the averaged samples and their count.
/// Samples accumulate in their native integer width; the one floating-point
/// division `sum / count` happens at the transport edge, outside this
/// library, so no drift enters the accumulation.
#[derive(Clone, Copy, PartialEq, Eq, Structural, Debug)]
pub struct Average {
    pub sum: i64,
    pub count: usize,
}

/// The sum of a sequence of samples.
pub open spec fn sum_of(s: Seq<i32>) -> int
    decreases s.len(),
{
    if s.len() == 0 {
        0
    } else {
        sum_of(s.drop_last()) + s.last()
    }
}

/// One push into a window under target size `ws`: the sample is appended,
/// and when the window then holds more than `ws` samples, the oldest one is
/// evicted — exactly one, even when the window is longer than `ws`.
pub open spec fn spec_push(w: Seq<i32>, x: i32, ws: u8) -> Seq<i32> {
    if w.len() + 1 > ws {
        w.push(x).drop_first()
    } else {
        w.push(x)
    }
}

/// A whole run of pushes, oldest first, folded over `spec_push`.
pub open spec fn spec_push_all(w: Seq<i32>, xs: Seq<i32>, ws: u8) -> Seq<i32>
    decreases xs.len(),
{
    if xs.len() == 0 {
        w
    } else {
        spec_push(spec_push_all(w, xs.drop_last(), ws), xs.last(), ws)
    }
}

/// How many of `n` pushed samples a window of target size `ws` retains.
pub open spec fn retained(n: int, ws: u8) -> int {
    if n <= ws {
        n
    } else {
        ws as int
    }
}

/// A window of the most recent samples of one channel: a fixed-capacity FIFO
/// whose oldest sample is evicted once a push carries it past the target
/// window size.
pub struct SlidingWindow {
    samples: SampleBuffer,
}

impl View for SlidingWindow {
    type V = Seq<i32>;

    /// The held samples, oldest first.
    closed spec fn view(&self) -> Seq<i32> {
        sample_seq(self.samples)
    }
}

impl SlidingWindow {
    /// The window never outgrows the buffer's static capacity.
    pub closed spec fn wf(&self) -> bool {
        self@.len() <= 255
    }

    /// An empty window.
    pub fn new() -> (r: SlidingWindow)
        ensures
            r@ == Seq::<i32>::empty(),
            r.wf(),
    {
        SlidingWindow { samples: sample_buffer_new() }
    }

    /// How many samples the window currently holds.
    pub fn len(&self) -> (r: usize)
        ensures
            r == self@.len(),
    {
        sample_buffer_len(&self.samples)
    }

    /// Append `x`; when the window then holds more than `ws` samples, evict
    /// the oldest — exactly one per push, however far the window is above
    /// `ws`.
    pub fn push(&mut self, x: i32, ws: u8)
        requires
            old(self).wf(),
        ensures
            final(self)@ == spec_push(old(self)@, x, ws),
            final(self).wf(),
    {
        let n = sample_buffer_len(&self.samples);
        if n == 255 {
            // At capacity the append must come second, but evicting first
            // leaves the same window as appending first would have.
            sample_buffer_remove_front(&mut self.samples);
            sample_buffer_push(&mut self.samples, x);
            proof {
                assert(old(self)@.drop_first().push(x) =~= old(self)@.push(x).drop_first());
            }
        } else {
            sample_buffer_push(&mut self.samples, x);
            if sample_buffer_len(&self.samples) > ws as usize {
                sample_buffer_remove_front(&mut self.samples);
            }
        }
    }

    /// The sum of the held samples, in the samples' native integer width. At
    /// most 255 samples of 32 bits each are held, so the 64-bit sum cannot
    /// overflow.
    fn sum(&self) -> (r: i64)
        requires
            self.wf(),
        ensures
            r == sum_of(self@),
    {
        let n = sample_buffer_len(&self.samples);
        let mut acc: i64 = 0;
        let mut i: usize = 0;
        while i < n
            invariant
                n == self@.len(),
                n <= 255,
                i <= n,
                acc == sum_of(self@.subrange(0, i as int)),
                -0x8000_0000i64 * (i as i64) <= acc <= 0x7fff_ffffi64 * (i as i64),
            decreases n - i,
        {
            let x = sample_buffer_get(&self.samples, i);
            proof {
                assert(self@.subrange(0, i + 1).drop_last() =~= self@.subrange(0, i as int));
                assert(self@.subrange(0, i + 1).last() == self@[i as int]);
            }
            acc = acc + x as i64;
            i = i + 1;
        }
        proof {
            assert(self@.subrange(0, n as int) =~= self@);
        }
        acc
    }

    /// The exact average of the held samples: their sum and their count.
    /// `None` while the window is empty, so no caller can divide by a zero
    /// count.
    pub fn average(&self) -> (r: Option<Average>)
        requires
            self.wf(),
        ensures
            r is None <==> self@.len() == 0,
            r matches Some(a) ==> a.sum == sum_of(self@) && a.count == self@.len(),
    {
        let n = sample_buffer_len(&self.samples);
        if n == 0 {
            None
        } else {
            Some(Average { sum: self.sum(), count: n })
        }
    }
}

/// The rolling averages of one sensor suite: three acceleration channels,
/// three magnetic-field channels and one temperature channel, all under one
/// target window size. Each three-axis group is pushed in lockstep, so its
/// channels always hold the same count of time-aligned samples.
pub struct SimpleMovingAverage {
    num_aves: u8,
    acc_x: SlidingWindow,
    acc_y: SlidingWindow,
    acc_z: SlidingWindow,
    mag_x: SlidingWindow,
    mag_y: SlidingWindow,
    mag_z: SlidingWindow,
    temp: SlidingWindow,
}

impl SimpleMovingAverage {
    /// Every channel within its capacity, and each three-axis group holding
    /// the same number of samples.
    pub closed spec fn wf(&self) -> bool {
        &&& self.acc_x.wf()
        &&& self.acc_y.wf()
        &&& self.acc_z.wf()
        &&& self.mag_x.wf()
        &&& self.mag_y.wf()
        &&& self.mag_z.wf()
        &&& self.temp.wf()
        &&& self.acc_y@.len() == self.acc_x@.len()
        &&& self.acc_z@.len() == self.acc_x@.len()
        &&& self.mag_y@.len() == self.mag_x@.len()
        &&& self.mag_z@.len() == self.mag_x@.len()
    }

    /// The target window size.
    pub closed spec fn window_size(&self) -> u8 {
        self.num_aves
    }

    /// The held acceleration samples, per axis, oldest first.
    pub closed spec fn acc_view(&self) -> (Seq<i32>, Seq<i32>, Seq<i32>) {
        (self.acc_x@, self.acc_y@, self.acc_z@)
    }

    /// The held magnetic-field samples, per axis, oldest first.
    pub closed spec fn mag_view(&self) -> (Seq<i32>, Seq<i32>, Seq<i32>) {
        (self.mag_x@, self.mag_y@, self.mag_z@)
    }

    /// The held temperature samples, oldest first.
    pub closed spec fn temp_view(&self) -> Seq<i32> {
        self.temp@
    }

    /// Empty windows under the given initial target size.
    pub fn new(size: u8) -> (r: SimpleMovingAverage)
        ensures
            r.wf(),
            r.window_size() == size,
            r.acc_view() == (Seq::<i32>::empty(), Seq::<i32>::empty(), Seq::<i32>::empty()),
            r.mag_view() == (Seq::<i32>::empty(), Seq::<i32>::empty(), Seq::<i32>::empty()),
            r.temp_view() == Seq::<i32>::empty(),
    {
        SimpleMovingAverage {
            num_aves: size,
            acc_x: SlidingWindow::new(),
            acc_y: SlidingWindow::new(),
            acc_z: SlidingWindow::new(),
            mag_x: SlidingWindow::new(),
            mag_y: SlidingWindow::new(),
            mag_z: SlidingWindow::new(),
            temp: SlidingWindow::new(),
        }
    }

    /// Push one acceleration sample into the three acceleration channels, in
    /// lockstep; the other channels are untouched.
    pub fn add_acceleration(&mut self, accel: Acceleration)
        requires
            old(self).wf(),
        ensures
            final(self).wf(),
            final(self).window_size() == old(self).window_size(),
            final(self).acc_view().0 == spec_push(
                old(self).acc_view().0,
                accel.x_mg,
                old(self).window_size(),
            ),
            final(self).acc_view().1 == spec_push(
                old(self).acc_view().1,
                accel.y_mg,
                old(self).window_size(),
            ),
            final(self).acc_view().2 == spec_push(
                old(self).acc_view().2,
                accel.z_mg,
                old(self).window_size(),
            ),
            final(self).mag_view() == old(self).mag_view(),
            final(self).temp_view() == old(self).temp_view(),
    {
        let size = self.num_aves;
        self.acc_x.push(accel.x_mg, size);
        self.acc_y.push(accel.y_mg, size);
        self.acc_z.push(accel.z_mg, size);
    }

    /// Push one magnetic-field sample into the three magnetic channels, in
    /// lockstep; the other channels are untouched.
    pub fn add_magnetic(&mut self, magnet: MagneticField)
        requires
            old(self).wf(),
        ensures
            final(self).wf(),
            final(self).window_size() == old(self).window_size(),
            final(self).mag_view().0 == spec_push(
                old(self).mag_view().0,
                magnet.x_nt,
                old(self).window_size(),
            ),
            final(self).mag_view().1 == spec_push(
                old(self).mag_view().1,
                magnet.y_nt,
                old(self).window_size(),
            ),
            final(self).mag_view().2 == spec_push(
                old(self).mag_view().2,
                magnet.z_nt,
                old(self).window_size(),
            ),
            final(self).acc_view() == old(self).acc_view(),
            final(self).temp_view() == old(self).temp_view(),
    {
        let size = self.num_aves;
        self.mag_x.push(magnet.x_nt, size);
        self.mag_y.push(magnet.y_nt, size);
        self.mag_z.push(magnet.z_nt, size);
    }

    /// Push one temperature sample, held in the sensor's native fixed-point
    /// integer resolution; the other channels are untouched.
    pub fn add_temp(&mut self, temp_reading: i32)
        requires
            old(self).wf(),
        ensures
            final(self).wf(),
            final(self).window_size() == old(self).window_size(),
            final(self).temp_view() == spec_push(
                old(self).temp_view(),
                temp_reading,
                old(self).window_size(),
            ),
            final(self).acc_view() == old(self).acc_view(),
            final(self).mag_view() == old(self).mag_view(),
    {
        let size = self.num_aves;
        self.temp.push(temp_reading, size);
    }

    /// Retarget the window size. No held sample is touched: a smaller target
    /// thins the windows only through later pushes, one eviction per push.
    pub fn update_size(&mut self, new_size: u8)
        requires
            old(self).wf(),
        ensures
            final(self).wf(),
            final(self).window_size() == new_size,
            final(self).acc_view() == old(self).acc_view(),
            final(self).mag_view() == old(self).mag_view(),
            final(self).temp_view() == old(self).temp_view(),
    {
        self.num_aves = new_size;
    }

    /// The target window size.
    pub fn get_num_aves(&self) -> (r: u8)
        ensures
            r == self.window_size(),
    {
        self.num_aves
    }

    /// The exact per-axis averages of the held acceleration samples; `None`
    /// while none has arrived yet.
    pub fn get_acc_average(&self) -> (r: Option<(Average, Average, Average)>)
        requires
            self.wf(),
        ensures
            r is None <==> self.acc_view().0.len() == 0,
            r matches Some(a) ==> {
                &&& a.0.sum == sum_of(self.acc_view().0)
                &&& a.1.sum == sum_of(self.acc_view().1)
                &&& a.2.sum == sum_of(self.acc_view().2)
                &&& a.0.count == self.acc_view().0.len()
                &&& a.1.count == self.acc_view().0.len()
                &&& a.2.count == self.acc_view().0.len()
            },
    {
        let ax = self.acc_x.average();
        let ay = self.acc_y.average();
        let az = self.acc_z.average();
        match (ax, ay, az) {
            (Some(x), Some(y), Some(z)) => Some((x, y, z)),
            _ => None,
        }
    }

    /// The exact per-axis averages of the held magnetic-field samples;
    /// `None` while none has arrived yet.
    pub fn get_mag_average(&self) -> (r: Option<(Average, Average, Average)>)
        requires
            self.wf(),
        ensures
            r is None <==> self.mag_view().0.len() == 0,
            r matches Some(a) ==> {
                &&& a.0.sum == sum_of(self.mag_view().0)
                &&& a.1.sum == sum_of(self.mag_view().1)
                &&& a.2.sum == sum_of(self.mag_view().2)
                &&& a.0.count == self.mag_view().0.len()
                &&& a.1.count == self.mag_view().0.len()
                &&& a.2.count == self.mag_view().0.len()
            },
    {
        let mx = self.mag_x.average();
        let my = self.mag_y.average();
        let mz = self.mag_z.average();
        match (mx, my, mz) {
            (Some(x), Some(y), Some(z)) => Some((x, y, z)),
            _ => None,
        }
    }

    /// The exact average of the held temperature samples; `None` while none
    /// has arrived yet.
    pub fn get_temp_average(&self) -> (r: Option<Average>)
        requires
            self.wf(),
        ensures
            r is None <==> self.temp_view().len() == 0,
            r matches Some(a) ==> a.sum == sum_of(self.temp_view())
                && a.count == self.temp_view().len(),
    {
        self.temp.average()
    }
}

/// A push appends its sample and evicts at most the one oldest sample, so a
/// window never shrinks through pushes — in particular not after its target
/// size was lowered.
pub proof fn lemma_push_evicts_at_most_one(w: Seq<i32>, x: i32, ws: u8)
    ensures
        spec_push(w, x, ws) == w.push(x) || spec_push(w, x, ws) == w.push(x).drop_first(),
        spec_push(w, x, ws).len() >= w.len(),
{
}

/// A window filled from empty holds exactly the most recent
/// `retained(n, ws)` of its `n` pushed samples, oldest first: all of them
/// while `n` stays within the target size, and exactly the last `ws` once
/// `n` exceeds it. The average over the window is therefore the mean of
/// exactly those samples.
pub proof fn lemma_window_holds_latest(xs: Seq<i32>, ws: u8)
    ensures
        spec_push_all(Seq::<i32>::empty(), xs, ws) == xs.subrange(
            xs.len() - retained(xs.len() as int, ws),
            xs.len() as int,
        ),
    decreases xs.len(),
{
    let n = xs.len() as int;
    if n > 0 {
        lemma_window_holds_latest(xs.drop_last(), ws);
        let prev = spec_push_all(Seq::<i32>::empty(), xs.drop_last(), ws);
        assert(prev == xs.drop_last().subrange(
            (n - 1) - retained(n - 1, ws),
            n - 1,
        ));
        if n - 1 < ws {
            assert(prev.push(xs.last()) =~= xs.subrange(n - retained(n, ws), n));
        } else {
            assert(prev.push(xs.last()).drop_first() =~= xs.subrange(n - retained(n, ws), n));
        }
    } else {
        assert(xs.subrange(0, 0) =~= Seq::<i32>::empty());
    }
}

} // verus!

