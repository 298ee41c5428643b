//! The sliding mouse-velocity estimator's state: a time-ordered queue of
//! motion samples, eviction of samples older than the sampling window, and
//! the unweighted delta sums that form the velocity estimate.

use vstd::prelude::*;

verus! {

/// Hard capacity of the sample queue; the oldest sample is dropped when a
/// new one arrives at capacity.
pub const MAX_SAMPLES: usize = 1024;

/// Largest per-sample delta magnitude kept; larger deltas are saturated on
/// intake so that windowed sums stay far from overflow.
pub const MAX_DELTA: i32 = 65536;

/// One physical mouse-motion delta with its arrival time.
#[derive(Clone, Copy, Debug, PartialEq, Eq, Structural)]
pub struct MouseSample {
    /// Horizontal delta, saturated to `[-MAX_DELTA, MAX_DELTA]`.
    pub dx: i32,
    /// Vertical delta, saturated to `[-MAX_DELTA, MAX_DELTA]`.
    pub dy: i32,
    /// Arrival time, microseconds on the monotonic clock.
    pub ts_us: u64,
}

/// Timestamps never decrease from front to back.
pub open spec fn sorted_by_time(s: Seq<MouseSample>) -> bool {
    forall|i: int, j: int|
        0 <= i <= j < s.len() ==> #[trigger] s[i].ts_us <= #[trigger] s[j].ts_us
}

/// Every delta lies within `[-MAX_DELTA, MAX_DELTA]`.
pub open spec fn deltas_bounded(s: Seq<MouseSample>) -> bool {
    forall|i: int|
        0 <= i < s.len() ==> -(MAX_DELTA as int) <= (#[trigger] s[i]).dx <= MAX_DELTA as int
            && -(MAX_DELTA as int) <= s[i].dy <= MAX_DELTA as int
}

/// Every timestamp is at most `t`.
pub open spec fn times_at_most(s: Seq<MouseSample>, t: u64) -> bool {
    forall|i: int| 0 <= i < s.len() ==> (#[trigger] s[i]).ts_us <= t
}

/// Saturate a raw delta on intake.
pub open spec fn clamp_delta_spec(d: int) -> i32 {
    if d > MAX_DELTA as int {
        MAX_DELTA
    } else if d < -(MAX_DELTA as int) {
        (-(MAX_DELTA as int)) as i32
    } else {
        d as i32
    }
}

/// The queue after appending a sample at time `now`, dropping the oldest
/// entry first when at capacity.
pub open spec fn push_spec(s: Seq<MouseSample>, dx: i32, dy: i32, now: u64) -> Seq<MouseSample> {
    let sample = MouseSample { dx: clamp_delta_spec(dx as int), dy: clamp_delta_spec(dy as int), ts_us: now };
    if s.len() >= MAX_SAMPLES {
        s.subrange(1, s.len() as int).push(sample)
    } else {
        s.push(sample)
    }
}

/// The queue after evicting, front to back, every sample whose age at
/// `now` strictly exceeds `window`, stopping at the first live one.
pub open spec fn evict_spec(s: Seq<MouseSample>, now: u64, window: u64) -> Seq<MouseSample>
    decreases s.len(),
{
    if s.len() == 0 {
        s
    } else if now - s[0].ts_us > window {
        evict_spec(s.subrange(1, s.len() as int), now, window)
    } else {
        s
    }
}

/// Unweighted sum of the horizontal deltas.
pub open spec fn sum_dx(s: Seq<MouseSample>) -> int
    decreases s.len(),
{
    if s.len() == 0 {
        0
    } else {
        sum_dx(s.drop_last()) + s.last().dx
    }
}

/// Unweighted sum of the vertical deltas.
pub open spec fn sum_dy(s: Seq<MouseSample>) -> int
    decreases s.len(),
{
    if s.len() == 0 {
        0
    } else {
        sum_dy(s.drop_last()) + s.last().dy
    }
}

/// Eviction removes exactly the samples older than the window and only
/// those; what remains is the suffix of samples still within it.
pub proof fn lemma_evict_exact(s: Seq<MouseSample>, now: u64, window: u64)
    requires
        sorted_by_time(s),
        times_at_most(s, now),
    ensures
        evict_spec(s, now, window).len() <= s.len(),
        evict_spec(s, now, window) == s.subrange(
            s.len() - evict_spec(s, now, window).len(),
            s.len() as int,
        ),
        forall|i: int|
            0 <= i < s.len() - evict_spec(s, now, window).len() ==> now - (#[trigger] s[i]).ts_us
                > window,
        forall|i: int|
            s.len() - evict_spec(s, now, window).len() <= i < s.len() ==> now - (
            #[trigger] s[i]).ts_us <= window,
    decreases s.len(),
{
    let r = evict_spec(s, now, window);
    if s.len() == 0 {
        assert(r =~= s.subrange(0, 0));
    } else if now - s[0].ts_us > window {
        let tail = s.subrange(1, s.len() as int);
        assert(sorted_by_time(tail)) by {
            assert(forall|i: int| 0 <= i < tail.len() ==> #[trigger] tail[i] == s[i + 1]);
        }
        assert(times_at_most(tail, now)) by {
            assert(forall|i: int| 0 <= i < tail.len() ==> #[trigger] tail[i] == s[i + 1]);
        }
        lemma_evict_exact(tail, now, window);
        assert(tail.subrange(tail.len() - r.len(), tail.len() as int) =~= s.subrange(
            s.len() - r.len(),
            s.len() as int,
        ));
        assert(forall|i: int| 1 <= i < s.len() ==> #[trigger] s[i] == tail[i - 1]);
    } else {
        assert(r =~= s.subrange(0, s.len() as int));
        assert(forall|i: int| 0 <= i < s.len() ==> s[0].ts_us <= (#[trigger] s[i]).ts_us);
    }
}

/// The estimator's state: a FIFO queue of samples, ordered by
/// non-decreasing timestamp.
pub struct SampleQueue {
    /// The samples, oldest first.
    pub samples: Vec<MouseSample>,
}

impl SampleQueue {
    /// The sample sequence.
    pub open spec fn view(self) -> Seq<MouseSample> {
        self.samples@
    }

    /// Capacity, delta bounds and time order all hold.
    pub open spec fn wf(self) -> bool {
        &&& self@.len() <= MAX_SAMPLES
        &&& deltas_bounded(self@)
        &&& sorted_by_time(self@)
    }

    /// An empty queue.
    pub fn new() -> (q: SampleQueue)
        ensures
            q@.len() == 0,
            q.wf(),
    {
        SampleQueue { samples: Vec::new() }
    }

    /// Number of samples held.
    pub fn len(&self) -> (n: usize)
        ensures
            n == self@.len(),
    {
        self.samples.len()
    }

    /// Drops all samples.
    pub fn clear(&mut self)
        ensures
            final (self)@.len() == 0,
            final (self).wf(),
    {
        self.samples.clear();
    }

    /// Appends a sample taken at `now`, saturating its deltas and dropping
    /// the oldest sample first if the queue is full.
    pub fn push(&mut self, dx: i32, dy: i32, now: u64)
        requires
            old(self).wf(),
            times_at_most(old(self)@, now),
        ensures
            final (self)@ == push_spec(old(self)@, dx, dy, now),
            final (self).wf(),
            times_at_most(final (self)@, now),
    {
        let cdx = if dx > MAX_DELTA {
            MAX_DELTA
        } else if dx < -MAX_DELTA {
            -MAX_DELTA
        } else {
            dx
        };
        let cdy = if dy > MAX_DELTA {
            MAX_DELTA
        } else if dy < -MAX_DELTA {
            -MAX_DELTA
        } else {
            dy
        };
        let sample = MouseSample { dx: cdx, dy: cdy, ts_us: now };
        if self.samples.len() >= MAX_SAMPLES {
            self.samples.remove(0);
            proof {
                assert(self.samples@ =~= old(self)@.subrange(1, old(self)@.len() as int));
            }
        }
        self.samples.push(sample);
        proof {
            let s = self@;
            assert(forall|i: int| 0 <= i < s.len() - 1 ==> #[trigger] s[i].ts_us <= now);
            assert(forall|i: int, j: int|
                0 <= i <= j < s.len() ==> #[trigger] s[i].ts_us <= #[trigger] s[j].ts_us);
        }
    }

    /// Evicts, front to back, every sample whose age at `now` strictly
    /// exceeds `window`, stopping at the first live one.
    pub fn evict(&mut self, now: u64, window: u64)
        requires
            old(self).wf(),
            times_at_most(old(self)@, now),
        ensures
            final (self)@ == evict_spec(old(self)@, now, window),
            final (self).wf(),
            times_at_most(final (self)@, now),
    {
        let ghost orig = old(self)@;
        while self.samples.len() > 0 && now - self.samples[0].ts_us > window
            invariant
                self.wf(),
                times_at_most(self@, now),
                evict_spec(orig, now, window) == evict_spec(self@, now, window),
            decreases self@.len(),
        {
            let ghost before = self@;
            self.samples.remove(0);
            proof {
                assert(self@ =~= before.subrange(1, before.len() as int));
                assert(forall|i: int| 0 <= i < self@.len() ==> #[trigger] self@[i] == before[i + 1]);
            }
        }
    }

    /// The velocity estimate: the unweighted sums of the held deltas.
    pub fn delta_sums(&self) -> (r: (i64, i64))
        requires
            self.wf(),
        ensures
            r.0 == sum_dx(self@),
            r.1 == sum_dy(self@),
            -(self@.len() * MAX_DELTA as int) <= r.0 <= self@.len() * MAX_DELTA as int,
            -(self@.len() * MAX_DELTA as int) <= r.1 <= self@.len() * MAX_DELTA as int,
    {
        let n = self.samples.len();
        let mut sx: i64 = 0;
        let mut sy: i64 = 0;
        let mut i: usize = 0;
        proof {
            assert(self@.subrange(0, 0) =~= Seq::<MouseSample>::empty());
        }
        while i < n
            invariant
                self.wf(),
                n == self@.len(),
                i <= n,
                sx == sum_dx(self@.subrange(0, i as int)),
                sy == sum_dy(self@.subrange(0, i as int)),
                -(i * MAX_DELTA as int) <= sx <= i * MAX_DELTA as int,
                -(i * MAX_DELTA as int) <= sy <= i * MAX_DELTA as int,
            decreases n - i,
        {
            let s = self.samples[i];
            proof {
                let pre = self@.subrange(0, i as int);
                let post = self@.subrange(0, i as int + 1);
                assert(post.drop_last() =~= pre);
                assert(post.last() == self@[i as int]);
            }
            sx = sx + s.dx as i64;
            sy = sy + s.dy as i64;
            i = i + 1;
        }
        proof {
            assert(self@.subrange(0, n as int) =~= self@);
        }
        (sx, sy)
    }
}

} // verus!
