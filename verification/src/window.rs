//! Bounded sliding time-series buffer backing the scrolling frequency
//! chart: a FIFO of `(x, y)` samples together with the chart domain
//! `(x_start, x_end)`. The domain grows while the buffer fills; once
//! full, both bounds slide forward by one per push and the oldest
//! sample is evicted (a strip chart).
//!
//! Domain convention: `x_end - x_start` always equals the number of
//! samples held, so the width is `capacity` from the moment the buffer
//! is full onward.

use vstd::prelude::*;
use vstd::math::min;

verus! {

/// One chart point: `x` is a monotonically assigned sequence position,
/// `y` a sensor reading.
#[derive(Clone, Copy, PartialEq, Eq, Structural, Debug)]
pub struct Sample {
    pub x: u64,
    pub y: u64,
}

/// Mathematical state of a window: the samples as `(x, y)` pairs over
/// unbounded integers, the capacity, and the chart domain.
#[verifier::ext_equal]
pub struct WindowModel {
    pub samples: Seq<(int, u64)>,
    pub capacity: nat,
    pub x_start: int,
    pub x_end: int,
}

/// Well-formedness of a window model: the buffer respects the
/// capacity, the domain width equals the number of samples held, and
/// sample `i` sits at position `x_start + i`.
pub open spec fn wf_model(m: WindowModel) -> bool {
    &&& m.capacity >= 1
    &&& m.samples.len() <= m.capacity
    &&& m.x_start >= 0
    &&& m.x_end - m.x_start == m.samples.len()
    &&& forall|i: int| 0 <= i < m.samples.len() ==> (#[trigger] m.samples[i]).0 == m.x_start + i
}

/// The window as first created: empty, with the domain collapsed at 0.
pub open spec fn empty_model(capacity: nat) -> WindowModel {
    WindowModel { samples: Seq::empty(), capacity: capacity, x_start: 0, x_end: 0 }
}

/// One push: append `(x_end, y)`; on overflow evict the oldest sample
/// and slide both domain bounds, otherwise grow the domain at the end.
pub open spec fn push_model(m: WindowModel, y: u64) -> WindowModel {
    let appended = m.samples.push((m.x_end, y));
    if appended.len() > m.capacity {
        WindowModel {
            samples: appended.drop_first(),
            capacity: m.capacity,
            x_start: m.x_start + 1,
            x_end: m.x_end + 1,
        }
    } else {
        WindowModel {
            samples: appended,
            capacity: m.capacity,
            x_start: m.x_start,
            x_end: m.x_end + 1,
        }
    }
}

/// All of `ys` pushed in order, oldest first.
pub open spec fn push_all_model(m: WindowModel, ys: Seq<u64>) -> WindowModel
    decreases ys.len(),
{
    if ys.len() == 0 {
        m
    } else {
        push_all_model(push_model(m, ys.first()), ys.drop_first())
    }
}

/// One push preserves well-formedness and admits exactly one sample,
/// evicting one iff the buffer was already full.
pub proof fn lemma_push_model(m: WindowModel, y: u64)
    requires
        wf_model(m),
    ensures
        wf_model(push_model(m, y)),
        push_model(m, y).samples.len() == min(m.samples.len() + 1int, m.capacity as int),
        push_model(m, y).capacity == m.capacity,
        push_model(m, y).x_end == m.x_end + 1,
{
    let p = push_model(m, y);
    let appended = m.samples.push((m.x_end, y));
    if appended.len() > m.capacity {
        assert forall|i: int| 0 <= i < p.samples.len() implies (#[trigger] p.samples[i]).0
            == p.x_start + i by {
            assert(p.samples[i] == appended[i + 1]);
        }
    }
}

/// Window bound: after any sequence of `n` pushes into a fresh window
/// of capacity `c`, the buffer holds exactly `min(n, c)` samples.
pub proof fn lemma_window_bound(c: nat, ys: Seq<u64>)
    requires
        c >= 1,
    ensures
        push_all_model(empty_model(c), ys).samples.len() == min(ys.len() as int, c as int),
{
    lemma_push_all_model(empty_model(c), ys);
}

/// Generalized window bound: pushing `ys` into any well-formed window
/// yields a well-formed window holding `min(len + |ys|, capacity)`
/// samples, with the upper domain bound advanced once per push.
pub proof fn lemma_push_all_model(m: WindowModel, ys: Seq<u64>)
    requires
        wf_model(m),
    ensures
        wf_model(push_all_model(m, ys)),
        push_all_model(m, ys).samples.len() == min(
            m.samples.len() + ys.len() as int,
            m.capacity as int,
        ),
        push_all_model(m, ys).capacity == m.capacity,
        push_all_model(m, ys).x_end == m.x_end + ys.len(),
    decreases ys.len(),
{
    if ys.len() > 0 {
        lemma_push_model(m, ys.first());
        lemma_push_all_model(push_model(m, ys.first()), ys.drop_first());
    }
}

/// Window sliding: once the buffer is full, each further push moves
/// `x_start` and `x_end` up by exactly 1, so the domain width stays
/// constant at `capacity`.
pub proof fn lemma_window_sliding(m: WindowModel, y: u64)
    requires
        wf_model(m),
        m.samples.len() == m.capacity,
    ensures
        push_model(m, y).x_start == m.x_start + 1,
        push_model(m, y).x_end == m.x_end + 1,
        push_model(m, y).x_end - push_model(m, y).x_start == m.x_end - m.x_start,
        push_model(m, y).samples.len() == m.capacity,
{
    lemma_push_model(m, y);
}

/// Bounded FIFO of chart samples with its domain bounds. `push` is the
/// only mutator; the buffer never exceeds `capacity` and never shrinks
/// except by evicting its oldest sample.
pub struct TimeSeriesWindow {
    samples: Vec<Sample>,
    capacity: usize,
    x_start: u64,
    x_end: u64,
}

impl View for TimeSeriesWindow {
    type V = WindowModel;

    closed spec fn view(&self) -> WindowModel {
        WindowModel {
            samples: Seq::new(
                self.samples@.len(),
                |i: int| (self.samples@[i].x as int, self.samples@[i].y),
            ),
            capacity: self.capacity as nat,
            x_start: self.x_start as int,
            x_end: self.x_end as int,
        }
    }
}

impl TimeSeriesWindow {
    pub open spec fn wf(&self) -> bool {
        wf_model(self@)
    }

    pub fn new(capacity: usize) -> (r: Self)
        requires
            capacity >= 1,
        ensures
            r@ == empty_model(capacity as nat),
            r.wf(),
    {
        let r = Self { samples: Vec::new(), capacity, x_start: 0, x_end: 0 };
        proof {
            assert(r@ =~= empty_model(capacity as nat));
        }
        r
    }

    /// Admit one reading: append `(x_end, y)` and enforce the capacity
    /// bound, evicting the oldest sample and sliding the domain when
    /// the buffer was already full.
    pub fn push(&mut self, y: u64)
        requires
            old(self).wf(),
            old(self).x_end() < u64::MAX,
        ensures
            final(self)@ == push_model(old(self)@, y),
            final(self).wf(),
    {
        proof {
            lemma_push_model(old(self)@, y);
        }
        let x = self.x_end;
        self.samples.push(Sample { x, y });
        if self.samples.len() > self.capacity {
            self.samples.remove(0);
            self.x_start = self.x_start + 1;
            self.x_end = self.x_end + 1;
        } else {
            self.x_end = self.x_end + 1;
        }
        proof {
            assert(self@.samples =~= push_model(old(self)@, y).samples);
            assert(self@ =~= push_model(old(self)@, y));
        }
    }

    pub fn len(&self) -> (r: usize)
        ensures
            r == self@.samples.len(),
    {
        self.samples.len()
    }

    pub fn capacity(&self) -> (r: usize)
        ensures
            r == self@.capacity,
    {
        self.capacity
    }

    /// The chart domain `(x_start, x_end)`.
    pub fn domain(&self) -> (r: (u64, u64))
        ensures
            r.0 == self@.x_start,
            r.1 == self@.x_end,
    {
        (self.x_start, self.x_end)
    }

    pub open spec fn x_end(&self) -> int {
        self@.x_end
    }

    pub fn sample_at(&self, i: usize) -> (r: Sample)
        requires
            i < self@.samples.len(),
        ensures
            r.x == self@.samples[i as int].0,
            r.y == self@.samples[i as int].1,
    {
        self.samples[i]
    }
}

} // verus!
