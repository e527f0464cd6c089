use std::collections::VecDeque;
use vstd::prelude::*;

verus! {

/// The window after `v` is appended to `s` under capacity `cap`: the oldest
/// value leaves once the window would hold more than `cap` values.
pub open spec fn slide(s: Seq<i64>, v: i64, cap: nat) -> Seq<i64> {
    if s.len() < cap {
        s.push(v)
    } else {
        s.push(v).skip(1)
    }
}

/// The spread of `s` is below `noise`: every value minus every other value
/// is less than `noise`, which is `max(s) - min(s) < noise` for a non-empty `s`.
pub open spec fn spread_below(s: Seq<i64>, noise: int) -> bool {
    forall|i: int, j: int| 0 <= i < s.len() && 0 <= j < s.len() ==> s[i] - s[j] < noise
}

/// A window of capacity `cap` is stable when it is full and its spread is
/// below `noise`.
pub open spec fn stable_spec(s: Seq<i64>, cap: nat, noise: int) -> bool {
    s.len() == cap && spread_below(s, noise)
}

/// The window after each of `vs` is appended in order.
pub open spec fn slide_all(s: Seq<i64>, vs: Seq<i64>, cap: nat) -> Seq<i64>
    decreases vs.len(),
{
    if vs.len() == 0 {
        s
    } else {
        slide(slide_all(s, vs.drop_last(), cap), vs.last(), cap)
    }
}

/// Whatever values are pushed, a window of capacity `cap` holds
/// `min(len + pushed, cap)` values: never more than `cap`, and fewer than
/// `cap` only while too few have been pushed, when it is not stable.
pub proof fn window_never_exceeds_capacity(s: Seq<i64>, vs: Seq<i64>, cap: nat, noise: int)
    requires
        cap > 0,
        s.len() <= cap,
    ensures
        slide_all(s, vs, cap).len() == if s.len() + vs.len() < cap {
            (s.len() + vs.len()) as int
        } else {
            cap as int
        },
        slide_all(s, vs, cap).len() <= cap,
        s.len() + vs.len() < cap ==> !stable_spec(slide_all(s, vs, cap), cap, noise),
    decreases vs.len(),
{
    if vs.len() > 0 {
        window_never_exceeds_capacity(s, vs.drop_last(), cap, noise);
    }
}

/// A window holding fewer values than its capacity is never stable.
pub proof fn short_window_is_unstable(s: Seq<i64>, cap: nat, noise: int)
    requires
        s.len() < cap,
    ensures
        !stable_spec(s, cap, noise),
{
}

/// Fixed-capacity sliding window of the most recent calibrated readings,
/// oldest first.
pub struct StabilityWindow {
    values: VecDeque<i64>,
    capacity: usize,
    max_noise: i64,
}

impl View for StabilityWindow {
    type V = Seq<i64>;

    closed spec fn view(&self) -> Seq<i64> {
        self.values@
    }
}

impl StabilityWindow {
    pub closed spec fn spec_capacity(&self) -> nat {
        self.capacity as nat
    }

    pub closed spec fn spec_max_noise(&self) -> int {
        self.max_noise as int
    }

    /// The capacity is positive and the window never holds more values than it.
    pub open spec fn wf(&self) -> bool {
        &&& self.spec_capacity() > 0
        &&& self@.len() <= self.spec_capacity()
    }

    /// An empty window of the given capacity and noise threshold.
    pub fn new(capacity: usize, max_noise: i64) -> (r: StabilityWindow)
        requires
            capacity > 0,
        ensures
            r.wf(),
            r@ == Seq::<i64>::empty(),
            r.spec_capacity() == capacity,
            r.spec_max_noise() == max_noise,
    {
        StabilityWindow { values: VecDeque::with_capacity(capacity), capacity, max_noise }
    }

    pub fn capacity(&self) -> (r: usize)
        ensures
            r == self.spec_capacity(),
    {
        self.capacity
    }

    pub fn max_noise(&self) -> (r: i64)
        ensures
            r == self.spec_max_noise(),
    {
        self.max_noise
    }

    pub fn len(&self) -> (r: usize)
        ensures
            r == self@.len(),
    {
        self.values.len()
    }

    /// The most recent value, if any.
    pub fn last(&self) -> (r: Option<i64>)
        ensures
            self@.len() == 0 ==> r == None::<i64>,
            self@.len() > 0 ==> r == Some(self@.last()),
    {
        let n = self.values.len();
        if n == 0 {
            None
        } else {
            Some(self.values[n - 1])
        }
    }

    /// The window as a vector, oldest first.
    pub fn to_vec(&self) -> (r: Vec<i64>)
        ensures
            r@ == self@,
    {
        let mut out: Vec<i64> = Vec::with_capacity(self.values.len());
        let mut i: usize = 0;
        while i < self.values.len()
            invariant
                i <= self@.len(),
                out@ == self@.subrange(0, i as int),
            decreases self@.len() - i,
        {
            out.push(self.values[i]);
            i = i + 1;
            assert(out@ =~= self@.subrange(0, i as int));
        }
        assert(out@ =~= self@);
        out
    }

    /// Appends `value`, evicting the oldest value once the window is over capacity.
    pub fn push(&mut self, value: i64)
        requires
            old(self).wf(),
        ensures
            final(self).wf(),
            final(self)@ == slide(old(self)@, value, old(self).spec_capacity()),
            final(self).spec_capacity() == old(self).spec_capacity(),
            final(self).spec_max_noise() == old(self).spec_max_noise(),
    {
        if self.values.len() >= self.capacity {
            self.values.pop_front();
        }
        self.values.push_back(value);
        proof {
            assert(self@ =~= slide(old(self)@, value, old(self).spec_capacity()));
        }
    }

    /// Empties the window; capacity and threshold are kept.
    pub fn clear(&mut self)
        requires
            old(self).wf(),
        ensures
            final(self).wf(),
            final(self)@ == Seq::<i64>::empty(),
            final(self).spec_capacity() == old(self).spec_capacity(),
            final(self).spec_max_noise() == old(self).spec_max_noise(),
    {
        self.values.clear();
    }

    /// True iff the window is full and `max - min < max_noise` over its values.
    pub fn is_stable(&self) -> (r: bool)
        requires
            self.wf(),
        ensures
            r == stable_spec(self@, self.spec_capacity(), self.spec_max_noise()),
    {
        let n = self.values.len();
        if n != self.capacity {
            return false;
        }
        let mut hi: i64 = self.values[0];
        let mut lo: i64 = self.values[0];
        let ghost mut hi_at: int = 0;
        let ghost mut lo_at: int = 0;
        let mut i: usize = 1;
        while i < n
            invariant
                n == self@.len(),
                n > 0,
                1 <= i <= n,
                0 <= hi_at < i,
                0 <= lo_at < i,
                hi == self@[hi_at],
                lo == self@[lo_at],
                forall|k: int| 0 <= k < i ==> lo <= #[trigger] self@[k] <= hi,
            decreases n - i,
        {
            let v = self.values[i];
            if v > hi {
                hi = v;
                proof { hi_at = i as int; }
            }
            if v < lo {
                lo = v;
                proof { lo_at = i as int; }
            }
            i = i + 1;
        }
        let r = (hi as i128) - (lo as i128) < (self.max_noise as i128);
        proof {
            if r {
                assert forall|a: int, b: int| 0 <= a < self@.len() && 0 <= b < self@.len() implies
                    self@[a] - self@[b] < self.spec_max_noise() by {
                    assert(lo <= self@[a] <= hi);
                    assert(lo <= self@[b] <= hi);
                }
            } else {
                assert(self@[hi_at] - self@[lo_at] >= self.spec_max_noise());
            }
        }
        r
    }
}

} // verus!
