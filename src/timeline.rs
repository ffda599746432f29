//! Reconstruction of held intervals from a column's transition history.

use vstd::prelude::*;

use crate::column::KeyColumn;

verus! {

/// Time between `now` and `t`, in nanoseconds, whichever comes first.
pub open spec fn elapsed(now: u64, t: u64) -> nat {
    if t >= now {
        (t - now) as nat
    } else {
        (now - t) as nat
    }
}

/// Number of held intervals in a history `times` (newest first): the
/// newest is open at the query instant when the column is held.
pub open spec fn interval_count(times: Seq<u64>, pressed: bool) -> nat {
    if pressed {
        ((times.len() + 1) / 2) as nat
    } else {
        (times.len() / 2) as nat
    }
}

/// The `k`-th held interval `(start, end)`, newest first. While held, the
/// newest starts at the newest instant and ends at `now`; the others pair
/// each press with the release that follows it.
pub open spec fn interval(times: Seq<u64>, pressed: bool, now: u64, k: int) -> (u64, u64) {
    if pressed {
        if k == 0 {
            (times[0], now)
        } else {
            (times[2 * k], times[2 * k - 1])
        }
    } else {
        (times[2 * k + 1], times[2 * k])
    }
}

/// All held intervals, newest first.
pub open spec fn intervals(times: Seq<u64>, pressed: bool, now: u64) -> Seq<(u64, u64)> {
    Seq::new(interval_count(times, pressed), |k: int| interval(times, pressed, now, k))
}

/// Distance between two instants, in nanoseconds.
pub fn duration_between(now: u64, t: u64) -> (r: u64)
    ensures
        r == elapsed(now, t),
{
    if t >= now {
        t - now
    } else {
        now - t
    }
}

impl KeyColumn {
    /// Number of held intervals in the history.
    pub fn interval_count(&self) -> (r: usize)
        requires
            self.wf(),
        ensures
            r == interval_count(self.times@, self.pressed),
    {
        proof {
            self.times.lemma_bounded();
        }
        let n = self.times.len();
        if self.pressed {
            (n + 1) / 2
        } else {
            n / 2
        }
    }

    /// The `k`-th held interval, newest first, with `now` closing an open one.
    pub fn interval_at(&self, now: u64, k: usize) -> (r: (u64, u64))
        requires
            self.wf(),
            k < interval_count(self.times@, self.pressed),
        ensures
            r == interval(self.times@, self.pressed, now, k as int),
    {
        proof {
            self.times.lemma_bounded();
        }
        if self.pressed {
            if k == 0 {
                (self.times.get(0), now)
            } else {
                (self.times.get(2 * k), self.times.get(2 * k - 1))
            }
        } else {
            (self.times.get(2 * k + 1), self.times.get(2 * k))
        }
    }

    /// Every held interval, newest first, with `now` closing an open one.
    pub fn intervals(&self, now: u64) -> (r: Vec<(u64, u64)>)
        requires
            self.wf(),
        ensures
            r@ == intervals(self.times@, self.pressed, now),
    {
        let n = self.interval_count();
        let mut r: Vec<(u64, u64)> = Vec::new();
        let mut k: usize = 0;
        while k < n
            invariant
                self.wf(),
                n == interval_count(self.times@, self.pressed),
                k <= n,
                r@ =~= intervals(self.times@, self.pressed, now).subrange(0, k as int),
            decreases n - k,
        {
            r.push(self.interval_at(now, k));
            k = k + 1;
        }
        r
    }
}

} // verus!
