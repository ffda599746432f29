//! Bounded, newest-first log of transition instants, kept in a fixed ring.

use vstd::prelude::*;

verus! {

/// Most instants a history keeps.
pub const CAPACITY: usize = 1024;

/// Slot of the ring that holds logical position `i`, counted from `head`.
spec fn slot(head: int, i: int) -> int {
    if head + i < CAPACITY as int {
        head + i
    } else {
        head + i - CAPACITY as int
    }
}

/// Ring buffer of instants (nanoseconds), newest first, evicting the oldest
/// once `CAPACITY` is reached.
#[derive(Debug, Clone)]
pub struct History {
    buf: Vec<u64>,
    head: usize,
    len: usize,
}

impl View for History {
    type V = Seq<u64>;

    /// The stored instants, newest first.
    closed spec fn view(&self) -> Seq<u64> {
        Seq::new(self.len as nat, |i: int| self.buf@[slot(self.head as int, i)])
    }
}

/// What pushing `t` at the front does to a history of contents `h`.
pub open spec fn pushed(h: Seq<u64>, t: u64) -> Seq<u64> {
    if h.len() < CAPACITY {
        seq![t] + h
    } else {
        seq![t] + h.drop_last()
    }
}

/// Contents after pushing each of `ts`, in order, onto `h`.
pub open spec fn pushed_all(h: Seq<u64>, ts: Seq<u64>) -> Seq<u64>
    decreases ts.len(),
{
    if ts.len() == 0 {
        h
    } else {
        pushed(pushed_all(h, ts.drop_last()), ts.last())
    }
}

/// `ts` newest first.
pub open spec fn newest_first(ts: Seq<u64>) -> Seq<u64>
    decreases ts.len(),
{
    if ts.len() == 0 {
        Seq::empty()
    } else {
        seq![ts.last()] + newest_first(ts.drop_last())
    }
}

proof fn lemma_newest_first_len(ts: Seq<u64>)
    ensures
        newest_first(ts).len() == ts.len(),
    decreases ts.len(),
{
    if ts.len() > 0 {
        lemma_newest_first_len(ts.drop_last());
    }
}

/// Pushing instants keeps exactly the `CAPACITY` most recent of them and
/// of what was there before, newest first.
pub proof fn lemma_keeps_most_recent(h: Seq<u64>, ts: Seq<u64>)
    requires
        h.len() <= CAPACITY,
    ensures
        pushed_all(h, ts) == (newest_first(ts) + h).take(
            if ts.len() + h.len() < CAPACITY {
                (ts.len() + h.len()) as int
            } else {
                CAPACITY as int
            },
        ),
    decreases ts.len(),
{
    if ts.len() > 0 {
        lemma_keeps_most_recent(h, ts.drop_last());
        lemma_newest_first_len(ts.drop_last());
        let all = newest_first(ts) + h;
        let prev = newest_first(ts.drop_last()) + h;
        assert(all =~= seq![ts.last()] + prev);
        let n = if ts.len() + h.len() < CAPACITY {
            (ts.len() + h.len()) as int
        } else {
            CAPACITY as int
        };
        let pn = if ts.len() - 1 + h.len() < CAPACITY {
            (ts.len() - 1 + h.len()) as int
        } else {
            CAPACITY as int
        };
        assert(pushed_all(h, ts) =~= all.take(n)) by {
            let p = prev.take(pn);
            assert(pushed_all(h, ts.drop_last()) == p);
            if p.len() < CAPACITY {
                assert(seq![ts.last()] + p =~= all.take(n));
            } else {
                assert(seq![ts.last()] + p.drop_last() =~= all.take(n));
            }
        }
    }
}

impl History {
    pub closed spec fn wf(&self) -> bool {
        &&& self.buf@.len() == CAPACITY
        &&& self.head < CAPACITY
        &&& self.len <= CAPACITY
    }

    /// A history never holds more than `CAPACITY` instants.
    pub proof fn lemma_bounded(&self)
        requires
            self.wf(),
        ensures
            self@.len() <= CAPACITY,
    {
    }

    /// An empty history.
    pub fn new() -> (r: History)
        ensures
            r.wf(),
            r@ == Seq::<u64>::empty(),
    {
        let buf = vec![0u64; CAPACITY];
        let r = History { buf, head: 0, len: 0 };
        assert(r@ =~= Seq::<u64>::empty());
        r
    }

    /// Number of stored instants.
    pub fn len(&self) -> (r: usize)
        requires
            self.wf(),
        ensures
            r == self@.len(),
    {
        self.len
    }

    /// The `i`-th instant, newest first.
    pub fn get(&self, i: usize) -> (r: u64)
        requires
            self.wf(),
            i < self@.len(),
        ensures
            r == self@[i as int],
    {
        let s = if self.head < CAPACITY - i {
            self.head + i
        } else {
            self.head + i - CAPACITY
        };
        self.buf[s]
    }

    /// Records `t` as the newest instant, dropping the oldest when full.
    pub fn push_front(&mut self, t: u64)
        requires
            old(self).wf(),
        ensures
            final(self).wf(),
            final(self)@ == pushed(old(self)@, t),
            final(self)@.len() <= CAPACITY,
    {
        let ghost h = self@;
        let head = if self.head == 0 {
            CAPACITY - 1
        } else {
            self.head - 1
        };
        self.buf.set(head, t);
        self.head = head;
        if self.len < CAPACITY {
            self.len = self.len + 1;
        }
        assert(self@ =~= pushed(h, t));
    }
}

} // verus!
