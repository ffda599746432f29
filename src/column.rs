//! One column of the overlay: a group of physical keys merged into a single
//! logical key, with its press counter and transition history.

use vstd::prelude::*;
use vstd::string::StringExecFns;

use crate::config::{ColumnProps, PhysicalKey};
use crate::history::{pushed, History, CAPACITY};

verus! {

/// A raw press or release of one physical key, at an instant in nanoseconds.
#[derive(Debug, Clone, Copy, PartialEq, Eq, Structural)]
pub struct KeyEvent {
    pub key: PhysicalKey,
    pub pressed: bool,
    pub time: u64,
}

/// Mathematical state of a column.
pub struct ColumnState {
    /// Each member key with its pressed flag.
    pub keys: Seq<(PhysicalKey, bool)>,
    pub pressed: bool,
    pub count: u64,
    /// Transition instants, newest first.
    pub times: Seq<u64>,
}

/// Some member is held.
pub open spec fn any_pressed(keys: Seq<(PhysicalKey, bool)>) -> bool {
    exists|i: int| 0 <= i < keys.len() && (#[trigger] keys[i]).1
}

/// No key occurs twice.
pub open spec fn distinct_keys(keys: Seq<(PhysicalKey, bool)>) -> bool {
    forall|i: int, j: int|
        0 <= i < keys.len() && 0 <= j < keys.len() && i != j ==> (#[trigger] keys[i]).0 != (#[trigger] keys[j]).0
}

/// Member states after `e`: the flag of `e.key` becomes `e.pressed`.
pub open spec fn applied(keys: Seq<(PhysicalKey, bool)>, e: KeyEvent) -> Seq<(PhysicalKey, bool)> {
    keys.map_values(|p: (PhysicalKey, bool)| if p.0 == e.key { (p.0, e.pressed) } else { p })
}

/// Counter increment, held at the largest `u64`.
pub open spec fn incremented(n: u64) -> u64 {
    if n < u64::MAX {
        (n + 1) as u64
    } else {
        n
    }
}

/// State of a column after it receives `e`.
pub open spec fn step(m: ColumnState, e: KeyEvent) -> ColumnState {
    let keys = applied(m.keys, e);
    let pressed = any_pressed(keys);
    ColumnState {
        keys,
        pressed,
        count: if !m.pressed && pressed {
            incremented(m.count)
        } else {
            m.count
        },
        times: if pressed != m.pressed {
            pushed(m.times, e.time)
        } else {
            m.times
        },
    }
}

/// Labels joined in order.
pub open spec fn joined(labels: Seq<Seq<char>>) -> Seq<char>
    decreases labels.len(),
{
    if labels.len() == 0 {
        Seq::empty()
    } else {
        joined(labels.drop_last()) + labels.last()
    }
}

/// State of a column after each of `es`, in order.
pub open spec fn replay(m: ColumnState, es: Seq<KeyEvent>) -> ColumnState
    decreases es.len(),
{
    if es.len() == 0 {
        m
    } else {
        step(replay(m, es.drop_last()), es.last())
    }
}

/// A column with no member held, no transition recorded and no press counted.
pub open spec fn fresh(m: ColumnState) -> bool {
    &&& forall|i: int| 0 <= i < m.keys.len() ==> !(#[trigger] m.keys[i]).1
    &&& !m.pressed
    &&& m.count == 0
    &&& m.times.len() == 0
}

proof fn lemma_parity_step(m: ColumnState, e: KeyEvent)
    requires
        m.pressed == any_pressed(m.keys),
        m.times.len() <= CAPACITY,
        m.times.len() < CAPACITY ==> (m.times.len() % 2 == 0 <==> !m.pressed),
    ensures
        step(m, e).pressed == any_pressed(step(m, e).keys),
        step(m, e).times.len() <= CAPACITY,
        step(m, e).times.len() < CAPACITY ==> (step(m, e).times.len() % 2 == 0 <==> !step(m, e).pressed),
{
}

/// Whatever events a fresh column receives, it is held exactly when one
/// of its members is, and as long as no instant has been evicted from its
/// history, the history has even length exactly when the column is
/// released.
pub proof fn lemma_parity(m: ColumnState, es: Seq<KeyEvent>)
    requires
        fresh(m),
    ensures
        replay(m, es).pressed == any_pressed(replay(m, es).keys),
        replay(m, es).times.len() < CAPACITY ==> (replay(m, es).times.len() % 2 == 0
            <==> !replay(m, es).pressed),
{
    lemma_parity_inner(m, es);
}

proof fn lemma_parity_inner(m: ColumnState, es: Seq<KeyEvent>)
    requires
        fresh(m),
    ensures
        replay(m, es).pressed == any_pressed(replay(m, es).keys),
        replay(m, es).times.len() <= CAPACITY,
        replay(m, es).times.len() < CAPACITY ==> (replay(m, es).times.len() % 2 == 0
            <==> !replay(m, es).pressed),
    decreases es.len(),
{
    if es.len() > 0 {
        lemma_parity_inner(m, es.drop_last());
        lemma_parity_step(replay(m, es.drop_last()), es.last());
    }
}

/// Receiving the same key state a second time in a row changes nothing,
/// whatever its instant.
pub proof fn lemma_duplicate_ignored(m: ColumnState, e1: KeyEvent, e2: KeyEvent)
    requires
        e1.key == e2.key,
        e1.pressed == e2.pressed,
    ensures
        step(step(m, e1), e2) == step(m, e1),
{
    let m1 = step(m, e1);
    assert(applied(m1.keys, e2) =~= m1.keys);
}

/// The counter never decreases, and one event raises it by exactly one
/// when it takes the column from released to held, by nothing otherwise,
/// however many members are held at once.
pub proof fn lemma_count_step(m: ColumnState, e: KeyEvent)
    requires
        m.pressed == any_pressed(m.keys),
        m.count < u64::MAX,
    ensures
        step(m, e).count >= m.count,
        step(m, e).count == m.count + if !m.pressed && step(m, e).pressed {
            1int
        } else {
            0int
        },
{
}

/// Over any run of events the counter never decreases.
pub proof fn lemma_count_monotone(m: ColumnState, es: Seq<KeyEvent>)
    ensures
        replay(m, es).count >= m.count,
    decreases es.len(),
{
    if es.len() > 0 {
        lemma_count_monotone(m, es.drop_last());
    }
}

/// State of one column.
#[derive(Debug, Clone)]
pub struct KeyColumn {
    pub name: String,
    /// Number of times the column went from released to held.
    pub count: u64,
    /// Whether some member key is held.
    pub pressed: bool,
    /// Each member key with its pressed flag; no key occurs twice.
    pub pressed_keys: Vec<(PhysicalKey, bool)>,
    pub props: ColumnProps,
    /// Instants of the column's transitions, newest first.
    pub times: History,
}

impl View for KeyColumn {
    type V = ColumnState;

    open spec fn view(&self) -> ColumnState {
        ColumnState {
            keys: self.pressed_keys@,
            pressed: self.pressed,
            count: self.count,
            times: self.times@,
        }
    }
}

impl KeyColumn {
    pub open spec fn wf(&self) -> bool {
        &&& self.times.wf()
        &&& distinct_keys(self.pressed_keys@)
        &&& self.pressed == any_pressed(self.pressed_keys@)
    }

    /// A released column with a zero counter and an empty history, whose
    /// members are the keys of `props`. Without a configured name, the
    /// column is named by joining `key_labels`, the label of each key.
    pub fn new(props: ColumnProps, key_labels: &Vec<String>) -> (r: KeyColumn)
        ensures
            r.wf(),
            r.count == 0,
            !r.pressed,
            r.times@ == Seq::<u64>::empty(),
            forall|i: int| 0 <= i < r.pressed_keys@.len() ==> !(#[trigger] r.pressed_keys@[i]).1,
            forall|k: PhysicalKey|
                props.keys@.contains(k) <==> (exists|i: int|
                    0 <= i < r.pressed_keys@.len() && (#[trigger] r.pressed_keys@[i]).0 == k),
            r.props == props,
            props.name is Some ==> r.name@ == props.name->Some_0@,
            props.name is None ==> r.name@ == joined(key_labels@.map_values(|s: String| s@)),
    {
        let name = match &props.name {
            Some(name) => name.clone(),
            None => {
                let mut s = String::new();
                let mut i: usize = 0;
                while i < key_labels.len()
                    invariant
                        i <= key_labels@.len(),
                        s@ == joined(key_labels@.subrange(0, i as int).map_values(|s: String| s@)),
                    decreases key_labels@.len() - i,
                {
                    let ghost prev = key_labels@.subrange(0, i as int).map_values(|s: String| s@);
                    s.append(key_labels[i].as_str());
                    proof {
                        let next = key_labels@.subrange(0, i as int + 1).map_values(|s: String| s@);
                        assert(next.drop_last() =~= prev);
                    }
                    i = i + 1;
                }
                assert(key_labels@.subrange(0, key_labels@.len() as int) =~= key_labels@);
                s
            }
        };
        let mut pressed_keys: Vec<(PhysicalKey, bool)> = Vec::new();
        let mut i: usize = 0;
        while i < props.keys.len()
            invariant
                i <= props.keys@.len(),
                distinct_keys(pressed_keys@),
                forall|j: int| 0 <= j < pressed_keys@.len() ==> !(#[trigger] pressed_keys@[j]).1,
                forall|k: PhysicalKey|
                    props.keys@.subrange(0, i as int).contains(k) <==> (exists|j: int|
                        0 <= j < pressed_keys@.len() && (#[trigger] pressed_keys@[j]).0 == k),
            decreases props.keys@.len() - i,
        {
            let key = props.keys[i];
            let mut j: usize = 0;
            let mut seen = false;
            while j < pressed_keys.len()
                invariant
                    j <= pressed_keys@.len(),
                    seen <==> exists|l: int| 0 <= l < j && (#[trigger] pressed_keys@[l]).0 == key,
                decreases pressed_keys@.len() - j,
            {
                if pressed_keys[j].0 == key {
                    seen = true;
                }
                j = j + 1;
            }
            let ghost before = pressed_keys@;
            if !seen {
                pressed_keys.push((key, false));
            }
            proof {
                let pre = props.keys@.subrange(0, i as int);
                let post = props.keys@.subrange(0, i as int + 1);
                assert(post =~= pre.push(key));
                assert forall|k: PhysicalKey|
                    post.contains(k) <==> (exists|j: int|
                        0 <= j < pressed_keys@.len() && (#[trigger] pressed_keys@[j]).0 == k) by {
                    if post.contains(k) {
                        if k == key {
                            if !seen {
                                assert(pressed_keys@[before.len() as int].0 == k);
                            }
                        } else {
                            let m = choose|m: int| 0 <= m < post.len() && post[m] == k;
                            assert(pre[m] == k);
                            assert(pre.contains(k));
                            let w = choose|w: int| 0 <= w < before.len() && (#[trigger] before[w]).0 == k;
                            assert(pressed_keys@[w] == before[w]);
                        }
                    }
                    if exists|j: int| 0 <= j < pressed_keys@.len() && (#[trigger] pressed_keys@[j]).0 == k {
                        let w = choose|w: int| 0 <= w < pressed_keys@.len() && (#[trigger] pressed_keys@[w]).0 == k;
                        if w < before.len() {
                            assert(before[w].0 == k);
                            assert(pre.contains(k));
                            let m = choose|m: int| 0 <= m < pre.len() && pre[m] == k;
                            assert(post[m] == k);
                        } else {
                            assert(post[i as int] == k);
                        }
                    }
                }
            }
            i = i + 1;
        }
        assert(props.keys@.subrange(0, props.keys@.len() as int) =~= props.keys@);
        KeyColumn { name, count: 0, pressed: false, pressed_keys, props, times: History::new() }
    }
    /// Applies one raw key event: a key that is no member, or whose flag
    /// already equals `event.pressed`, changes nothing; otherwise the flag
    /// is set, the counter counts a released-to-held transition of the
    /// column, and every transition of the column records `event.time`.
    pub fn set_key_pressed(&mut self, event: KeyEvent)
        requires
            old(self).wf(),
        ensures
            final(self).wf(),
            final(self)@ == step(old(self)@, event),
            final(self).name == old(self).name,
            final(self).props == old(self).props,
    {
        let ghost m = self@;
        let n = self.pressed_keys.len();
        let mut i: usize = n;
        let mut j: usize = 0;
        while j < n
            invariant
                n == self.pressed_keys@.len(),
                j <= n,
                i <= n,
                self@ == m,
                self.wf(),
                i == n ==> forall|l: int| 0 <= l < j ==> (#[trigger] self.pressed_keys@[l]).0 != event.key,
                i < n ==> self.pressed_keys@[i as int].0 == event.key,
            decreases n - j,
        {
            if i == n && self.pressed_keys[j].0 == event.key {
                i = j;
            }
            j = j + 1;
        }
        if i == n {
            assert(applied(m.keys, event) =~= m.keys);
            return;
        }
        assert forall|j: int| 0 <= j < n && j != i implies (#[trigger] m.keys[j]).0 != event.key by {
            assert(m.keys[i as int].0 == event.key);
        }
        if self.pressed_keys[i].1 == event.pressed {
            assert(applied(m.keys, event) =~= m.keys);
            return;
        }
        self.pressed_keys.set(i, (event.key, event.pressed));
        assert(self.pressed_keys@ =~= applied(m.keys, event));

        let prev_pressed = self.pressed;
        let mut any = false;
        j = 0;
        while j < n
            invariant
                n == self.pressed_keys@.len(),
                j <= n,
                any <==> exists|l: int| 0 <= l < j && (#[trigger] self.pressed_keys@[l]).1,
            decreases n - j,
        {
            if self.pressed_keys[j].1 {
                any = true;
            }
            j = j + 1;
        }
        self.pressed = any;
        if !prev_pressed && any && self.count < u64::MAX {
            self.count = self.count + 1;
        }
        if prev_pressed != any {
            self.times.push_front(event.time);
        }
    }
}

} // verus!
