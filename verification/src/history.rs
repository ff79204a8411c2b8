//! The bounded history: a fixed-capacity, insertion-ordered window of
//! samples. When full, every append first evicts the oldest entry, so the
//! window always holds the most recent `capacity` samples, oldest first.
//!
//! One writer owns `append`; readers take `snapshot`, a copy of the whole
//! window. The caller serialises the two through a lock; each operation
//! leaves the buffer in a fully formed state, never mid-mutation.

use vstd::prelude::*;
use crate::stats::{Stats, StatsView};

verus! {

/// The window content after appending `s` to `hist` under capacity `cap`:
/// a plain push while room is left, otherwise the oldest entry goes first.
pub open spec fn push_window(hist: Seq<StatsView>, s: StatsView, cap: int) -> Seq<StatsView> {
    if hist.len() < cap {
        hist.push(s)
    } else {
        hist.skip(1).push(s)
    }
}

/// The window that results from appending `appends`, in order, into an
/// empty buffer of capacity `cap`.
pub open spec fn window_of(appends: Seq<StatsView>, cap: int) -> Seq<StatsView>
    decreases appends.len(),
{
    if appends.len() == 0 {
        Seq::empty()
    } else {
        push_window(window_of(appends.drop_last(), cap), appends.last(), cap)
    }
}

/// The strict FIFO window law: any sequence of appends into an empty buffer
/// of capacity `cap` leaves exactly the last `cap` appended samples, in
/// append order — all of them while no more than `cap` have been appended.
pub proof fn lemma_window_content(appends: Seq<StatsView>, cap: int)
    requires
        cap > 0,
    ensures
        appends.len() > cap ==> window_of(appends, cap) == appends.skip(appends.len() - cap),
        appends.len() <= cap ==> window_of(appends, cap) == appends,
        window_of(appends, cap).len() == if appends.len() <= cap {
            appends.len() as int
        } else {
            cap
        },
    decreases appends.len(),
{
    if appends.len() == 0 {
    } else {
        let front = appends.drop_last();
        lemma_window_content(front, cap);
        if appends.len() <= cap {
            assert(window_of(appends, cap) =~= appends);
        } else if appends.len() == cap + 1 {
            assert(window_of(appends, cap) =~= appends.skip(1));
        } else {
            assert(window_of(appends, cap) =~= appends.skip(appends.len() - cap));
        }
    }
}

/// An append never shrinks the window below its previous length, and once
/// the window has reached `cap - 1` entries it never again falls under
/// `cap - 1`: a reader seeing only pre- or post-append states never sees the
/// window lose ground.
pub proof fn lemma_append_never_shrinks(hist: Seq<StatsView>, s: StatsView, cap: int)
    requires
        cap > 0,
        hist.len() <= cap,
    ensures
        push_window(hist, s, cap).len() == if hist.len() < cap {
            hist.len() + 1
        } else {
            cap as nat
        },
        push_window(hist, s, cap).len() >= hist.len(),
        hist.len() >= cap - 1 ==> push_window(hist, s, cap).len() >= cap - 1,
{
}

/// The bounded, insertion-ordered sample history.
pub struct HistoryBuffer {
    samples: Vec<Stats>,
    capacity: usize,
}

impl View for HistoryBuffer {
    type V = Seq<StatsView>;

    closed spec fn view(&self) -> Seq<StatsView> {
        self.samples.deep_view()
    }
}

impl HistoryBuffer {
    /// The fixed history depth this buffer was created with.
    pub closed spec fn capacity_spec(&self) -> int {
        self.capacity as int
    }

    /// The buffer never holds more than its capacity.
    pub open spec fn wf(&self) -> bool {
        self@.len() <= self.capacity_spec() && self.capacity_spec() > 0
    }

    /// An empty history retaining at most `history_depth` samples.
    pub fn new(history_depth: usize) -> (r: Self)
        requires
            history_depth > 0,
        ensures
            r.wf(),
            r@ == Seq::<StatsView>::empty(),
            r.capacity_spec() == history_depth,
    {
        let r = HistoryBuffer { samples: Vec::new(), capacity: history_depth };
        proof {
            assert(r@ =~= Seq::<StatsView>::empty());
        }
        r
    }

    /// The configured history depth.
    pub fn capacity(&self) -> (c: usize)
        ensures
            c == self.capacity_spec(),
    {
        self.capacity
    }

    /// How many samples the window currently holds.
    pub fn len(&self) -> (l: usize)
        ensures
            l == self@.len(),
    {
        self.samples.len()
    }

    /// Appends one sample, first evicting the oldest when the window is
    /// full.
    pub fn append(&mut self, sample: Stats)
        requires
            old(self).wf(),
        ensures
            final(self).wf(),
            final(self).capacity_spec() == old(self).capacity_spec(),
            final(self)@ == push_window(old(self)@, sample@, old(self).capacity_spec()),
    {
        if self.samples.len() == self.capacity {
            self.samples.remove(0);
        }
        self.samples.push(sample);
        proof {
            assert(self@ =~= push_window(old(self)@, sample@, old(self).capacity_spec()));
        }
    }

    /// A copy of the whole current window, oldest first.
    pub fn snapshot(&self) -> (r: Vec<Stats>)
        ensures
            r.deep_view() == self@,
    {
        let mut r: Vec<Stats> = Vec::new();
        let n = self.samples.len();
        let mut i: usize = 0;
        while i < n
            invariant
                i <= n,
                n == self.samples@.len(),
                r@.len() == i,
                forall|j: int| 0 <= j < i ==> r@[j]@ == self.samples@[j]@,
            decreases n - i,
        {
            r.push(self.samples[i].clone());
            i = i + 1;
        }
        proof {
            assert(r.deep_view() =~= self@);
        }
        r
    }
}

} // verus!
