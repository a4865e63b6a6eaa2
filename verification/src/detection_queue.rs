//! Sliding Detection Queue: a bounded, most-recent-first sequence of boolean
//! detection outcomes for the local agent. A decision escalates to a network
//! broadcast only once a minimum count of recent positive detections is
//! present in the queue.

use vstd::prelude::*;

verus! {

/// The queue contents after pushing `sample` at the front of `q` and
/// truncating to `capacity` entries from the back.
pub open spec fn pushed(q: Seq<bool>, sample: bool, capacity: nat) -> Seq<bool> {
    let grown = seq![sample] + q;
    if grown.len() <= capacity {
        grown
    } else {
        grown.take(capacity as int)
    }
}

/// The queue contents after truncating `q` to at most `capacity` entries,
/// dropping the oldest (backmost) ones.
pub open spec fn truncated(q: Seq<bool>, capacity: nat) -> Seq<bool> {
    if q.len() <= capacity {
        q
    } else {
        q.take(capacity as int)
    }
}

/// The number of true entries in `q`.
pub open spec fn count_true_spec(q: Seq<bool>) -> int
    decreases q.len(),
{
    if q.len() == 0 {
        0
    } else {
        count_true_spec(q.drop_last()) + if q.last() {
            1int
        } else {
            0int
        }
    }
}

/// The queue contents after pushing every entry of `samples`, oldest first,
/// into `init` under capacity `capacity`.
pub open spec fn run_pushes(init: Seq<bool>, samples: Seq<bool>, capacity: nat) -> Seq<bool>
    decreases samples.len(),
{
    if samples.len() == 0 {
        init
    } else {
        pushed(run_pushes(init, samples.drop_last(), capacity), samples.last(), capacity)
    }
}

/// Bounded most-recent-first queue of boolean detection outcomes. The
/// capacity is a read-only configuration parameter injected with each
/// mutation, as the surrounding tick hands in its configuration.
#[derive(Clone, Debug, PartialEq, Eq)]
pub struct DetectionQueue {
    items: Vec<bool>,
}

impl View for DetectionQueue {
    type V = Seq<bool>;

    closed spec fn view(&self) -> Seq<bool> {
        self.items@
    }
}

impl DetectionQueue {
    pub fn new() -> (r: Self)
        ensures
            r@ == Seq::<bool>::empty(),
    {
        DetectionQueue { items: Vec::new() }
    }

    /// An empty queue with storage preallocated for `capacity` entries.
    pub fn with_capacity(capacity: usize) -> (r: Self)
        ensures
            r@ == Seq::<bool>::empty(),
    {
        DetectionQueue { items: Vec::with_capacity(capacity) }
    }

    pub fn len(&self) -> (r: usize)
        ensures
            r == self@.len(),
    {
        self.items.len()
    }

    /// The entry at `index`, 0 being the newest.
    pub fn get(&self, index: usize) -> (r: bool)
        requires
            index < self@.len(),
        ensures
            r == self@[index as int],
    {
        self.items[index]
    }

    /// Insert `sample` at the front (newest position); when the length then
    /// exceeds `capacity`, drop the oldest entries from the back.
    pub fn push(&mut self, sample: bool, capacity: usize)
        ensures
            final(self)@ == pushed(old(self)@, sample, capacity as nat),
    {
        self.items.insert(0, sample);
        proof {
            assert(self.items@ =~= seq![sample] + old(self)@);
        }
        let ghost grown = self.items@;
        self.items.truncate(capacity);
        proof {
            if grown.len() <= capacity {
                assert(self.items@ =~= grown);
            } else {
                assert(self.items@ =~= grown.take(capacity as int));
            }
        }
    }

    /// Drop the oldest entries until at most `capacity` remain.
    pub fn truncate(&mut self, capacity: usize)
        ensures
            final(self)@ == truncated(old(self)@, capacity as nat),
    {
        self.items.truncate(capacity);
        proof {
            if old(self)@.len() <= capacity {
                assert(self.items@ =~= old(self)@);
            }
        }
    }

    /// Count the true entries with a full scan; queue sizes are small and
    /// bounded by configuration.
    pub fn count_true(&self) -> (r: usize)
        ensures
            r == count_true_spec(self@),
    {
        let mut count: usize = 0;
        let mut i: usize = 0;
        while i < self.items.len()
            invariant
                i <= self@.len(),
                count == count_true_spec(self@.take(i as int)),
                count <= i,
            decreases self@.len() - i,
        {
            proof {
                lemma_count_true_take_step(self@, i as int);
            }
            if self.items[i] {
                count = count + 1;
            }
            i = i + 1;
        }
        proof {
            assert(self@.take(self@.len() as int) =~= self@);
        }
        count
    }
}

/// Counting the true entries of a prefix grows by the next entry's value.
pub proof fn lemma_count_true_take_step(q: Seq<bool>, i: int)
    requires
        0 <= i < q.len(),
    ensures
        count_true_spec(q.take(i + 1)) == count_true_spec(q.take(i)) + if q[i] {
            1int
        } else {
            0int
        },
{
    assert(q.take(i + 1).drop_last() =~= q.take(i));
    assert(q.take(i + 1).last() == q[i]);
}

/// Queue bound invariant law: after any sequence of pushes under capacity
/// `capacity`, the queue length is `min(capacity, initial length + number of
/// pushes)`, hence never above `capacity`; and entry `k` (counted from the
/// front) holds the `k`-th most recent sample, so after at least `capacity`
/// pushes the queue holds exactly the `capacity` most recent samples in
/// recency order.
pub proof fn lemma_queue_bound(init: Seq<bool>, samples: Seq<bool>, capacity: nat)
    requires
        init.len() <= capacity,
    ensures
        run_pushes(init, samples, capacity).len() == if init.len() + samples.len() <= capacity {
            (init.len() + samples.len()) as int
        } else {
            capacity as int
        },
        run_pushes(init, samples, capacity).len() <= capacity,
        samples.len() >= capacity ==> run_pushes(init, samples, capacity).len() == capacity,
        forall|k: int|
            0 <= k < run_pushes(init, samples, capacity).len() && k < samples.len()
                ==> #[trigger] run_pushes(init, samples, capacity)[k] == samples[samples.len() - 1
                - k],
    decreases samples.len(),
{
    if samples.len() > 0 {
        lemma_queue_bound(init, samples.drop_last(), capacity);
        let prev = run_pushes(init, samples.drop_last(), capacity);
        let result = run_pushes(init, samples, capacity);
        let grown = seq![samples.last()] + prev;
        assert(result == pushed(prev, samples.last(), capacity));
        assert forall|k: int| 0 <= k < result.len() && k < samples.len() implies #[trigger] result[k]
            == samples[samples.len() - 1 - k] by {
            if k == 0 {
                assert(grown[0] == samples.last());
            } else {
                assert(grown[k] == prev[k - 1]);
                assert(prev[k - 1] == samples.drop_last()[samples.drop_last().len() - 1 - (k - 1)]);
            }
        }
    }
}

} // verus!
