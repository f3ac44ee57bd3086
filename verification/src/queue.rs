//! A release queue ordered by virtual time.
//!
//! Items are kept sorted ascending by their release timestamp; items that
//! share a timestamp keep their insertion order (stable FIFO tie-break).
use vstd::prelude::*;

verus! {

/// A timestamp in milliseconds of virtual time.
pub type Millis = u64;

/// A duration in milliseconds of virtual time.
pub type MillisDuration = u64;

/// One queued payload, keyed by the virtual time at which it becomes due.
#[derive(Debug, PartialEq, Eq)]
pub struct Item<T> {
    /// The virtual time at which the item was enqueued (kept for diagnostics).
    pub added_at_absolute_time: Millis,
    /// The virtual time at or after which the item may be released.
    pub absolute_time: Millis,
    /// The payload itself.
    pub data: T,
}

/// A queue of items sorted ascending by `absolute_time`, with a stable
/// FIFO tie-break for equal timestamps.
pub struct TimeOrderedQueue<T> {
    items: Vec<Item<T>>,
}

/// The sequence is sorted ascending by release time.
pub open spec fn sorted_by_release<T>(s: Seq<Item<T>>) -> bool {
    forall|i: int, j: int| 0 <= i <= j < s.len() ==> s[i].absolute_time <= s[j].absolute_time
}

/// Every item's release time lies at or after the time it was added.
pub open spec fn valid_items<T>(s: Seq<Item<T>>) -> bool {
    forall|i: int| 0 <= i < s.len() ==> s[i].added_at_absolute_time <= s[i].absolute_time
}

/// The index at which a push with release time `t` lands: directly after
/// every existing item whose release time is less than or equal to `t`.
pub open spec fn insertion_point<T>(s: Seq<Item<T>>, t: Millis) -> int
    decreases s.len(),
{
    if s.len() == 0 {
        0
    } else if s[0].absolute_time <= t {
        1 + insertion_point(s.drop_first(), t)
    } else {
        0
    }
}

impl<T> View for TimeOrderedQueue<T> {
    type V = Seq<Item<T>>;

    closed spec fn view(&self) -> Seq<Item<T>> {
        self.items@
    }
}

impl<T> TimeOrderedQueue<T> {
    /// The queue's invariant: its items stand sorted by release time, and
    /// no item is due before it was added.
    pub open spec fn wf(&self) -> bool {
        sorted_by_release(self@) && valid_items(self@)
    }

    pub fn new() -> (r: Self)
        ensures
            r@ == Seq::<Item<T>>::empty(),
            r.wf(),
    {
        Self { items: Vec::new() }
    }

    pub fn len(&self) -> (r: usize)
        ensures
            r == self@.len(),
    {
        self.items.len()
    }

    pub fn is_empty(&self) -> (r: bool)
        ensures
            r <==> self@.len() == 0,
    {
        self.items.is_empty()
    }

    /// Inserts the payload at the sort position determined by binary search
    /// on `absolute_time`; an item whose release time equals that of existing
    /// items is placed strictly after all of them.
    pub fn push(&mut self, now: Millis, absolute_time: Millis, data: T)
        requires
            old(self).wf(),
            now <= absolute_time,
        ensures
            final(self).wf(),
            final(self)@ == old(self)@.insert(
                insertion_point(old(self)@, absolute_time),
                (Item { added_at_absolute_time: now, absolute_time, data }),
            ),
    {
        let ghost s = self.items@;
        let mut lo: usize = 0;
        let mut hi: usize = self.items.len();
        while lo < hi
            invariant
                lo <= hi <= self.items@.len(),
                self.items@ == s,
                sorted_by_release(s),
                forall|k: int| 0 <= k < lo ==> s[k].absolute_time <= absolute_time,
                forall|k: int| hi <= k < s.len() ==> s[k].absolute_time > absolute_time,
            decreases hi - lo,
        {
            let mid = lo + (hi - lo) / 2;
            if self.items[mid].absolute_time <= absolute_time {
                lo = mid + 1;
            } else {
                hi = mid;
            }
        }
        proof {
            lemma_insertion_point_unique(s, absolute_time, lo as int);
        }
        let item = Item { added_at_absolute_time: now, absolute_time, data };
        self.items.insert(lo, item);
        proof {
            lemma_sorted_after_insert(s, item);
            s.insert_ensures(lo as int, item);
            assert forall|k: int| 0 <= k < self.items@.len()
                implies self.items@[k].added_at_absolute_time <= self.items@[k].absolute_time by {
                if k < lo {
                    assert(self.items@[k] == s[k]);
                } else if k > lo {
                    assert(self.items@[k] == s[k - 1]);
                }
            }
        }
    }

    /// Returns and removes the earliest item, but only if it is due at
    /// `absolute_time`; leaves the queue unchanged otherwise. A popped item
    /// never has a release time in the future, and a pop shrinks the queue
    /// by exactly one item.
    pub fn pop_ready(&mut self, absolute_time: Millis) -> (r: Option<Item<T>>)
        requires
            old(self).wf(),
        ensures
            final(self).wf(),
            match r {
                Some(item) => {
                    &&& old(self)@.len() > 0
                    &&& item == old(self)@[0]
                    &&& item.absolute_time <= absolute_time
                    &&& final(self)@ == old(self)@.drop_first()
                    &&& final(self)@.len() + 1 == old(self)@.len()
                },
                None => {
                    &&& final(self)@ == old(self)@
                    &&& (old(self)@.len() == 0 || old(self)@[0].absolute_time > absolute_time)
                },
            },
    {
        if self.items.len() == 0 {
            return None;
        }
        if self.items[0].absolute_time > absolute_time {
            None
        } else {
            let item = self.items.remove(0);
            proof {
                assert(self.items@ =~= old(self)@.drop_first());
            }
            Some(item)
        }
    }
}

/// How far an item with release time `t` would land from the front: every
/// index below the insertion point holds a release time at or before `t`,
/// every index at or beyond it holds a strictly later one.
pub proof fn lemma_insertion_point_split<T>(s: Seq<Item<T>>, t: Millis)
    requires
        sorted_by_release(s),
    ensures
        0 <= insertion_point(s, t) <= s.len(),
        forall|k: int| 0 <= k < insertion_point(s, t) ==> s[k].absolute_time <= t,
        forall|k: int| insertion_point(s, t) <= k < s.len() ==> s[k].absolute_time > t,
    decreases s.len(),
{
    if s.len() == 0 {
    } else if s[0].absolute_time <= t {
        assert forall|i: int, j: int| 0 <= i <= j < s.drop_first().len()
            implies s.drop_first()[i].absolute_time <= s.drop_first()[j].absolute_time by {
            assert(s.drop_first()[i] == s[i + 1]);
            assert(s.drop_first()[j] == s[j + 1]);
        }
        lemma_insertion_point_split(s.drop_first(), t);
        assert forall|k: int| 0 <= k < insertion_point(s, t) implies s[k].absolute_time <= t by {
            if k > 0 {
                assert(s.drop_first()[k - 1] == s[k]);
            }
        }
        assert forall|k: int| insertion_point(s, t) <= k < s.len()
            implies s[k].absolute_time > t by {
            assert(s.drop_first()[k - 1] == s[k]);
        }
    }
}

/// The insertion point is the only index that splits a sorted sequence into
/// a prefix due at or before `t` and a suffix due strictly after it.
pub proof fn lemma_insertion_point_unique<T>(s: Seq<Item<T>>, t: Millis, i: int)
    requires
        sorted_by_release(s),
        0 <= i <= s.len(),
        forall|k: int| 0 <= k < i ==> s[k].absolute_time <= t,
        forall|k: int| i <= k < s.len() ==> s[k].absolute_time > t,
    ensures
        insertion_point(s, t) == i,
{
    lemma_insertion_point_split(s, t);
    let ip = insertion_point(s, t);
    if ip < i {
        assert(s[ip].absolute_time <= t);
        assert(s[ip].absolute_time > t);
    }
    if i < ip {
        assert(s[i].absolute_time <= t);
        assert(s[i].absolute_time > t);
    }
}

/// Inserting an item at its insertion point keeps the sequence sorted.
pub proof fn lemma_sorted_after_insert<T>(s: Seq<Item<T>>, item: Item<T>)
    requires
        sorted_by_release(s),
    ensures
        sorted_by_release(s.insert(insertion_point(s, item.absolute_time), item)),
{
    let t = item.absolute_time;
    let ip = insertion_point(s, t);
    lemma_insertion_point_split(s, t);
    s.insert_ensures(ip, item);
    let r = s.insert(ip, item);
    assert forall|i: int, j: int| 0 <= i <= j < r.len()
        implies r[i].absolute_time <= r[j].absolute_time by {
        if i < ip {
            assert(r[i] == s[i]);
        } else if i > ip {
            assert(r[i] == s[i - 1]);
        }
        if j < ip {
            assert(r[j] == s[j]);
        } else if j > ip {
            assert(r[j] == s[j - 1]);
        }
    }
}

/// After an item is inserted at its insertion point, a further push with
/// the same release time lands directly after it.
pub proof fn lemma_insertion_point_after_insert<T>(s: Seq<Item<T>>, item: Item<T>)
    requires
        sorted_by_release(s),
    ensures
        insertion_point(
            s.insert(insertion_point(s, item.absolute_time), item),
            item.absolute_time,
        ) == insertion_point(s, item.absolute_time) + 1,
{
    let t = item.absolute_time;
    let i = insertion_point(s, t);
    lemma_insertion_point_split(s, t);
    s.insert_ensures(i, item);
    let s1 = s.insert(i, item);
    lemma_sorted_after_insert(s, item);
    assert forall|k: int| 0 <= k < i + 1 implies s1[k].absolute_time <= t by {
        if k < i {
            assert(s1[k] == s[k]);
        }
    }
    assert forall|k: int| i + 1 <= k < s1.len() implies s1[k].absolute_time > t by {
        assert(s1[k] == s[k - 1]);
    }
    lemma_insertion_point_unique(s1, t, i + 1);
}

/// Law: a well-formed queue holds its items in non-decreasing release-time
/// order, so successive due-pops release items in non-decreasing
/// `absolute_time` order.
pub proof fn lemma_release_order<T>(q: &TimeOrderedQueue<T>, i: int, j: int)
    requires
        q.wf(),
        0 <= i <= j < q@.len(),
    ensures
        q@[i].absolute_time <= q@[j].absolute_time,
{
}

/// Law: of two items pushed with the same release time, the one pushed
/// first stands strictly before the one pushed second, so it is popped
/// first (stable FIFO tie-break).
pub proof fn lemma_push_stable<T>(
    s: Seq<Item<T>>,
    now1: Millis,
    now2: Millis,
    t: Millis,
    a: T,
    b: T,
)
    requires
        sorted_by_release(s),
    ensures
        ({
            let first = (Item { added_at_absolute_time: now1, absolute_time: t, data: a });
            let second = (Item { added_at_absolute_time: now2, absolute_time: t, data: b });
            let s1 = s.insert(insertion_point(s, t), first);
            let s2 = s1.insert(insertion_point(s1, t), second);
            let i = insertion_point(s, t);
            &&& insertion_point(s1, t) == i + 1
            &&& s2[i] == first
            &&& s2[i + 1] == second
        }),
{
    let first = Item { added_at_absolute_time: now1, absolute_time: t, data: a };
    let second = Item { added_at_absolute_time: now2, absolute_time: t, data: b };
    let i = insertion_point(s, t);
    lemma_insertion_point_split(s, t);
    s.insert_ensures(i, first);
    let s1 = s.insert(i, first);
    lemma_insertion_point_after_insert(s, first);
    s1.insert_ensures(i + 1, second);
}

} // verus!
