//! One direction of the impairment pipeline: each submitted datagram
//! consumes one weighted decision and is dropped, delayed, delayed with
//! jitter, or duplicated into the time-ordered release queue; a polling
//! accessor drains due items as external virtual time advances.
use vstd::prelude::*;
use vstd::slice::slice_to_vec;

use crate::decider::Decider;
use crate::decider::DeciderConfig;
use crate::decider::Decision;
use crate::decider::decision_for;
use crate::decider::lemma_zero_weight_never_drawn;
use crate::decider::total_weight;
use crate::queue::Item;
use crate::queue::Millis;
use crate::queue::MillisDuration;
use crate::queue::TimeOrderedQueue;
use crate::queue::insertion_point;
use crate::queue::lemma_insertion_point_split;
use crate::queue::sorted_by_release;
use crate::rng::draw_below;
use rand::rngs::StdRng;

verus! {

/// Construction options for one direction: the decision weights and the
/// latency bounds from which the fixed base latency is derived.
pub struct DirectionConfig {
    pub decider: DeciderConfig,
    pub min_latency: MillisDuration,
    pub max_latency: MillisDuration,
}

/// One direction of the pipeline: a decider, a fixed base latency, the
/// release queue, and a privately owned random generator.
pub struct Direction {
    pub decider: Decider,
    pub latency_in_ms: MillisDuration,
    pub datagrams: TimeOrderedQueue<Vec<u8>>,
    pub pseudo_random: StdRng,
}

/// `post` is `pre` with one item enqueued at the stable sort position for
/// release time `t`, carrying the payload `data` and stamped as added at
/// `now`.
pub open spec fn enqueued_one(
    pre: Seq<Item<Vec<u8>>>,
    post: Seq<Item<Vec<u8>>>,
    now: Millis,
    t: Millis,
    data: Seq<u8>,
) -> bool {
    let i = insertion_point(pre, t);
    &&& post.len() == pre.len() + 1
    &&& 0 <= i < post.len()
    &&& post == pre.insert(i, post[i])
    &&& post[i].added_at_absolute_time == now
    &&& post[i].absolute_time == t
    &&& post[i].data@ == data
}

/// `post` is `pre` with two items enqueued back to back at the stable sort
/// position for release time `t`, both carrying the payload `data`.
pub open spec fn enqueued_twice(
    pre: Seq<Item<Vec<u8>>>,
    post: Seq<Item<Vec<u8>>>,
    now: Millis,
    t: Millis,
    data: Seq<u8>,
) -> bool {
    let i = insertion_point(pre, t);
    &&& post.len() == pre.len() + 2
    &&& 0 <= i && i + 1 < post.len()
    &&& post == pre.insert(i, post[i]).insert(i + 1, post[i + 1])
    &&& post[i].added_at_absolute_time == now
    &&& post[i].absolute_time == t
    &&& post[i].data@ == data
    &&& post[i + 1].added_at_absolute_time == now
    &&& post[i + 1].absolute_time == t
    &&& post[i + 1].data@ == data
}

/// What one submit does to the release queue, as a function of the decision
/// resolved from the draw `value`: Drop leaves the queue unchanged,
/// Unaffected enqueues once at `now + latency`, Reorder enqueues once at
/// `now + latency + jitter`, Duplicate enqueues the payload twice at
/// `now + latency`. Tamper is never resolved by a conforming pipeline.
pub open spec fn submit_effect(
    c: DeciderConfig,
    latency: MillisDuration,
    pre: Seq<Item<Vec<u8>>>,
    post: Seq<Item<Vec<u8>>>,
    now: Millis,
    data: Seq<u8>,
    value: int,
    jitter: int,
) -> bool {
    match decision_for(c, value) {
        Decision::Drop => post == pre,
        Decision::Tamper => false,
        Decision::Duplicate => enqueued_twice(pre, post, now, ((now + latency) as Millis), data),
        Decision::Reorder => enqueued_one(
            pre,
            post,
            now,
            ((now + latency + jitter) as Millis),
            data,
        ),
        Decision::Unaffected => enqueued_one(pre, post, now, ((now + latency) as Millis), data),
    }
}

impl Direction {
    /// The direction's invariant: a valid decider whose Tamper weight is
    /// zero, and a sorted release queue.
    pub open spec fn wf(&self) -> bool {
        &&& self.decider.inv()
        &&& self.decider.config().tamper == 0
        &&& self.datagrams.wf()
    }

    /// Builds one direction with an empty queue and a base latency fixed at
    /// the midpoint of the configured bounds; fails exactly when the total
    /// weight is zero or the unimplemented Tamper outcome is given a
    /// nonzero weight.
    pub fn new(config: DirectionConfig, pseudo_random: StdRng) -> (r: Option<Self>)
        requires
            total_weight(config.decider) <= usize::MAX,
            config.min_latency + config.max_latency <= u64::MAX,
        ensures
            match r {
                Some(d) => {
                    &&& total_weight(config.decider) > 0
                    &&& config.decider.tamper == 0
                    &&& d.wf()
                    &&& d.decider.config() == config.decider
                    &&& d.latency_in_ms == (config.min_latency + config.max_latency) / 2
                    &&& d.datagrams@ == Seq::<Item<Vec<u8>>>::empty()
                },
                None => total_weight(config.decider) == 0 || config.decider.tamper != 0,
            },
    {
        if config.decider.tamper != 0 {
            return None;
        }
        let latency = (config.min_latency + config.max_latency) / 2;
        match Decider::new(config.decider) {
            None => None,
            Some(decider) => Some(
                Self {
                    decider,
                    latency_in_ms: latency,
                    datagrams: TimeOrderedQueue::new(),
                    pseudo_random,
                },
            ),
        }
    }

    /// Applies an already-resolved draw to the queue: the deterministic
    /// rest of a submit, verified for every in-range draw and jitter.
    pub fn push_decided(&mut self, now: Millis, datagram: &[u8], value: usize, jitter: MillisDuration)
        requires
            old(self).wf(),
            value < total_weight(old(self).decider.config()),
            jitter < 32,
            now + old(self).latency_in_ms + 31 <= u64::MAX,
        ensures
            final(self).wf(),
            final(self).decider == old(self).decider,
            final(self).latency_in_ms == old(self).latency_in_ms,
            final(self).pseudo_random == old(self).pseudo_random,
            submit_effect(
                old(self).decider.config(),
                old(self).latency_in_ms,
                old(self).datagrams@,
                final(self).datagrams@,
                now,
                datagram@,
                value as int,
                jitter as int,
            ),
    {
        proof {
            lemma_zero_weight_never_drawn(old(self).decider.config(), value as int);
        }
        let decision = self.decider.decide(value);
        let absolute_time = now + self.latency_in_ms;
        let ghost pre = self.datagrams@;
        match decision {
            None => {
                proof {
                    assert(false);
                }
            },
            Some(Decision::Drop) => {},
            Some(Decision::Tamper) => {
                proof {
                    assert(false);
                }
            },
            Some(Decision::Unaffected) => {
                let payload = slice_to_vec(datagram);
                self.datagrams.push(now, absolute_time, payload);
                proof {
                    lemma_insertion_point_split(pre, absolute_time);
                    assert(enqueued_one(pre, self.datagrams@, now, absolute_time, datagram@));
                }
            },
            Some(Decision::Duplicate) => {
                let payload = slice_to_vec(datagram);
                self.datagrams.push(now, absolute_time, payload);
                let ghost mid = self.datagrams@;
                let payload_again = slice_to_vec(datagram);
                self.datagrams.push(now, absolute_time, payload_again);
                proof {
                    lemma_insertion_point_split(pre, absolute_time);
                    let i = insertion_point(pre, absolute_time);
                    assert(mid[i].absolute_time == absolute_time);
                    crate::queue::lemma_insertion_point_after_insert(pre, mid[i]);
                    assert(self.datagrams@ == pre.insert(i, mid[i]).insert(
                        i + 1,
                        self.datagrams@[i + 1],
                    ));
                    assert(self.datagrams@[i] == mid[i]);
                    assert(enqueued_twice(pre, self.datagrams@, now, absolute_time, datagram@));
                }
            },
            Some(Decision::Reorder) => {
                let release_at = absolute_time + jitter;
                let payload = slice_to_vec(datagram);
                self.datagrams.push(now, release_at, payload);
                proof {
                    lemma_insertion_point_split(pre, release_at);
                    assert(enqueued_one(pre, self.datagrams@, now, release_at, datagram@));
                }
            },
        }
    }

    /// Submits one datagram: draws once to resolve the decision, draws a
    /// jitter only under Reorder, and applies the outcome to the queue. The
    /// queue changes by one of the submit effects for some in-range draw;
    /// the decider and the latency never change.
    pub fn push(&mut self, now: Millis, datagram: &[u8])
        requires
            old(self).wf(),
            now + old(self).latency_in_ms + 31 <= u64::MAX,
        ensures
            final(self).wf(),
            final(self).decider == old(self).decider,
            final(self).latency_in_ms == old(self).latency_in_ms,
            exists|value: int, jitter: int|
                0 <= value < total_weight(old(self).decider.config()) && 0 <= jitter < 32
                    && submit_effect(
                    old(self).decider.config(),
                    old(self).latency_in_ms,
                    old(self).datagrams@,
                    final(self).datagrams@,
                    now,
                    datagram@,
                    value,
                    jitter,
                ),
    {
        let total = self.decider.total();
        let value = draw_below(&mut self.pseudo_random, total);
        let decision = self.decider.decide(value);
        let jitter: MillisDuration = match decision {
            Some(Decision::Reorder) => draw_below(&mut self.pseudo_random, 32) as u64,
            _ => 0,
        };
        self.push_decided(now, datagram, value, jitter);
        proof {
            assert((value as int) < total_weight(old(self).decider.config()) && (jitter as int)
                < 32 && submit_effect(
                old(self).decider.config(),
                old(self).latency_in_ms,
                old(self).datagrams@,
                self.datagrams@,
                now,
                datagram@,
                value as int,
                jitter as int,
            ));
        }
    }

    /// Delegates to the queue's due-pop: returns the earliest queued
    /// datagram exactly when it is due at `now`.
    pub fn pop_ready(&mut self, now: Millis) -> (r: Option<Item<Vec<u8>>>)
        requires
            old(self).wf(),
        ensures
            final(self).wf(),
            final(self).decider == old(self).decider,
            final(self).latency_in_ms == old(self).latency_in_ms,
            match r {
                Some(item) => {
                    &&& old(self).datagrams@.len() > 0
                    &&& item == old(self).datagrams@[0]
                    &&& item.absolute_time <= now
                    &&& final(self).datagrams@ == old(self).datagrams@.drop_first()
                },
                None => {
                    &&& final(self).datagrams@ == old(self).datagrams@
                    &&& (old(self).datagrams@.len() == 0 || old(self).datagrams@[0].absolute_time
                        > now)
                },
            },
    {
        self.datagrams.pop_ready(now)
    }
}

/// Law: a submit that resolves to Drop never enqueues the payload — the
/// queue is left exactly as it was.
pub proof fn lemma_drop_never_enqueues(
    c: DeciderConfig,
    latency: MillisDuration,
    pre: Seq<Item<Vec<u8>>>,
    post: Seq<Item<Vec<u8>>>,
    now: Millis,
    data: Seq<u8>,
    value: int,
    jitter: int,
)
    requires
        submit_effect(c, latency, pre, post, now, data, value, jitter),
        decision_for(c, value) == Decision::Drop,
    ensures
        post == pre,
{
}

/// Law: a submit that resolves to Duplicate enqueues exactly two entries,
/// standing back to back with identical release times `now + latency` and
/// both carrying the submitted payload.
pub proof fn lemma_duplicate_enqueues_two(
    c: DeciderConfig,
    latency: MillisDuration,
    pre: Seq<Item<Vec<u8>>>,
    post: Seq<Item<Vec<u8>>>,
    now: Millis,
    data: Seq<u8>,
    value: int,
    jitter: int,
)
    requires
        submit_effect(c, latency, pre, post, now, data, value, jitter),
        decision_for(c, value) == Decision::Duplicate,
        now + latency <= u64::MAX,
    ensures
        post.len() == pre.len() + 2,
        ({
            let i = insertion_point(pre, ((now + latency) as Millis));
            &&& post[i].absolute_time == post[i + 1].absolute_time
            &&& post[i].absolute_time == now + latency
            &&& post[i].data@ == data
            &&& post[i + 1].data@ == data
        }),
{
}

} // verus!
