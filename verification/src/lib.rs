//! Emulation of adverse network conditions for datagram transports: a
//! weighted impairment decider, a time-ordered release queue, and a
//! per-direction pipeline that ties them together under external virtual
//! time, supplied by the caller as a monotonically non-decreasing
//! millisecond timestamp.
mod decider;
mod direction;
mod queue;
mod rng;

pub use decider::Decider;
pub use decider::DeciderConfig;
pub use decider::Decision;
pub use decider::decision_for;
pub use decider::lemma_zero_weight_never_drawn;
pub use decider::total_weight;
pub use direction::Direction;
pub use direction::DirectionConfig;
pub use direction::enqueued_one;
pub use direction::enqueued_twice;
pub use direction::lemma_drop_never_enqueues;
pub use direction::lemma_duplicate_enqueues_two;
pub use direction::submit_effect;
pub use queue::Item;
pub use queue::Millis;
pub use queue::MillisDuration;
pub use queue::TimeOrderedQueue;
pub use queue::insertion_point;
pub use queue::lemma_insertion_point_after_insert;
pub use queue::lemma_insertion_point_split;
pub use queue::lemma_insertion_point_unique;
pub use queue::lemma_push_stable;
pub use queue::lemma_release_order;
pub use queue::lemma_sorted_after_insert;
pub use queue::sorted_by_release;
pub use queue::valid_items;
