//! The weighted decision selector: maps a uniformly drawn integer into one
//! of five mutually exclusive impairment outcomes according to configured
//! non-negative integer weights.
use vstd::prelude::*;

verus! {

/// The impairment outcome chosen for one submitted datagram.
#[derive(Clone, Copy, Debug, PartialEq, Eq)]
pub enum Decision {
    Drop,
    Tamper,
    Duplicate,
    Reorder,
    Unaffected,
}

/// Five non-negative integer weights, one per decision.
pub struct DeciderConfig {
    pub unaffected: usize,
    pub drop: usize,
    pub tamper: usize,
    pub duplicate: usize,
    pub reorder: usize,
}

/// The sum of all five configured weights.
pub open spec fn total_weight(c: DeciderConfig) -> int {
    c.unaffected + c.drop + c.tamper + c.duplicate + c.reorder
}

/// The decision whose sub-range of `[0, total)` contains the draw `v`: the
/// range is partitioned into five contiguous sub-ranges in the order
/// {Unaffected, Drop, Tamper, Duplicate, Reorder}, each as wide as its
/// weight, so a zero-weight outcome occupies an empty sub-range and can
/// never be drawn.
pub open spec fn decision_for(c: DeciderConfig, v: int) -> Decision {
    if v < c.unaffected {
        Decision::Unaffected
    } else if v < c.unaffected + c.drop {
        Decision::Drop
    } else if v < c.unaffected + c.drop + c.tamper {
        Decision::Tamper
    } else if v < c.unaffected + c.drop + c.tamper + c.duplicate {
        Decision::Duplicate
    } else {
        Decision::Reorder
    }
}

/// A selector built from a weight configuration whose total is positive.
pub struct Decider {
    config: DeciderConfig,
    total: usize,
}

impl Decider {
    /// The configuration the decider was built from.
    pub closed spec fn config(&self) -> DeciderConfig {
        self.config
    }

    /// The decider's invariant: its cached total is the (positive) sum of
    /// the configured weights.
    pub closed spec fn inv(&self) -> bool {
        self.total == total_weight(self.config) && self.total > 0
    }

    /// Builds a selector; fails exactly when the total weight is zero.
    pub fn new(config: DeciderConfig) -> (r: Option<Self>)
        requires
            total_weight(config) <= usize::MAX,
        ensures
            match r {
                Some(d) => {
                    &&& total_weight(config) > 0
                    &&& d.inv()
                    &&& d.config() == config
                },
                None => total_weight(config) == 0,
            },
    {
        let total = config.unaffected + config.drop + config.tamper + config.duplicate
            + config.reorder;
        if total == 0 {
            None
        } else {
            Some(Self { config, total })
        }
    }

    /// Resolves a draw to the decision owning the sub-range the draw falls
    /// in; a draw at or beyond the total resolves to nothing.
    pub fn decide(&self, value: usize) -> (r: Option<Decision>)
        requires
            self.inv(),
        ensures
            value < total_weight(self.config()) ==> r == Some(decision_for(self.config(), value as int)),
            value >= total_weight(self.config()) ==> r is None,
    {
        if value >= self.total {
            return None;
        }
        let mut bound = self.config.unaffected;
        if value < bound {
            return Some(Decision::Unaffected);
        }
        bound = bound + self.config.drop;
        if value < bound {
            return Some(Decision::Drop);
        }
        bound = bound + self.config.tamper;
        if value < bound {
            return Some(Decision::Tamper);
        }
        bound = bound + self.config.duplicate;
        if value < bound {
            return Some(Decision::Duplicate);
        }
        Some(Decision::Reorder)
    }

    /// The sum of the configured weights; callers use it to bound draws.
    pub fn total(&self) -> (r: usize)
        requires
            self.inv(),
        ensures
            r == total_weight(self.config()),
            r > 0,
    {
        self.total
    }
}

/// Law: a zero-weight outcome occupies no part of the draw range, so it is
/// never resolved; in particular a zero Tamper weight means no in-range
/// draw resolves to Tamper.
pub proof fn lemma_zero_weight_never_drawn(c: DeciderConfig, v: int)
    requires
        0 <= v < total_weight(c),
        c.tamper == 0,
    ensures
        decision_for(c, v) != Decision::Tamper,
{
}

} // verus!
