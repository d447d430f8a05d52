use vstd::prelude::*;

verus! {

/// Flight-rules category, a total order from worst to best:
/// `LowIfr < Ifr < MarginalVfr < Vfr`.
///
/// Sub-classifications are combined by taking the minimum under this
/// order ("worst wins").
#[derive(Clone, Copy, Debug, PartialEq, Eq, Structural)]
pub enum FlightRules {
    LowIfr,
    Ifr,
    MarginalVfr,
    Vfr,
}

impl FlightRules {
    /// Position of this category in the total order, worst first.
    pub open spec fn rank(self) -> int {
        match self {
            FlightRules::LowIfr => 0,
            FlightRules::Ifr => 1,
            FlightRules::MarginalVfr => 2,
            FlightRules::Vfr => 3,
        }
    }
}

impl PartialOrd for FlightRules {
    fn partial_cmp(&self, other: &Self) -> (r: Option<core::cmp::Ordering>) {
        Some(
            match (self, other) {
                (FlightRules::LowIfr, FlightRules::LowIfr) => core::cmp::Ordering::Equal,
                (FlightRules::LowIfr, FlightRules::Ifr) => core::cmp::Ordering::Less,
                (FlightRules::LowIfr, FlightRules::MarginalVfr) => core::cmp::Ordering::Less,
                (FlightRules::LowIfr, FlightRules::Vfr) => core::cmp::Ordering::Less,
                (FlightRules::Ifr, FlightRules::LowIfr) => core::cmp::Ordering::Greater,
                (FlightRules::Ifr, FlightRules::Ifr) => core::cmp::Ordering::Equal,
                (FlightRules::Ifr, FlightRules::MarginalVfr) => core::cmp::Ordering::Less,
                (FlightRules::Ifr, FlightRules::Vfr) => core::cmp::Ordering::Less,
                (FlightRules::MarginalVfr, FlightRules::LowIfr) => core::cmp::Ordering::Greater,
                (FlightRules::MarginalVfr, FlightRules::Ifr) => core::cmp::Ordering::Greater,
                (FlightRules::MarginalVfr, FlightRules::MarginalVfr) => core::cmp::Ordering::Equal,
                (FlightRules::MarginalVfr, FlightRules::Vfr) => core::cmp::Ordering::Less,
                (FlightRules::Vfr, FlightRules::LowIfr) => core::cmp::Ordering::Greater,
                (FlightRules::Vfr, FlightRules::Ifr) => core::cmp::Ordering::Greater,
                (FlightRules::Vfr, FlightRules::MarginalVfr) => core::cmp::Ordering::Greater,
                (FlightRules::Vfr, FlightRules::Vfr) => core::cmp::Ordering::Equal,
            },
        )
    }
}

impl vstd::std_specs::cmp::PartialOrdSpecImpl for FlightRules {
    open spec fn obeys_partial_cmp_spec() -> bool {
        true
    }

    open spec fn partial_cmp_spec(&self, other: &Self) -> Option<core::cmp::Ordering> {
        if self.rank() < other.rank() {
            Some(core::cmp::Ordering::Less)
        } else if self.rank() == other.rank() {
            Some(core::cmp::Ordering::Equal)
        } else {
            Some(core::cmp::Ordering::Greater)
        }
    }
}

/// The worse of two categories: the minimum under the total order.
pub open spec fn worst_spec(a: FlightRules, b: FlightRules) -> FlightRules {
    if a.rank() <= b.rank() {
        a
    } else {
        b
    }
}

/// "Worst wins": returns the minimum of the two categories under the order.
pub fn worst(a: FlightRules, b: FlightRules) -> (r: FlightRules)
    ensures
        r == worst_spec(a, b),
{
    if a < b {
        a
    } else {
        b
    }
}

/// `worst_spec` is the minimum under the total order: it is one of its two
/// arguments and ranks no higher than either.
pub proof fn lemma_worst_is_min(a: FlightRules, b: FlightRules)
    ensures
        worst_spec(a, b) == a || worst_spec(a, b) == b,
        worst_spec(a, b).rank() <= a.rank(),
        worst_spec(a, b).rank() <= b.rank(),
{
}

} // verus!
