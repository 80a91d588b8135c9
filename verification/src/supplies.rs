//! Supply status as the crew reads it.

use vstd::prelude::*;

verus! {

/// How the ship's supply situation reads at a glance.
#[derive(Debug, Clone, Copy, PartialEq, Eq, Structural)]
pub enum SupplyStatus {
    /// Above half — no concerns.
    Comfortable,
    /// A fifth to a half — the quartermaster is watching the numbers.
    Adequate,
    /// A twentieth to a fifth — stress rising, urgency building.
    Low,
    /// Nearly out — rationing.
    Critical,
    /// Nothing left.
    Depleted,
}

pub open spec fn supply_label(s: SupplyStatus) -> Seq<char> {
    match s {
        SupplyStatus::Comfortable => "comfortable"@,
        SupplyStatus::Adequate => "adequate"@,
        SupplyStatus::Low => "LOW"@,
        SupplyStatus::Critical => "CRITICAL"@,
        SupplyStatus::Depleted => "DEPLETED"@,
    }
}

impl SupplyStatus {
    /// Human-readable label for display.
    pub fn label(self) -> (r: &'static str)
        ensures
            r@ == supply_label(self),
    {
        match self {
            SupplyStatus::Comfortable => "comfortable",
            SupplyStatus::Adequate => "adequate",
            SupplyStatus::Low => "LOW",
            SupplyStatus::Critical => "CRITICAL",
            SupplyStatus::Depleted => "DEPLETED",
        }
    }

    /// Whether the situation warrants a warning.
    pub fn is_warning(self) -> (r: bool)
        ensures
            r == (self == SupplyStatus::Low || self == SupplyStatus::Critical
                || self == SupplyStatus::Depleted),
    {
        matches!(self, SupplyStatus::Low | SupplyStatus::Critical | SupplyStatus::Depleted)
    }
}

} // verus!
