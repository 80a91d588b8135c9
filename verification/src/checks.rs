//! Skill-check outcome tiers and the difficulty impressions shown to the
//! player before a check.

use vstd::prelude::*;

verus! {

/// The five outcome tiers of a skill check, from worst to best.
#[derive(Debug, Clone, Copy, PartialEq, Eq, Structural)]
pub enum OutcomeTier {
    CriticalFailure,
    Failure,
    Partial,
    Success,
    CriticalSuccess,
}

/// The position of a tier on the outcome spectrum (0 = worst, 4 = best).
pub open spec fn tier_rank(t: OutcomeTier) -> int {
    match t {
        OutcomeTier::CriticalFailure => 0,
        OutcomeTier::Failure => 1,
        OutcomeTier::Partial => 2,
        OutcomeTier::Success => 3,
        OutcomeTier::CriticalSuccess => 4,
    }
}

pub open spec fn spec_tier_label(t: OutcomeTier) -> Seq<char> {
    match t {
        OutcomeTier::CriticalSuccess => "critical success"@,
        OutcomeTier::Success => "success"@,
        OutcomeTier::Partial => "partial success"@,
        OutcomeTier::Failure => "failure"@,
        OutcomeTier::CriticalFailure => "critical failure"@,
    }
}

impl OutcomeTier {
    /// Short label for debug output and logging.
    pub fn label(self) -> (r: &'static str)
        ensures
            r@ == spec_tier_label(self),
    {
        match self {
            OutcomeTier::CriticalSuccess => "critical success",
            OutcomeTier::Success => "success",
            OutcomeTier::Partial => "partial success",
            OutcomeTier::Failure => "failure",
            OutcomeTier::CriticalFailure => "critical failure",
        }
    }

    /// Is this a positive outcome (success or better)?
    pub fn is_success(self) -> (r: bool)
        ensures
            r == (tier_rank(self) >= 3),
    {
        matches!(self, OutcomeTier::Success | OutcomeTier::CriticalSuccess)
    }

    /// Is this a negative outcome (failure or worse)?
    pub fn is_failure(self) -> (r: bool)
        ensures
            r == (tier_rank(self) <= 1),
    {
        matches!(self, OutcomeTier::Failure | OutcomeTier::CriticalFailure)
    }
}

/// A tier is never both a success and a failure; a partial success is
/// neither.
pub proof fn law_success_and_failure_exclusive(t: OutcomeTier)
    ensures
        !(tier_rank(t) >= 3 && tier_rank(t) <= 1),
        t == OutcomeTier::Partial <==> (!(tier_rank(t) >= 3) && !(tier_rank(t) <= 1)),
{
}

/// How the odds feel to the player, before a check.
#[derive(Debug, Clone, Copy, PartialEq, Eq, Structural)]
pub enum DifficultyImpression {
    NearCertain,
    Favorable,
    EvenOdds,
    Risky,
    Desperate,
}

pub open spec fn impression_label(d: DifficultyImpression) -> Seq<char> {
    match d {
        DifficultyImpression::NearCertain => "near certain"@,
        DifficultyImpression::Favorable => "favorable"@,
        DifficultyImpression::EvenOdds => "even odds"@,
        DifficultyImpression::Risky => "risky"@,
        DifficultyImpression::Desperate => "desperate"@,
    }
}

impl DifficultyImpression {
    /// Short label for display.
    pub fn label(self) -> (r: &'static str)
        ensures
            r@ == impression_label(self),
    {
        match self {
            DifficultyImpression::NearCertain => "near certain",
            DifficultyImpression::Favorable => "favorable",
            DifficultyImpression::EvenOdds => "even odds",
            DifficultyImpression::Risky => "risky",
            DifficultyImpression::Desperate => "desperate",
        }
    }
}

} // verus!
