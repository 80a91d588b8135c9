//! Carrying out a journey: the checks made before the ship leaves, and how
//! the arrival names the way it travelled.

use vstd::prelude::*;

use crate::simulation::galaxy::Connection;
use crate::simulation::travel::TravelMode;

verus! {

/// Why a planned journey is refused, or nothing when it may go ahead: an
/// infeasible plan gives its own reason (or a general one), and a ship at
/// neither end of the route cannot take it.
pub open spec fn refusal(
    feasible: bool,
    reason: Option<Seq<char>>,
    current_system: u128,
    route: Connection,
) -> Option<Seq<char>> {
    if !feasible {
        Some(
            match reason {
                Some(r) => r,
                None => "Travel is not feasible."@,
            },
        )
    } else if current_system != route.system_a && current_system != route.system_b {
        Some("You are not at either end of this route."@)
    } else {
        None
    }
}

/// Check a plan before executing it: `Err` with the reason shown to the
/// player, or `Ok` when the ship may leave.
pub fn check_departure(
    feasible: bool,
    infeasible_reason: &Option<String>,
    current_system: u128,
    route: &Connection,
) -> (r: Result<(), String>)
    ensures
        match r {
            Ok(()) => refusal(
                feasible,
                match infeasible_reason {
                    Some(s) => Some(s@),
                    None => None,
                },
                current_system,
                *route,
            ) is None,
            Err(e) => refusal(
                feasible,
                match infeasible_reason {
                    Some(s) => Some(s@),
                    None => None,
                },
                current_system,
                *route,
            ) == Some(e@),
        },
{
    if !feasible {
        return Err(
            match infeasible_reason {
                Some(s) => s.clone(),
                None => "Travel is not feasible.".to_owned(),
            },
        );
    }
    if current_system != route.system_a && current_system != route.system_b {
        return Err("You are not at either end of this route.".to_owned());
    }
    Ok(())
}

/// How an arrival names the way the ship travelled.
pub open spec fn transit_words(mode: TravelMode) -> Seq<char> {
    match mode {
        TravelMode::Sublight => "sublight"@,
        TravelMode::Ftl => "FTL"@,
        TravelMode::Stationary => "stationary"@,
    }
}

/// The words for the mode in an arrival log entry.
pub fn transit_name(mode: TravelMode) -> (r: &'static str)
    ensures
        r@ == transit_words(mode),
{
    match mode {
        TravelMode::Sublight => "sublight",
        TravelMode::Ftl => "FTL",
        TravelMode::Stationary => "stationary",
    }
}

} // verus!
