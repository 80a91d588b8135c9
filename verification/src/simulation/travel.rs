//! Travel planning rules that do not depend on distances: where a route
//! leads, which ways of travelling a route offers, and what stops a trip.

use vstd::prelude::*;

use crate::simulation::galaxy::{Connection, RouteType};

verus! {

/// How the ship moves.
#[derive(Debug, Clone, Copy, PartialEq, Eq, Structural)]
pub enum TravelMode {
    Sublight,
    Ftl,
    Stationary,
}

/// The far end of a route seen from `from`.
pub open spec fn far_end(c: Connection, from: u128) -> u128 {
    if c.system_a == from {
        c.system_b
    } else {
        c.system_a
    }
}

/// Where a route leads when taken from `from_system`.
pub fn destination_id(connection: &Connection, from_system: u128) -> (r: u128)
    ensures
        r == far_end(*connection, from_system),
{
    if connection.system_a == from_system {
        connection.system_b
    } else {
        connection.system_a
    }
}

/// Faster-than-light travel needs an FTL lane or a corridor.
pub open spec fn has_ftl_lane(route: RouteType) -> bool {
    route == RouteType::FtlLane || route == RouteType::Corridor
}

/// Whether a route carries FTL travel.
pub fn ftl_allowed(route: RouteType) -> (r: bool)
    ensures
        r == has_ftl_lane(route),
{
    route == RouteType::FtlLane || route == RouteType::Corridor
}

/// The travel options of the routes, as (route position, mode) pairs in
/// route order: sublight on every route, then FTL where the route has a
/// lane.
pub open spec fn options(connections: Seq<Connection>) -> Seq<(usize, TravelMode)>
    decreases connections.len(),
{
    if connections.len() == 0 {
        Seq::empty()
    } else {
        let i = connections.len() - 1;
        let prev = options(connections.drop_last()).push((i as usize, TravelMode::Sublight));
        if has_ftl_lane(connections.last().route_type) {
            prev.push((i as usize, TravelMode::Ftl))
        } else {
            prev
        }
    }
}

/// The ways to leave along each route from the current system.
pub fn route_options(connections: &Vec<Connection>) -> (r: Vec<(usize, TravelMode)>)
    ensures
        r@ == options(connections@),
{
    let mut r: Vec<(usize, TravelMode)> = Vec::new();
    let mut i: usize = 0;
    while i < connections.len()
        invariant
            i <= connections.len(),
            r@ == options(connections@.take(i as int)),
        decreases connections.len() - i,
    {
        assert(connections@.take(i as int + 1).drop_last() =~= connections@.take(i as int));
        r.push((i, TravelMode::Sublight));
        if ftl_allowed(connections[i].route_type) {
            r.push((i, TravelMode::Ftl));
        }
        i = i + 1;
    }
    assert(connections@.take(i as int) =~= connections@);
    r
}

/// Every route can be taken at sublight speed, and FTL is offered on a
/// route exactly when it has a lane; no other option is offered.
pub proof fn law_route_options(connections: Seq<Connection>)
    requires
        connections.len() <= usize::MAX,
    ensures
        forall|i: int| 0 <= i < connections.len() ==> #[trigger] options(connections).contains(
            (i as usize, TravelMode::Sublight),
        ),
        forall|i: int| 0 <= i < connections.len() ==> (#[trigger] options(connections).contains(
            (i as usize, TravelMode::Ftl),
        ) <==> has_ftl_lane(connections[i].route_type)),
        forall|o: (usize, TravelMode)| #[trigger] options(connections).contains(o) ==> o.0
            < connections.len() && o.1 != TravelMode::Stationary,
    decreases connections.len(),
{
    if connections.len() > 0 {
        let init = connections.drop_last();
        law_route_options(init);
        let n = connections.len() - 1;
        let prev = options(init);
        let mid = prev.push((n as usize, TravelMode::Sublight));
        let all = options(connections);
        assert forall|o: (usize, TravelMode)| mid.contains(o) <==> prev.contains(o) || o == (
            n as usize,
            TravelMode::Sublight,
        ) by {
            if mid.contains(o) {
                let j = choose|j: int| 0 <= j < mid.len() && mid[j] == o;
                if j < prev.len() {
                    assert(prev[j] == o);
                }
            }
            if prev.contains(o) {
                let j = choose|j: int| 0 <= j < prev.len() && prev[j] == o;
                assert(mid[j] == o);
            }
            assert(mid[prev.len() as int] == (n as usize, TravelMode::Sublight));
        }
        assert forall|o: (usize, TravelMode)| all.contains(o) <==> mid.contains(o) || (
        has_ftl_lane(connections.last().route_type) && o == (n as usize, TravelMode::Ftl)) by {
            if has_ftl_lane(connections.last().route_type) {
                if all.contains(o) {
                    let j = choose|j: int| 0 <= j < all.len() && all[j] == o;
                    if j < mid.len() {
                        assert(mid[j] == o);
                    }
                }
                if mid.contains(o) {
                    let j = choose|j: int| 0 <= j < mid.len() && mid[j] == o;
                    assert(all[j] == o);
                }
                assert(all[mid.len() as int] == (n as usize, TravelMode::Ftl));
            }
        }
        assert forall|i: int| 0 <= i < connections.len() implies (#[trigger] all.contains(
            (i as usize, TravelMode::Ftl),
        ) <==> has_ftl_lane(connections[i].route_type)) by {
            if i < n {
                assert(init[i] == connections[i]);
                assert((i as usize, TravelMode::Ftl) != (n as usize, TravelMode::Ftl));
                assert((i as usize, TravelMode::Ftl) != (n as usize, TravelMode::Sublight));
            } else {
                assert(connections[i] == connections.last());
                assert(!prev.contains((n as usize, TravelMode::Ftl)));
                assert((n as usize, TravelMode::Ftl) != (n as usize, TravelMode::Sublight));
            }
        }
    }
}

/// What keeps a planned trip from being made.
#[derive(Debug, Clone, Copy, PartialEq, Eq, Structural)]
pub enum TravelBlocker {
    /// The ship is not set to move.
    Stationary,
    /// The engine does not work.
    EngineDead,
    /// An FTL jump needs more fuel than the ship has.
    InsufficientFuel,
    /// FTL was chosen on a route without a lane.
    NoFtlLane,
}

/// The first obstacle to a trip, checked in order: a stationary ship, a
/// dead engine, too little fuel for an FTL jump, an FTL jump off-lane.
pub open spec fn blocker(
    mode: TravelMode,
    engine_works: bool,
    fuel_suffices: bool,
    route: RouteType,
) -> Option<TravelBlocker> {
    if mode == TravelMode::Stationary {
        Some(TravelBlocker::Stationary)
    } else if !engine_works {
        Some(TravelBlocker::EngineDead)
    } else if mode == TravelMode::Ftl && !fuel_suffices {
        Some(TravelBlocker::InsufficientFuel)
    } else if mode == TravelMode::Ftl && !has_ftl_lane(route) {
        Some(TravelBlocker::NoFtlLane)
    } else {
        None
    }
}

/// Decide whether a trip can be made. `engine_works` says whether the
/// engine's condition is above zero; `fuel_suffices` whether the fuel the
/// jump burns is no more than the ship holds.
pub fn travel_blocker(
    mode: TravelMode,
    engine_works: bool,
    fuel_suffices: bool,
    route: RouteType,
) -> (r: Option<TravelBlocker>)
    ensures
        r == blocker(mode, engine_works, fuel_suffices, route),
{
    if mode == TravelMode::Stationary {
        Some(TravelBlocker::Stationary)
    } else if !engine_works {
        Some(TravelBlocker::EngineDead)
    } else if mode == TravelMode::Ftl && !fuel_suffices {
        Some(TravelBlocker::InsufficientFuel)
    } else if mode == TravelMode::Ftl && !ftl_allowed(route) {
        Some(TravelBlocker::NoFtlLane)
    } else {
        None
    }
}

/// What blocks a trip, by mode: a stationary ship never travels; for any
/// other mode a dead engine blocks the trip; with a working engine a
/// sublight trip is always possible, and an FTL jump is blocked by too
/// little fuel first and then by a route without an FTL lane or
/// corridor, and is otherwise possible.
pub proof fn law_travel_blocker(
    mode: TravelMode,
    engine_works: bool,
    fuel_suffices: bool,
    route: RouteType,
)
    ensures
        mode == TravelMode::Stationary ==> blocker(mode, engine_works, fuel_suffices, route)
            == Some(TravelBlocker::Stationary),
        mode != TravelMode::Stationary && !engine_works ==> blocker(
            mode,
            engine_works,
            fuel_suffices,
            route,
        ) == Some(TravelBlocker::EngineDead),
        mode == TravelMode::Sublight && engine_works ==> blocker(mode, engine_works, fuel_suffices, route)
            is None,
        mode == TravelMode::Ftl && engine_works && !fuel_suffices ==> blocker(
            mode,
            engine_works,
            fuel_suffices,
            route,
        ) == Some(TravelBlocker::InsufficientFuel),
        mode == TravelMode::Ftl && engine_works && fuel_suffices ==> (blocker(
            mode,
            engine_works,
            fuel_suffices,
            route,
        ) is None <==> (route == RouteType::FtlLane || route == RouteType::Corridor)),
        mode == TravelMode::Ftl && engine_works && fuel_suffices && route != RouteType::FtlLane
            && route != RouteType::Corridor ==> blocker(mode, engine_works, fuel_suffices, route)
            == Some(TravelBlocker::NoFtlLane),
{
}

/// The text shown for a fixed obstacle; the fuel shortfall is worded with
/// its amounts by the caller.
pub open spec fn blocker_words(b: TravelBlocker) -> Option<Seq<char>> {
    match b {
        TravelBlocker::Stationary => Some("Ship is stationary."@),
        TravelBlocker::EngineDead => Some("Engine is non-functional."@),
        TravelBlocker::InsufficientFuel => None,
        TravelBlocker::NoFtlLane => Some("No FTL lane on this route."@),
    }
}

impl TravelBlocker {
    /// The reason shown to the player, for obstacles that need no amounts.
    pub fn reason(&self) -> (r: Option<&'static str>)
        ensures
            match r {
                Some(t) => blocker_words(*self) == Some(t@),
                None => blocker_words(*self) is None,
            },
    {
        match self {
            TravelBlocker::Stationary => Some("Ship is stationary."),
            TravelBlocker::EngineDead => Some("Engine is non-functional."),
            TravelBlocker::InsufficientFuel => None,
            TravelBlocker::NoFtlLane => Some("No FTL lane on this route."),
        }
    }
}

/// How a travel summary names a mode.
pub open spec fn mode_words(mode: TravelMode) -> Seq<char> {
    match mode {
        TravelMode::Sublight => "Sublight"@,
        TravelMode::Ftl => "FTL"@,
        TravelMode::Stationary => "Stationary"@,
    }
}

/// The mode's name in a travel summary.
pub fn mode_name(mode: TravelMode) -> (r: &'static str)
    ensures
        r@ == mode_words(mode),
{
    match mode {
        TravelMode::Sublight => "Sublight",
        TravelMode::Ftl => "FTL",
        TravelMode::Stationary => "Stationary",
    }
}

} // verus!
