//! Faction decisions that do not weigh chances: which systems a faction
//! could claim, where it would build, and how infrastructure grows.

use vstd::prelude::*;

use crate::simulation::galaxy::{
    contains_id, find_system, infra_rank, system_with_id, Connection, InfrastructureLevel,
    StarSystem,
};

verus! {

/// A concrete action a civilization has decided to take.
#[derive(Debug, Clone, Copy, PartialEq, Eq, Structural)]
pub enum FactionAction {
    /// Claim an adjacent unclaimed system.
    Expand { faction_id: u128, target_system: u128 },
    /// Improve infrastructure in an owned system.
    Consolidate { faction_id: u128, target_system: u128 },
    /// Improve ties with another faction.
    Diplomacy { faction_id: u128, target_faction: u128 },
    /// Apply pressure to a rival.
    Pressure { faction_id: u128, target_faction: u128 },
    /// Build military capability.
    Militarize { faction_id: u128 },
    /// Address internal instability.
    Stabilize { faction_id: u128 },
    /// Nothing worth doing this tick.
    Idle { faction_id: u128 },
}

pub open spec fn actor_of(a: FactionAction) -> u128 {
    match a {
        FactionAction::Expand { faction_id, .. } => faction_id,
        FactionAction::Consolidate { faction_id, .. } => faction_id,
        FactionAction::Diplomacy { faction_id, .. } => faction_id,
        FactionAction::Pressure { faction_id, .. } => faction_id,
        FactionAction::Militarize { faction_id } => faction_id,
        FactionAction::Stabilize { faction_id } => faction_id,
        FactionAction::Idle { faction_id } => faction_id,
    }
}

impl FactionAction {
    /// The faction taking the action.
    pub fn faction_id(&self) -> (r: u128)
        ensures
            r == actor_of(*self),
    {
        match self {
            FactionAction::Expand { faction_id, .. } => *faction_id,
            FactionAction::Consolidate { faction_id, .. } => *faction_id,
            FactionAction::Diplomacy { faction_id, .. } => *faction_id,
            FactionAction::Pressure { faction_id, .. } => *faction_id,
            FactionAction::Militarize { faction_id } => *faction_id,
            FactionAction::Stabilize { faction_id } => *faction_id,
            FactionAction::Idle { faction_id } => *faction_id,
        }
    }
}

/// `theirs` lies next to `ours`, which the faction owns, and is listed as
/// a system no civilization controls.
pub open spec fn claimable(owned: Seq<u128>, systems: Seq<StarSystem>, ours: u128, theirs: u128) -> bool {
    &&& owned.contains(ours)
    &&& system_with_id(systems, theirs) matches Some(s)
    &&& s.controlling_civ is None
}

/// Unclaimed neighbours of the faction's territory, in the order routes
/// list them, each once.
pub open spec fn adjacent_unclaimed(
    owned: Seq<u128>,
    systems: Seq<StarSystem>,
    connections: Seq<Connection>,
) -> Seq<u128>
    decreases connections.len(),
{
    if connections.len() == 0 {
        Seq::empty()
    } else {
        let prev = adjacent_unclaimed(owned, systems, connections.drop_last());
        let c = connections.last();
        let p1 = if claimable(owned, systems, c.system_a, c.system_b) && !prev.contains(c.system_b) {
            prev.push(c.system_b)
        } else {
            prev
        };
        if claimable(owned, systems, c.system_b, c.system_a) && !p1.contains(c.system_a) {
            p1.push(c.system_a)
        } else {
            p1
        }
    }
}

fn is_claimable(owned_ids: &Vec<u128>, systems: &Vec<StarSystem>, ours: u128, theirs: u128) -> (r: bool)
    ensures
        r == claimable(owned_ids@, systems@, ours, theirs),
{
    contains_id(owned_ids, ours) && match find_system(systems, theirs) {
        Some(s) => s.controlling_civ.is_none(),
        None => false,
    }
}

/// Find unclaimed systems one route away from the faction's territory.
pub fn find_adjacent_unclaimed(
    owned_ids: &Vec<u128>,
    systems: &Vec<StarSystem>,
    connections: &Vec<Connection>,
) -> (r: Vec<u128>)
    ensures
        r@ == adjacent_unclaimed(owned_ids@, systems@, connections@),
{
    let mut unclaimed: Vec<u128> = Vec::new();
    let mut i: usize = 0;
    while i < connections.len()
        invariant
            i <= connections.len(),
            unclaimed@ == adjacent_unclaimed(owned_ids@, systems@, connections@.take(i as int)),
        decreases connections.len() - i,
    {
        assert(connections@.take(i as int + 1).drop_last() =~= connections@.take(i as int));
        let a = connections[i].system_a;
        let b = connections[i].system_b;
        if is_claimable(owned_ids, systems, a, b) && !contains_id(&unclaimed, b) {
            unclaimed.push(b);
        }
        if is_claimable(owned_ids, systems, b, a) && !contains_id(&unclaimed, a) {
            unclaimed.push(a);
        }
        i = i + 1;
    }
    assert(connections@.take(i as int) =~= connections@);
    unclaimed
}

/// Route `c` joins an owned system to the unclaimed system `x`.
pub open spec fn route_reaches(owned: Seq<u128>, systems: Seq<StarSystem>, c: Connection, x: u128) -> bool {
    ||| (c.system_b == x && claimable(owned, systems, c.system_a, x))
    ||| (c.system_a == x && claimable(owned, systems, c.system_b, x))
}

/// The expansion candidates are exactly the unclaimed systems that some
/// route joins to the faction's territory, each listed once.
pub proof fn law_adjacent_unclaimed_exact(
    owned: Seq<u128>,
    systems: Seq<StarSystem>,
    connections: Seq<Connection>,
)
    ensures
        adjacent_unclaimed(owned, systems, connections).no_duplicates(),
        forall|x: u128| adjacent_unclaimed(owned, systems, connections).contains(x) <==>
            exists|i: int| 0 <= i < connections.len()
                && route_reaches(owned, systems, #[trigger] connections[i], x),
    decreases connections.len(),
{
    if connections.len() > 0 {
        let init = connections.drop_last();
        law_adjacent_unclaimed_exact(owned, systems, init);
        let prev = adjacent_unclaimed(owned, systems, init);
        let c = connections.last();
        let r = adjacent_unclaimed(owned, systems, connections);
        let p1 = if claimable(owned, systems, c.system_a, c.system_b) && !prev.contains(c.system_b) {
            prev.push(c.system_b)
        } else {
            prev
        };
        assert(r == (if claimable(owned, systems, c.system_b, c.system_a) && !p1.contains(c.system_a) {
            p1.push(c.system_a)
        } else {
            p1
        }));
        assert forall|y: u128| prev.contains(y) implies r.contains(y) by {
            let j = choose|j: int| 0 <= j < prev.len() && prev[j] == y;
            assert(p1[j] == y);
            assert(r[j] == y);
        }
        assert forall|y: u128| p1.contains(y) implies r.contains(y) by {
            let j = choose|j: int| 0 <= j < p1.len() && p1[j] == y;
            assert(r[j] == y);
        }
        assert forall|y: u128| r.contains(y) implies prev.contains(y) || y == c.system_a
            || y == c.system_b by {
            let j = choose|j: int| 0 <= j < r.len() && r[j] == y;
            if j < prev.len() {
                assert(prev[j] == y);
            }
        }
        assert forall|x: u128| r.contains(x) <==>
            exists|i: int| 0 <= i < connections.len()
                && route_reaches(owned, systems, #[trigger] connections[i], x) by {
            let last = connections.len() - 1;
            assert(connections[last] == c);
            if r.contains(x) {
                if prev.contains(x) {
                    let i = choose|i: int| 0 <= i < init.len()
                        && route_reaches(owned, systems, #[trigger] init[i], x);
                    assert(connections[i] == init[i]);
                } else if x == c.system_b && claimable(owned, systems, c.system_a, c.system_b)
                    && !prev.contains(c.system_b) {
                    assert(route_reaches(owned, systems, connections[last], x));
                } else {
                    assert(p1.contains(x) ==> prev.contains(x) || x == c.system_b) by {
                        if p1.contains(x) {
                            let j = choose|j: int| 0 <= j < p1.len() && p1[j] == x;
                            if j < prev.len() {
                                assert(prev[j] == x);
                            }
                        }
                    }
                    if p1.contains(x) {
                        assert(route_reaches(owned, systems, connections[last], x));
                    } else {
                        let j = choose|j: int| 0 <= j < r.len() && r[j] == x;
                        assert(r != p1);
                        assert(x == c.system_a);
                        assert(route_reaches(owned, systems, connections[last], x));
                    }
                }
            }
            if exists|i: int| 0 <= i < connections.len()
                && route_reaches(owned, systems, #[trigger] connections[i], x) {
                let i = choose|i: int| 0 <= i < connections.len()
                    && route_reaches(owned, systems, #[trigger] connections[i], x);
                if i < init.len() {
                    assert(init[i] == connections[i]);
                    assert(prev.contains(x));
                } else {
                    assert(i == last);
                    if c.system_b == x && claimable(owned, systems, c.system_a, x) {
                        if !prev.contains(x) {
                            assert(p1[prev.len() as int] == x);
                            assert(p1.contains(x));
                        }
                    } else {
                        if !p1.contains(x) {
                            assert(r[p1.len() as int] == x);
                        }
                    }
                }
            }
        }
        assert(r.no_duplicates()) by {
            assert(p1.no_duplicates()) by {
                if p1 != prev {
                    assert forall|i: int, j: int| 0 <= i < p1.len() && 0 <= j < p1.len() && i != j
                        implies p1[i] != p1[j] by {
                        if i < prev.len() && j < prev.len() {
                            assert(prev[i] == p1[i] && prev[j] == p1[j]);
                        } else if i < prev.len() {
                            assert(prev[i] == p1[i]);
                        } else {
                            assert(prev[j] == p1[j]);
                        }
                    }
                }
            }
            if r != p1 {
                assert forall|i: int, j: int| 0 <= i < r.len() && 0 <= j < r.len() && i != j
                    implies r[i] != r[j] by {
                    if i < p1.len() && j < p1.len() {
                        assert(p1[i] == r[i] && p1[j] == r[j]);
                    } else if i < p1.len() {
                        assert(p1[i] == r[i]);
                    } else {
                        assert(p1[j] == r[j]);
                    }
                }
            }
        }
    }
}

/// The rank of a listed system's infrastructure, 0 when not listed.
pub open spec fn rank_of_id(systems: Seq<StarSystem>, id: u128) -> int {
    match system_with_id(systems, id) {
        Some(s) => infra_rank(s.infrastructure_level),
        None => 0,
    }
}

/// `k` is the first owned system of least infrastructure.
pub open spec fn is_first_lowest(owned: Seq<u128>, systems: Seq<StarSystem>, k: int) -> bool {
    &&& 0 <= k < owned.len()
    &&& forall|j: int| 0 <= j < owned.len() ==> rank_of_id(systems, owned[k]) <= rank_of_id(systems, owned[j])
    &&& forall|j: int| 0 <= j < k ==> rank_of_id(systems, owned[k]) < rank_of_id(systems, owned[j])
}

fn rank_by_id(systems: &Vec<StarSystem>, id: u128) -> (r: u8)
    ensures
        r == rank_of_id(systems@, id),
{
    match find_system(systems, id) {
        Some(s) => infrastructure_rank(s.infrastructure_level),
        None => 0,
    }
}

/// The owned system with the lowest infrastructure (the first such one).
/// The faction must own at least one system.
pub fn lowest_infrastructure_system(owned_ids: &Vec<u128>, systems: &Vec<StarSystem>) -> (r: u128)
    requires
        owned_ids@.len() > 0,
    ensures
        exists|k: int| is_first_lowest(owned_ids@, systems@, k) && r == owned_ids@[k],
{
    let mut best: usize = 0;
    let mut best_rank = rank_by_id(systems, owned_ids[0]);
    let mut i: usize = 1;
    while i < owned_ids.len()
        invariant
            1 <= i <= owned_ids.len(),
            best < i,
            best_rank == rank_of_id(systems@, owned_ids@[best as int]),
            forall|j: int| 0 <= j < i ==> best_rank <= rank_of_id(systems@, owned_ids@[j]),
            forall|j: int| 0 <= j < best ==> best_rank < rank_of_id(systems@, owned_ids@[j]),
        decreases owned_ids.len() - i,
    {
        let r = rank_by_id(systems, owned_ids[i]);
        if r < best_rank {
            best = i;
            best_rank = r;
        }
        i = i + 1;
    }
    assert(is_first_lowest(owned_ids@, systems@, best as int));
    owned_ids[best]
}

/// The rank of an infrastructure level, 0 (none) to 5 (capital).
pub fn infrastructure_rank(level: InfrastructureLevel) -> (r: u8)
    ensures
        r == infra_rank(level),
{
    match level {
        InfrastructureLevel::Uninhabited => 0,
        InfrastructureLevel::Outpost => 1,
        InfrastructureLevel::Colony => 2,
        InfrastructureLevel::Established => 3,
        InfrastructureLevel::Hub => 4,
        InfrastructureLevel::Capital => 5,
    }
}

/// Consolidation can raise a level until it reaches a hub; hubs and
/// capitals grow no further.
pub fn can_upgrade_infrastructure(level: InfrastructureLevel) -> (r: bool)
    ensures
        r == (infra_rank(level) < 4),
{
    !matches!(level, InfrastructureLevel::Capital | InfrastructureLevel::Hub)
}

pub open spec fn next_level(level: InfrastructureLevel) -> InfrastructureLevel {
    match level {
        InfrastructureLevel::Uninhabited => InfrastructureLevel::Outpost,
        InfrastructureLevel::Outpost => InfrastructureLevel::Colony,
        InfrastructureLevel::Colony => InfrastructureLevel::Established,
        InfrastructureLevel::Established => InfrastructureLevel::Hub,
        InfrastructureLevel::Hub => InfrastructureLevel::Hub,
        InfrastructureLevel::Capital => InfrastructureLevel::Capital,
    }
}

/// Upgrade infrastructure one step.
pub fn next_infrastructure_level(level: InfrastructureLevel) -> (r: InfrastructureLevel)
    ensures
        r == next_level(level),
{
    match level {
        InfrastructureLevel::Uninhabited => InfrastructureLevel::Outpost,
        InfrastructureLevel::Outpost => InfrastructureLevel::Colony,
        InfrastructureLevel::Colony => InfrastructureLevel::Established,
        InfrastructureLevel::Established => InfrastructureLevel::Hub,
        InfrastructureLevel::Hub => InfrastructureLevel::Hub,
        InfrastructureLevel::Capital => InfrastructureLevel::Capital,
    }
}

/// Upgrading raises an upgradable level by exactly one step and leaves
/// hubs and capitals as they are: consolidation never lowers
/// infrastructure and never makes a capital.
pub proof fn law_upgrade_steps_once(level: InfrastructureLevel)
    ensures
        infra_rank(level) < 4 ==> infra_rank(next_level(level)) == infra_rank(level) + 1,
        infra_rank(level) >= 4 ==> next_level(level) == level,
        infra_rank(next_level(level)) >= infra_rank(level),
        level != InfrastructureLevel::Capital ==> next_level(level) != InfrastructureLevel::Capital,
{
}

/// The ids of the first `n` systems a civilization controls, in order.
pub open spec fn owned_ids(systems: Seq<StarSystem>, civ: u128, n: nat) -> Seq<u128>
    decreases n,
{
    if n == 0 {
        Seq::empty()
    } else {
        let prev = owned_ids(systems, civ, (n - 1) as nat);
        if systems[n - 1].controlling_civ == Some(civ) {
            prev.push(systems[n - 1].id)
        } else {
            prev
        }
    }
}

/// The systems a civilization controls, in listed order.
pub fn owned_system_ids(systems: &Vec<StarSystem>, civ_id: u128) -> (r: Vec<u128>)
    ensures
        r@ == owned_ids(systems@, civ_id, systems@.len()),
{
    let mut r: Vec<u128> = Vec::new();
    let mut i: usize = 0;
    while i < systems.len()
        invariant
            i <= systems.len(),
            r@ == owned_ids(systems@, civ_id, i as nat),
        decreases systems.len() - i,
    {
        if systems[i].controlling_civ == Some(civ_id) {
            r.push(systems[i].id);
        }
        i = i + 1;
    }
    r
}

/// The ids of the first `n` systems a civilization controls whose
/// infrastructure can still grow, in order.
pub open spec fn upgradeable_ids(systems: Seq<StarSystem>, civ: u128, n: nat) -> Seq<u128>
    decreases n,
{
    if n == 0 {
        Seq::empty()
    } else {
        let prev = upgradeable_ids(systems, civ, (n - 1) as nat);
        if systems[n - 1].controlling_civ == Some(civ) && infra_rank(
            systems[n - 1].infrastructure_level,
        ) < 4 {
            prev.push(systems[n - 1].id)
        } else {
            prev
        }
    }
}

/// The systems a civilization controls that consolidation could still
/// develop, in listed order.
pub fn upgradeable_system_ids(systems: &Vec<StarSystem>, civ_id: u128) -> (r: Vec<u128>)
    ensures
        r@ == upgradeable_ids(systems@, civ_id, systems@.len()),
{
    let mut r: Vec<u128> = Vec::new();
    let mut i: usize = 0;
    while i < systems.len()
        invariant
            i <= systems.len(),
            r@ == upgradeable_ids(systems@, civ_id, i as nat),
        decreases systems.len() - i,
    {
        if systems[i].controlling_civ == Some(civ_id) && can_upgrade_infrastructure(
            systems[i].infrastructure_level,
        ) {
            r.push(systems[i].id);
        }
        i = i + 1;
    }
    r
}

/// Every system offered for consolidation is one the civilization
/// controls, and its infrastructure is below a hub.
pub proof fn law_upgradeable_are_owned(systems: Seq<StarSystem>, civ: u128, n: nat)
    requires
        n <= systems.len(),
    ensures
        forall|x: u128| #[trigger] upgradeable_ids(systems, civ, n).contains(x) ==> owned_ids(
            systems,
            civ,
            n,
        ).contains(x) && exists|j: int| 0 <= j < n && systems[j].id == x
            && systems[j].controlling_civ == Some(civ) && infra_rank(
            systems[j].infrastructure_level,
        ) < 4,
    decreases n,
{
    if n > 0 {
        let m = (n - 1) as nat;
        law_upgradeable_are_owned(systems, civ, m);
        let up0 = upgradeable_ids(systems, civ, m);
        let own0 = owned_ids(systems, civ, m);
        let up = upgradeable_ids(systems, civ, n);
        let own = owned_ids(systems, civ, n);
        assert forall|y: u128| own0.contains(y) implies own.contains(y) by {
            let j = choose|j: int| 0 <= j < own0.len() && own0[j] == y;
            assert(own[j] == y);
        }
        assert forall|x: u128| #[trigger] up.contains(x) implies own.contains(x) && exists|j: int|
            0 <= j < n && systems[j].id == x && systems[j].controlling_civ == Some(civ)
                && infra_rank(systems[j].infrastructure_level) < 4 by {
            let q = choose|q: int| 0 <= q < up.len() && up[q] == x;
            if q < up0.len() {
                assert(up0[q] == x);
                assert(up0.contains(x));
            } else {
                assert(x == systems[m as int].id);
                assert(own[own0.len() as int] == x);
            }
        }
    }
}

} // verus!
