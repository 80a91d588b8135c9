//! The galaxy model as the simulation rules read it.

use vstd::prelude::*;

verus! {

/// How developed a system is, from nothing to a capital.
#[derive(Debug, Clone, Copy, PartialEq, Eq, Structural)]
pub enum InfrastructureLevel {
    /// No settlement at all.
    Uninhabited,
    Outpost,
    Colony,
    Established,
    Hub,
    Capital,
}

/// The position of a level, 0 (none) to 5 (capital).
pub open spec fn infra_rank(l: InfrastructureLevel) -> int {
    match l {
        InfrastructureLevel::Uninhabited => 0,
        InfrastructureLevel::Outpost => 1,
        InfrastructureLevel::Colony => 2,
        InfrastructureLevel::Established => 3,
        InfrastructureLevel::Hub => 4,
        InfrastructureLevel::Capital => 5,
    }
}

/// The kind of a star.
#[derive(Debug, Clone, Copy, PartialEq, Eq, Structural)]
pub enum StarType {
    RedDwarf,
    YellowDwarf,
    WhiteDwarf,
    BrownDwarf,
    RedGiant,
    BlueGiant,
    BlueSuperGiant,
    WolfRayet,
    Binary,
    Neutron,
    Pulsar,
    BlackHole,
    Anomalous,
}

/// What a faction is about.
#[derive(Debug, Clone, Copy, PartialEq, Eq, Structural)]
pub enum FactionCategory {
    Military,
    Economic,
    Guild,
    Religious,
    Political,
    Academic,
    Criminal,
}

/// Where a faction operates.
#[derive(Debug, Clone)]
pub enum FactionScope {
    /// Inside one civilization.
    CivInternal { civ_id: u128 },
    /// Across several civilizations.
    Transnational { civ_ids: Vec<u128> },
    /// Outside any civilization.
    Independent,
}

/// A service a faction offers where it is present.
#[derive(Debug, Clone, Copy, PartialEq, Eq, Structural)]
pub enum FactionService {
    Missions,
    Trade,
    Intelligence,
    Repair,
    Smuggling,
    Training,
    Shelter,
}

/// The kind of a route between two systems.
#[derive(Debug, Clone, Copy, PartialEq, Eq, Structural)]
pub enum RouteType {
    Open,
    Hazardous,
    Corridor,
    FtlLane,
}

/// A place within a system, as far as the rules read it.
#[derive(Debug, Clone)]
pub struct Location {
    pub id: u128,
    pub name: String,
    pub infrastructure: InfrastructureLevel,
    /// Ships can dock here.
    pub docking: bool,
}

/// A star system, as far as the rules read it.
#[derive(Debug, Clone)]
pub struct StarSystem {
    pub id: u128,
    pub name: String,
    pub controlling_civ: Option<u128>,
    pub infrastructure_level: InfrastructureLevel,
    pub locations: Vec<Location>,
}

/// A route between two systems.
#[derive(Debug, Clone, Copy)]
pub struct Connection {
    pub system_a: u128,
    pub system_b: u128,
    pub route_type: RouteType,
}

/// Something pushing on a civilization from within, and the faction
/// behind it when one is known.
#[derive(Debug, Clone)]
pub struct CivPressure {
    pub description: String,
    pub source_faction: Option<u128>,
}

/// A civilization, as far as the rules read it.
#[derive(Debug, Clone)]
pub struct Civilization {
    pub id: u128,
    pub name: String,
    pub faction_ids: Vec<u128>,
    pub pressures: Vec<CivPressure>,
}

/// A faction, as far as the rules read it.
#[derive(Debug, Clone)]
pub struct Faction {
    pub id: u128,
    pub name: String,
    pub category: FactionCategory,
    pub scope: FactionScope,
}

/// The system with this id, if listed.
pub open spec fn system_with_id(systems: Seq<StarSystem>, id: u128) -> Option<StarSystem>
    decreases systems.len(),
{
    if systems.len() == 0 {
        None
    } else if systems[0].id == id {
        Some(systems[0])
    } else {
        system_with_id(systems.drop_first(), id)
    }
}

/// Look up a system by id (the first one listed with it).
pub fn find_system(systems: &Vec<StarSystem>, id: u128) -> (r: Option<&StarSystem>)
    ensures
        match r {
            Some(s) => system_with_id(systems@, id) == Some(*s),
            None => system_with_id(systems@, id) is None,
        },
{
    let mut i: usize = 0;
    assert(systems@.skip(0) =~= systems@);
    while i < systems.len()
        invariant
            i <= systems.len(),
            system_with_id(systems@, id) == system_with_id(systems@.skip(i as int), id),
        decreases systems.len() - i,
    {
        assert(systems@.skip(i as int).drop_first() =~= systems@.skip(i as int + 1));
        if systems[i].id == id {
            return Some(&systems[i]);
        }
        i = i + 1;
    }
    None
}

/// Whether an id is in a list.
pub fn contains_id(ids: &Vec<u128>, id: u128) -> (r: bool)
    ensures
        r == ids@.contains(id),
{
    let mut i: usize = 0;
    while i < ids.len()
        invariant
            i <= ids.len(),
            forall|j: int| 0 <= j < i ==> ids@[j] != id,
        decreases ids.len() - i,
    {
        if ids[i] == id {
            return true;
        }
        i = i + 1;
    }
    false
}

} // verus!
