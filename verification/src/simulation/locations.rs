//! The places inside a star system: its station or outpost, its planets
//! and moons, an asteroid belt, and hidden sites, laid out from the
//! system's development and a set of random draws.

use rand::rngs::StdRng;
use vstd::prelude::*;

use crate::rng::{draw_below, draw_between, draw_ratio};
use crate::simulation::galaxy::{infra_rank, InfrastructureLevel, StarType};
use crate::simulation::generate::{roman, roman_numeral};
use crate::text::has_prefix;

verus! {

/// What a planet or moon is like.
#[derive(Debug, Clone, Copy, PartialEq, Eq, Structural)]
pub enum BodyType {
    Terrestrial,
    GasGiant,
    IceWorld,
    Barren,
    Oceanic,
    Gaia,
}

/// What kind of place a location is.
#[derive(Debug, Clone, Copy, PartialEq, Eq, Structural)]
pub enum LocationKind {
    Station,
    PlanetSurface(BodyType),
    Moon(BodyType),
    AsteroidBelt,
    DeepSpace,
}

/// What a ship can do at a location.
#[derive(Debug, Clone, Copy, PartialEq, Eq, Structural)]
pub enum LocationService {
    Docking,
    Refuel,
    Trade,
    Rumors,
    Repair,
    Contracts,
    Recruitment,
}

/// A location as laid out, before its orbit and economy are filled in.
#[derive(Debug, Clone)]
pub struct LocationPlan {
    pub name: String,
    pub kind: LocationKind,
    /// The planet a moon circles.
    pub parent_body: Option<String>,
    pub infrastructure: InfrastructureLevel,
    pub services: Vec<LocationService>,
    pub description: String,
    /// Visible without scanning.
    pub discovered: bool,
    /// Trades, so it gets an economy.
    pub has_economy: bool,
}

/// A location plan as a mathematical value.
pub struct PlanView {
    pub name: Seq<char>,
    pub kind: LocationKind,
    pub parent_body: Option<Seq<char>>,
    pub infrastructure: InfrastructureLevel,
    pub services: Seq<LocationService>,
    pub description: Seq<char>,
    pub discovered: bool,
    pub has_economy: bool,
}

impl View for LocationPlan {
    type V = PlanView;

    open spec fn view(&self) -> PlanView {
        PlanView {
            name: self.name@,
            kind: self.kind,
            parent_body: match self.parent_body {
                Some(p) => Some(p@),
                None => None,
            },
            infrastructure: self.infrastructure,
            services: self.services@,
            description: self.description@,
            discovered: self.discovered,
            has_economy: self.has_economy,
        }
    }
}

/// The views of a list of plans.
pub open spec fn plan_views(v: Seq<LocationPlan>) -> Seq<PlanView> {
    v.map_values(|p: LocationPlan| p@)
}

/// The draws that shape one planet.
#[derive(Debug, Clone, Copy)]
pub struct PlanetDraw {
    /// Index into terrestrial, gas giant, ice world, barren, oceanic.
    pub body: usize,
    /// A habitable planet beyond the first gets an outpost.
    pub extra_outpost: bool,
    /// A gas giant or terrestrial world has a moon.
    pub moon: bool,
    /// The moon is barren rather than icy.
    pub moon_barren: bool,
    /// The moon carries an outpost.
    pub moon_outpost: bool,
}

/// The random draws that shape a system's locations.
#[derive(Debug, Clone)]
pub struct LocationDraws {
    pub planets: Vec<PlanetDraw>,
    /// There is an asteroid belt (with at least two planets).
    pub belt: bool,
    /// The belt carries an outpost.
    pub belt_outpost: bool,
    /// A hidden anomaly, by description index.
    pub anomaly: Option<usize>,
    /// A hidden derelict, by description index.
    pub derelict: Option<usize>,
}

/// The body type a draw index names.
pub open spec fn body_of(k: usize) -> BodyType {
    if k == 0 {
        BodyType::Terrestrial
    } else if k == 1 {
        BodyType::GasGiant
    } else if k == 2 {
        BodyType::IceWorld
    } else if k == 3 {
        BodyType::Barren
    } else {
        BodyType::Oceanic
    }
}

fn body_for(k: usize) -> (r: BodyType)
    ensures
        r == body_of(k),
{
    if k == 0 {
        BodyType::Terrestrial
    } else if k == 1 {
        BodyType::GasGiant
    } else if k == 2 {
        BodyType::IceWorld
    } else if k == 3 {
        BodyType::Barren
    } else {
        BodyType::Oceanic
    }
}

/// Settlements can live on it.
pub open spec fn habitable(b: BodyType) -> bool {
    b == BodyType::Terrestrial || b == BodyType::Oceanic || b == BodyType::Gaia
}

/// The station's services: docking and fuel, trade and rumors from a
/// colony up, repairs and contracts from an established settlement up,
/// recruitment from a hub up.
pub open spec fn station_services(infra: InfrastructureLevel) -> Seq<LocationService> {
    let a = seq![LocationService::Docking, LocationService::Refuel];
    let b = if infra_rank(infra) >= 2 {
        a + seq![LocationService::Trade, LocationService::Rumors]
    } else {
        a
    };
    let c = if infra_rank(infra) >= 3 {
        b + seq![LocationService::Repair, LocationService::Contracts]
    } else {
        b
    };
    if infra_rank(infra) >= 4 {
        c.push(LocationService::Recruitment)
    } else {
        c
    }
}

/// How a station is described by its development.
pub open spec fn station_words(infra: InfrastructureLevel) -> Seq<char> {
    match infra {
        InfrastructureLevel::Capital => "A sprawling orbital complex. The political and economic heart of the system."@,
        InfrastructureLevel::Hub => "A busy transit station. Ships from across the sector dock here."@,
        InfrastructureLevel::Established => "A well-maintained station with full services."@,
        InfrastructureLevel::Colony => "A functional station serving the local colony."@,
        _ => "A basic docking facility."@,
    }
}

/// The station of a developed system, or the landing pad of an outpost
/// system; nothing in an uninhabited one.
pub open spec fn station_plans(name: Seq<char>, infra: InfrastructureLevel) -> Seq<PlanView> {
    if infra_rank(infra) >= 2 {
        seq![PlanView {
            name: name + " Station"@,
            kind: LocationKind::Station,
            parent_body: None,
            infrastructure: infra,
            services: station_services(infra),
            description: station_words(infra),
            discovered: true,
            has_economy: true,
        }]
    } else if infra == InfrastructureLevel::Outpost {
        seq![PlanView {
            name: name + " Outpost"@,
            kind: LocationKind::Station,
            parent_body: None,
            infrastructure: InfrastructureLevel::Outpost,
            services: seq![LocationService::Docking, LocationService::Refuel, LocationService::Trade],
            description: "A handful of prefabs and a landing pad. It's something."@,
            discovered: true,
            has_economy: true,
        }]
    } else {
        Seq::empty()
    }
}

/// A planet's development: the first planet, if habitable, in a system
/// from a colony up is settled (established around hubs and capitals, a
/// colony in an established system, else an outpost); other habitable
/// planets in established systems and up get an outpost when drawn.
pub open spec fn planet_infra(
    infra: InfrastructureLevel,
    body: BodyType,
    i: int,
    extra_outpost: bool,
) -> InfrastructureLevel {
    if habitable(body) && infra_rank(infra) >= 2 && i == 0 {
        match infra {
            InfrastructureLevel::Capital => InfrastructureLevel::Established,
            InfrastructureLevel::Hub => InfrastructureLevel::Established,
            InfrastructureLevel::Established => InfrastructureLevel::Colony,
            _ => InfrastructureLevel::Outpost,
        }
    } else if habitable(body) && infra_rank(infra) >= 3 && extra_outpost {
        InfrastructureLevel::Outpost
    } else {
        InfrastructureLevel::Uninhabited
    }
}

/// A planet's services: docking when settled, trade and rumors from a
/// colony up.
pub open spec fn planet_services(pi: InfrastructureLevel) -> Seq<LocationService> {
    if infra_rank(pi) >= 1 {
        if infra_rank(pi) >= 2 {
            seq![LocationService::Docking, LocationService::Trade, LocationService::Rumors]
        } else {
            seq![LocationService::Docking]
        }
    } else {
        Seq::empty()
    }
}

/// How a planet is described, settled or not.
pub open spec fn planet_words(body: BodyType, settled: bool) -> Seq<char> {
    if settled {
        match body {
            BodyType::Terrestrial => "A rocky world with a thin atmosphere. Settlements dot the surface."@,
            BodyType::Oceanic => "An ocean world. Platform colonies rise above the waves."@,
            BodyType::Gaia => "A living world. Green, breathable, and fiercely contested."@,
            _ => "A settled world."@,
        }
    } else {
        match body {
            BodyType::GasGiant => "A massive gas giant. Beautiful and uninhabitable."@,
            BodyType::IceWorld => "A frozen world. Sensors detect subsurface water."@,
            BodyType::Barren => "A lifeless rock. Mineral deposits visible on scan."@,
            BodyType::Terrestrial => "A rocky world with a thin atmosphere. No settlements detected."@,
            BodyType::Oceanic => "An ocean world. No infrastructure visible."@,
            _ => "An uncolonized world."@,
        }
    }
}

/// The name of the `i`th planet (counting from zero).
pub open spec fn planet_name(name: Seq<char>, i: int) -> Seq<char> {
    name + " "@ + roman((i + 1) as usize)
}

/// The `i`th planet, and its moon if it has one.
pub open spec fn one_planet(name: Seq<char>, infra: InfrastructureLevel, d: PlanetDraw, i: int) -> Seq<
    PlanView,
> {
    let body = body_of(d.body);
    let pi = planet_infra(infra, body, i, d.extra_outpost);
    let pname = planet_name(name, i);
    let planet = PlanView {
        name: pname,
        kind: LocationKind::PlanetSurface(body),
        parent_body: None,
        infrastructure: pi,
        services: planet_services(pi),
        description: planet_words(body, infra_rank(pi) >= 1),
        discovered: true,
        has_economy: infra_rank(pi) >= 1,
    };
    if (body == BodyType::GasGiant || body == BodyType::Terrestrial) && d.moon {
        let moon_body = if d.moon_barren { BodyType::Barren } else { BodyType::IceWorld };
        let mi = if infra_rank(infra) >= 3 && d.moon_outpost {
            InfrastructureLevel::Outpost
        } else {
            InfrastructureLevel::Uninhabited
        };
        seq![planet, PlanView {
            name: pname + "-a"@,
            kind: LocationKind::Moon(moon_body),
            parent_body: Some(pname),
            infrastructure: mi,
            services: if infra_rank(mi) >= 1 {
                seq![LocationService::Docking, LocationService::Refuel]
            } else {
                Seq::empty()
            },
            description: if infra_rank(mi) >= 1 {
                "A small moon with a mining or refueling outpost."@
            } else {
                "A small moon. Unremarkable on sensors."@
            },
            discovered: true,
            has_economy: infra_rank(mi) >= 1,
        }]
    } else {
        seq![planet]
    }
}

/// The first `n` planets with their moons, in orbit order.
pub open spec fn planet_plans(
    name: Seq<char>,
    infra: InfrastructureLevel,
    planets: Seq<PlanetDraw>,
    n: nat,
) -> Seq<PlanView>
    decreases n,
{
    if n == 0 {
        Seq::empty()
    } else {
        planet_plans(name, infra, planets, (n - 1) as nat) + one_planet(
            name,
            infra,
            planets[n - 1],
            n - 1,
        )
    }
}

/// The asteroid belt, when drawn in a system of two or more planets; it
/// carries a mining outpost when drawn in a system from a colony up.
pub open spec fn belt_plans(name: Seq<char>, infra: InfrastructureLevel, d: LocationDraws) -> Seq<
    PlanView,
> {
    if d.planets@.len() >= 2 && d.belt {
        let bi = if infra_rank(infra) >= 2 && d.belt_outpost {
            InfrastructureLevel::Outpost
        } else {
            InfrastructureLevel::Uninhabited
        };
        seq![PlanView {
            name: name + " Belt"@,
            kind: LocationKind::AsteroidBelt,
            parent_body: None,
            infrastructure: bi,
            services: if infra_rank(bi) >= 1 {
                seq![LocationService::Docking, LocationService::Trade]
            } else {
                Seq::empty()
            },
            description: if infra_rank(bi) >= 1 {
                "An asteroid belt with active mining operations. Docking available at the processing platform."@
            } else {
                "A scattered asteroid belt. Rich in minerals, empty of people."@
            },
            discovered: true,
            has_economy: infra_rank(bi) >= 1,
        }]
    } else {
        Seq::empty()
    }
}

/// The descriptions a hidden anomaly may have.
pub open spec fn anomaly_words(k: usize) -> Seq<char> {
    if k == 0 {
        "Faint energy readings at unusual frequencies. Source unknown."@
    } else if k == 1 {
        "A gravitational anomaly \u{2014} something dense, not on any chart."@
    } else if k == 2 {
        "Intermittent signal. Mathematical structure. Not natural."@
    } else if k == 3 {
        "Debris field. Too uniform to be accidental."@
    } else {
        "Sensor ghost \u{2014} something is here, but it doesn't want to be seen."@
    }
}

/// The descriptions a hidden derelict may have.
pub open spec fn derelict_words(k: usize) -> Seq<char> {
    if k == 0 {
        "A ship. Dead in space. No transponder, no power signature."@
    } else if k == 1 {
        "Wreckage spread across a kilometer. Recent."@
    } else {
        "An old station, dark and drifting. Pre-dates local colonization."@
    }
}

/// A hidden deep-space site: not discovered, no services, no economy.
pub open spec fn hidden_site(name: Seq<char>, words: Seq<char>) -> PlanView {
    PlanView {
        name,
        kind: LocationKind::DeepSpace,
        parent_body: None,
        infrastructure: InfrastructureLevel::Uninhabited,
        services: Seq::empty(),
        description: words,
        discovered: false,
        has_economy: false,
    }
}

/// The hidden sites: an anomaly when drawn, and a derelict when drawn in
/// a system no more developed than an outpost.
pub open spec fn hidden_plans(name: Seq<char>, infra: InfrastructureLevel, d: LocationDraws) -> Seq<
    PlanView,
> {
    let a = match d.anomaly {
        Some(k) => seq![hidden_site(name + " Anomaly"@, anomaly_words(k))],
        None => Seq::empty(),
    };
    match d.derelict {
        Some(k) => if infra_rank(infra) <= 1 {
            a.push(hidden_site(name + " Derelict"@, derelict_words(k)))
        } else {
            a
        },
        None => a,
    }
}

/// All of a system's locations, innermost first.
pub open spec fn location_plans(name: Seq<char>, infra: InfrastructureLevel, d: LocationDraws) -> Seq<
    PlanView,
> {
    station_plans(name, infra) + planet_plans(name, infra, d.planets@, d.planets@.len())
        + belt_plans(name, infra, d) + hidden_plans(name, infra, d)
}

/// `a` then `b`.
fn joined2(a: &str, b: &str) -> (r: String)
    ensures
        r@ == a@ + b@,
{
    let mut r = a.to_owned();
    r.append(b);
    r
}

fn station_services_of(infra: InfrastructureLevel) -> (r: Vec<LocationService>)
    ensures
        r@ == station_services(infra),
{
    let rank = crate::simulation::faction_ai::infrastructure_rank(infra);
    let mut v = vec![LocationService::Docking, LocationService::Refuel];
    if rank >= 2 {
        v.push(LocationService::Trade);
        v.push(LocationService::Rumors);
    }
    if rank >= 3 {
        v.push(LocationService::Repair);
        v.push(LocationService::Contracts);
    }
    if rank >= 4 {
        v.push(LocationService::Recruitment);
    }
    assert(v@ =~= station_services(infra));
    v
}

fn station_text(infra: InfrastructureLevel) -> (r: &'static str)
    ensures
        r@ == station_words(infra),
{
    match infra {
        InfrastructureLevel::Capital => "A sprawling orbital complex. The political and economic heart of the system.",
        InfrastructureLevel::Hub => "A busy transit station. Ships from across the sector dock here.",
        InfrastructureLevel::Established => "A well-maintained station with full services.",
        InfrastructureLevel::Colony => "A functional station serving the local colony.",
        _ => "A basic docking facility.",
    }
}

fn planet_text(body: BodyType, settled: bool) -> (r: &'static str)
    ensures
        r@ == planet_words(body, settled),
{
    if settled {
        match body {
            BodyType::Terrestrial => "A rocky world with a thin atmosphere. Settlements dot the surface.",
            BodyType::Oceanic => "An ocean world. Platform colonies rise above the waves.",
            BodyType::Gaia => "A living world. Green, breathable, and fiercely contested.",
            _ => "A settled world.",
        }
    } else {
        match body {
            BodyType::GasGiant => "A massive gas giant. Beautiful and uninhabitable.",
            BodyType::IceWorld => "A frozen world. Sensors detect subsurface water.",
            BodyType::Barren => "A lifeless rock. Mineral deposits visible on scan.",
            BodyType::Terrestrial => "A rocky world with a thin atmosphere. No settlements detected.",
            BodyType::Oceanic => "An ocean world. No infrastructure visible.",
            _ => "An uncolonized world.",
        }
    }
}

fn anomaly_text(k: usize) -> (r: &'static str)
    ensures
        r@ == anomaly_words(k),
{
    if k == 0 {
        "Faint energy readings at unusual frequencies. Source unknown."
    } else if k == 1 {
        "A gravitational anomaly \u{2014} something dense, not on any chart."
    } else if k == 2 {
        "Intermittent signal. Mathematical structure. Not natural."
    } else if k == 3 {
        "Debris field. Too uniform to be accidental."
    } else {
        "Sensor ghost \u{2014} something is here, but it doesn't want to be seen."
    }
}

fn derelict_text(k: usize) -> (r: &'static str)
    ensures
        r@ == derelict_words(k),
{
    if k == 0 {
        "A ship. Dead in space. No transponder, no power signature."
    } else if k == 1 {
        "Wreckage spread across a kilometer. Recent."
    } else {
        "An old station, dark and drifting. Pre-dates local colonization."
    }
}

fn planet_infra_of(infra: InfrastructureLevel, body: BodyType, i: usize, extra_outpost: bool) -> (r:
    InfrastructureLevel)
    ensures
        r == planet_infra(infra, body, i as int, extra_outpost),
{
    let rank = crate::simulation::faction_ai::infrastructure_rank(infra);
    let hab = body == BodyType::Terrestrial || body == BodyType::Oceanic || body == BodyType::Gaia;
    if hab && rank >= 2 && i == 0 {
        match infra {
            InfrastructureLevel::Capital => InfrastructureLevel::Established,
            InfrastructureLevel::Hub => InfrastructureLevel::Established,
            InfrastructureLevel::Established => InfrastructureLevel::Colony,
            _ => InfrastructureLevel::Outpost,
        }
    } else if hab && rank >= 3 && extra_outpost {
        InfrastructureLevel::Outpost
    } else {
        InfrastructureLevel::Uninhabited
    }
}

/// Append the `i`th planet and its moon.
fn push_planet(
    out: &mut Vec<LocationPlan>,
    system_name: &str,
    infra: InfrastructureLevel,
    d: PlanetDraw,
    i: usize,
)
    requires
        i < usize::MAX,
    ensures
        plan_views(final(out)@) == plan_views(old(out)@) + one_planet(system_name@, infra, d, i as int),
{
    let body = body_for(d.body);
    let pi = planet_infra_of(infra, body, i, d.extra_outpost);
    let prank = crate::simulation::faction_ai::infrastructure_rank(pi);
    let mut pname = joined2(system_name, " ");
    pname.append(roman_numeral(i + 1));
    let services = if prank >= 1 {
        if prank >= 2 {
            vec![LocationService::Docking, LocationService::Trade, LocationService::Rumors]
        } else {
            vec![LocationService::Docking]
        }
    } else {
        Vec::new()
    };
    assert(services@ =~= planet_services(pi));
    let ghost before = plan_views(out@);
    let planet = LocationPlan {
        name: pname.clone(),
        kind: LocationKind::PlanetSurface(body),
        parent_body: None,
        infrastructure: pi,
        services,
        description: planet_text(body, prank >= 1).to_owned(),
        discovered: true,
        has_economy: prank >= 1,
    };
    out.push(planet);
    assert(plan_views(out@) =~= before.push(one_planet(system_name@, infra, d, i as int)[0]));
    if (body == BodyType::GasGiant || body == BodyType::Terrestrial) && d.moon {
        let moon_body = if d.moon_barren { BodyType::Barren } else { BodyType::IceWorld };
        let mi = if crate::simulation::faction_ai::infrastructure_rank(infra) >= 3 && d.moon_outpost {
            InfrastructureLevel::Outpost
        } else {
            InfrastructureLevel::Uninhabited
        };
        let settled = mi == InfrastructureLevel::Outpost;
        let moon_services = if settled {
            vec![LocationService::Docking, LocationService::Refuel]
        } else {
            Vec::new()
        };
        let words = if settled {
            "A small moon with a mining or refueling outpost."
        } else {
            "A small moon. Unremarkable on sensors."
        };
        let ghost mid = plan_views(out@);
        let moon = LocationPlan {
            name: joined2(pname.as_str(), "-a"),
            kind: LocationKind::Moon(moon_body),
            parent_body: Some(pname),
            infrastructure: mi,
            services: moon_services,
            description: words.to_owned(),
            discovered: true,
            has_economy: settled,
        };
        out.push(moon);
        proof {
            let m = one_planet(system_name@, infra, d, i as int)[1];
            assert(moon_services@ =~= m.services);
            assert(plan_views(out@) =~= mid.push(m));
            assert(one_planet(system_name@, infra, d, i as int) =~= seq![
                one_planet(system_name@, infra, d, i as int)[0],
                m,
            ]);
            assert(plan_views(out@) =~= before + one_planet(system_name@, infra, d, i as int));
        }
    } else {
        assert(plan_views(out@) =~= before + one_planet(system_name@, infra, d, i as int));
    }
}

/// Lay out a system's locations from its development and the draws that
/// shape them: the station or landing pad, the planets with their moons,
/// the belt, then the hidden sites.
pub fn locations_from_draws(
    system_name: &str,
    infra: InfrastructureLevel,
    draws: &LocationDraws,
) -> (r: Vec<LocationPlan>)
    requires
        draws.planets@.len() < usize::MAX,
    ensures
        plan_views(r@) == location_plans(system_name@, infra, *draws),
{
    let rank = crate::simulation::faction_ai::infrastructure_rank(infra);
    let mut out: Vec<LocationPlan> = Vec::new();
    if rank >= 2 {
        out.push(LocationPlan {
            name: joined2(system_name, " Station"),
            kind: LocationKind::Station,
            parent_body: None,
            infrastructure: infra,
            services: station_services_of(infra),
            description: station_text(infra).to_owned(),
            discovered: true,
            has_economy: true,
        });
    } else if rank == 1 {
        let services = vec![LocationService::Docking, LocationService::Refuel, LocationService::Trade];
        out.push(LocationPlan {
            name: joined2(system_name, " Outpost"),
            kind: LocationKind::Station,
            parent_body: None,
            infrastructure: InfrastructureLevel::Outpost,
            services,
            description: "A handful of prefabs and a landing pad. It's something.".to_owned(),
            discovered: true,
            has_economy: true,
        });
        assert(services@ =~= seq![LocationService::Docking, LocationService::Refuel, LocationService::Trade]);
    }
    assert(plan_views(out@) =~= station_plans(system_name@, infra));
    let ghost start = plan_views(out@);
    let mut i: usize = 0;
    while i < draws.planets.len()
        invariant
            i <= draws.planets@.len() < usize::MAX,
            plan_views(out@) == start + planet_plans(system_name@, infra, draws.planets@, i as nat),
        decreases draws.planets.len() - i,
    {
        push_planet(&mut out, system_name, infra, draws.planets[i], i);
        i = i + 1;
    }
    let ghost with_planets = plan_views(out@);
    if draws.planets.len() >= 2 && draws.belt {
        let outpost = rank >= 2 && draws.belt_outpost;
        let bi = if outpost { InfrastructureLevel::Outpost } else { InfrastructureLevel::Uninhabited };
        let services = if outpost {
            vec![LocationService::Docking, LocationService::Trade]
        } else {
            Vec::new()
        };
        let words = if outpost {
            "An asteroid belt with active mining operations. Docking available at the processing platform."
        } else {
            "A scattered asteroid belt. Rich in minerals, empty of people."
        };
        out.push(LocationPlan {
            name: joined2(system_name, " Belt"),
            kind: LocationKind::AsteroidBelt,
            parent_body: None,
            infrastructure: bi,
            services,
            description: words.to_owned(),
            discovered: true,
            has_economy: outpost,
        });
        proof {
            let b = belt_plans(system_name@, infra, *draws);
            assert(services@ =~= b[0].services);
            assert(plan_views(out@) =~= with_planets + b);
        }
    } else {
        assert(plan_views(out@) =~= with_planets + belt_plans(system_name@, infra, *draws));
    }
    let ghost with_belt = plan_views(out@);
    match draws.anomaly {
        Some(k) => {
            out.push(LocationPlan {
                name: joined2(system_name, " Anomaly"),
                kind: LocationKind::DeepSpace,
                parent_body: None,
                infrastructure: InfrastructureLevel::Uninhabited,
                services: Vec::new(),
                description: anomaly_text(k).to_owned(),
                discovered: false,
                has_economy: false,
            });
        },
        None => {},
    }
    let ghost with_anomaly = plan_views(out@);
    match draws.derelict {
        Some(k) => {
            if rank <= 1 {
                out.push(LocationPlan {
                    name: joined2(system_name, " Derelict"),
                    kind: LocationKind::DeepSpace,
                    parent_body: None,
                    infrastructure: InfrastructureLevel::Uninhabited,
                    services: Vec::new(),
                    description: derelict_text(k).to_owned(),
                    discovered: false,
                    has_economy: false,
                });
            }
        },
        None => {},
    }
    proof {
        let a: Seq<PlanView> = match draws.anomaly {
            Some(k) => seq![hidden_site(system_name@ + " Anomaly"@, anomaly_words(k))],
            None => Seq::empty(),
        };
        assert(with_anomaly =~= with_belt + a);
        assert(plan_views(out@) =~= with_belt + hidden_plans(system_name@, infra, *draws));
    }
    out
}

/// What every laid-out location keeps to: it is hidden exactly when it is
/// a deep-space site, it trades exactly when it offers a service, and its
/// name begins with the system's.
pub open spec fn plan_ok(p: PlanView, name: Seq<char>) -> bool {
    &&& (p.discovered <==> p.kind != LocationKind::DeepSpace)
    &&& (p.has_economy <==> p.services.len() > 0)
    &&& has_prefix(p.name, name)
}

/// Every location of a layout keeps to `plan_ok`.
pub open spec fn layout_ok(s: Seq<PlanView>, name: Seq<char>) -> bool {
    forall|i: int| 0 <= i < s.len() ==> plan_ok(#[trigger] s[i], name)
}

proof fn lemma_prefix_grows(a: Seq<char>, b: Seq<char>, p: Seq<char>)
    requires
        has_prefix(a, p),
    ensures
        has_prefix(a + b, p),
{
    assert((a + b).take(p.len() as int) =~= a.take(p.len() as int));
}

proof fn lemma_own_prefix(a: Seq<char>)
    ensures
        has_prefix(a, a),
{
    assert(a.take(a.len() as int) =~= a);
}

proof fn lemma_layout_concat(a: Seq<PlanView>, b: Seq<PlanView>, name: Seq<char>)
    requires
        layout_ok(a, name),
        layout_ok(b, name),
    ensures
        layout_ok(a + b, name),
{
    assert forall|i: int| 0 <= i < (a + b).len() implies plan_ok(#[trigger] (a + b)[i], name) by {
        if i < a.len() {
            assert((a + b)[i] == a[i]);
        } else {
            assert((a + b)[i] == b[i - a.len()]);
        }
    }
}

proof fn lemma_planets_ok(name: Seq<char>, infra: InfrastructureLevel, planets: Seq<PlanetDraw>, n: nat)
    requires
        n <= planets.len(),
    ensures
        layout_ok(planet_plans(name, infra, planets, n), name),
    decreases n,
{
    if n > 0 {
        lemma_planets_ok(name, infra, planets, (n - 1) as nat);
        let i = n - 1;
        let pname = planet_name(name, i);
        lemma_own_prefix(name);
        lemma_prefix_grows(name, " "@ + roman((i + 1) as usize), name);
        assert(pname =~= name + (" "@ + roman((i + 1) as usize)));
        lemma_prefix_grows(pname, "-a"@, name);
        let one = one_planet(name, infra, planets[i], i);
        assert(layout_ok(one, name));
        lemma_layout_concat(planet_plans(name, infra, planets, (n - 1) as nat), one, name);
    }
}

/// Laid out from any draws, every location is hidden exactly when it is
/// a deep-space site, has an economy exactly when it offers services, and
/// is named after its system.
pub proof fn law_location_layout(name: Seq<char>, infra: InfrastructureLevel, d: LocationDraws)
    ensures
        layout_ok(location_plans(name, infra, d), name),
{
    lemma_own_prefix(name);
    lemma_prefix_grows(name, " Station"@, name);
    lemma_prefix_grows(name, " Outpost"@, name);
    lemma_prefix_grows(name, " Belt"@, name);
    lemma_prefix_grows(name, " Anomaly"@, name);
    lemma_prefix_grows(name, " Derelict"@, name);
    let st = station_plans(name, infra);
    assert(layout_ok(st, name));
    lemma_planets_ok(name, infra, d.planets@, d.planets@.len());
    let pl = planet_plans(name, infra, d.planets@, d.planets@.len());
    let be = belt_plans(name, infra, d);
    assert(layout_ok(be, name));
    let hi = hidden_plans(name, infra, d);
    assert(layout_ok(hi, name));
    lemma_layout_concat(st, pl, name);
    lemma_layout_concat(st + pl, be, name);
    lemma_layout_concat(st + pl + be, hi, name);
}

/// A system from a colony up has its station first: named after the
/// system, docked at, refuelled at, traded and heard rumors at, with
/// repairs and contracts from an established settlement up and
/// recruitment at hubs and capitals only. An outpost system has a landing
/// pad first instead, offering exactly docking, fuel and trade.
pub proof fn law_station_services(name: Seq<char>, infra: InfrastructureLevel, d: LocationDraws)
    ensures
        infra != InfrastructureLevel::Uninhabited && infra != InfrastructureLevel::Outpost ==> {
            let st = location_plans(name, infra, d)[0];
            &&& location_plans(name, infra, d).len() >= 1
            &&& st.kind == LocationKind::Station
            &&& st.name == name + " Station"@
            &&& st.infrastructure == infra
            &&& st.services.contains(LocationService::Docking)
            &&& st.services.contains(LocationService::Refuel)
            &&& st.services.contains(LocationService::Trade)
            &&& st.services.contains(LocationService::Rumors)
            &&& st.services.contains(LocationService::Repair) == (infra
                == InfrastructureLevel::Established || infra == InfrastructureLevel::Hub || infra
                == InfrastructureLevel::Capital)
            &&& st.services.contains(LocationService::Contracts) == (infra
                == InfrastructureLevel::Established || infra == InfrastructureLevel::Hub || infra
                == InfrastructureLevel::Capital)
            &&& st.services.contains(LocationService::Recruitment) == (infra
                == InfrastructureLevel::Hub || infra == InfrastructureLevel::Capital)
        },
        infra == InfrastructureLevel::Outpost ==> {
            let st = location_plans(name, infra, d)[0];
            &&& location_plans(name, infra, d).len() >= 1
            &&& st.kind == LocationKind::Station
            &&& st.name == name + " Outpost"@
            &&& st.services == seq![
                LocationService::Docking,
                LocationService::Refuel,
                LocationService::Trade,
            ]
        },
{
    let st = station_plans(name, infra);
    let rest = planet_plans(name, infra, d.planets@, d.planets@.len()) + belt_plans(name, infra, d)
        + hidden_plans(name, infra, d);
    assert(location_plans(name, infra, d) =~= st + rest);
    if infra != InfrastructureLevel::Uninhabited {
        assert(st.len() == 1);
        assert((st + rest)[0] == st[0]);
    }
    let sv = station_services(infra);
    let (dk, rf, tr, ru, rp, ct, rc) = (
        LocationService::Docking,
        LocationService::Refuel,
        LocationService::Trade,
        LocationService::Rumors,
        LocationService::Repair,
        LocationService::Contracts,
        LocationService::Recruitment,
    );
    if infra == InfrastructureLevel::Colony {
        assert(sv =~= seq![dk, rf, tr, ru]);
        assert(sv[0] == dk && sv[1] == rf && sv[2] == tr && sv[3] == ru);
    } else if infra == InfrastructureLevel::Established {
        assert(sv =~= seq![dk, rf, tr, ru, rp, ct]);
        assert(sv[0] == dk && sv[1] == rf && sv[2] == tr && sv[3] == ru && sv[4] == rp && sv[5] == ct);
    } else if infra == InfrastructureLevel::Hub || infra == InfrastructureLevel::Capital {
        assert(sv =~= seq![dk, rf, tr, ru, rp, ct, rc]);
        assert(sv[0] == dk && sv[1] == rf && sv[2] == tr && sv[3] == ru && sv[4] == rp && sv[5] == ct
            && sv[6] == rc);
    }
}

/// How many planets a star has room for: none or one around neutron
/// stars and black holes, one to three around blue giants, up to two
/// around anomalous stars, two to five otherwise.
pub open spec fn planet_range(star: StarType) -> (int, int) {
    match star {
        StarType::Neutron => (0, 1),
        StarType::BlackHole => (0, 1),
        StarType::BlueGiant => (1, 3),
        StarType::Anomalous => (0, 2),
        _ => (2, 5),
    }
}

/// The draws fit the star and the development: a planet count in the
/// star's range, body and description indices in range, and no draw made
/// where the rules make none (a second-planet outpost only for habitable
/// planets in established systems and up, moons only for gas giants and
/// terrestrial worlds, moon outposts only in established systems and up,
/// a belt only with two or more planets, belt outposts only from a colony
/// up, derelicts only in systems no more developed than an outpost).
pub open spec fn draws_fit(star: StarType, infra: InfrastructureLevel, d: LocationDraws) -> bool {
    &&& planet_range(star).0 <= d.planets@.len() <= planet_range(star).1
    &&& forall|i: int| #![trigger d.planets@[i]] 0 <= i < d.planets@.len() ==> {
        let p = d.planets@[i];
        let body = body_of(p.body);
        &&& p.body < 5
        &&& p.extra_outpost ==> (habitable(body) && infra_rank(infra) >= 3 && !(infra_rank(infra)
            >= 2 && i == 0))
        &&& p.moon ==> (body == BodyType::GasGiant || body == BodyType::Terrestrial)
        &&& (p.moon_barren || p.moon_outpost) ==> p.moon
        &&& p.moon_outpost ==> infra_rank(infra) >= 3
    }
    &&& d.belt ==> d.planets@.len() >= 2
    &&& d.belt_outpost ==> (d.belt && infra_rank(infra) >= 2)
    &&& (d.anomaly matches Some(k) ==> k < 5)
    &&& (d.derelict matches Some(k) ==> k < 3 && infra_rank(infra) <= 1)
}

/// Draw the chances that shape a system's locations, in the order the
/// locations are laid out.
pub fn draw_locations(star: StarType, infra: InfrastructureLevel, rng: &mut StdRng) -> (d:
    LocationDraws)
    ensures
        draws_fit(star, infra, d),
{
    let rank = crate::simulation::faction_ai::infrastructure_rank(infra);
    let count = match star {
        StarType::Neutron | StarType::BlackHole => draw_between(rng, 0, 1),
        StarType::BlueGiant => draw_between(rng, 1, 3),
        StarType::Anomalous => draw_between(rng, 0, 2),
        _ => draw_between(rng, 2, 5),
    };
    let mut planets: Vec<PlanetDraw> = Vec::new();
    let mut i: usize = 0;
    while i < count
        invariant
            i <= count <= 5,
            rank == infra_rank(infra),
            planets@.len() == i,
            forall|j: int| #![trigger planets@[j]] 0 <= j < i ==> {
                let p = planets@[j];
                let body = body_of(p.body);
                &&& p.body < 5
                &&& p.extra_outpost ==> (habitable(body) && infra_rank(infra) >= 3 && !(
                infra_rank(infra) >= 2 && j == 0))
                &&& p.moon ==> (body == BodyType::GasGiant || body == BodyType::Terrestrial)
                &&& (p.moon_barren || p.moon_outpost) ==> p.moon
                &&& p.moon_outpost ==> infra_rank(infra) >= 3
            },
        decreases count - i,
    {
        let k = draw_below(rng, 0, 5);
        let body = body_for(k);
        let hab = body == BodyType::Terrestrial || body == BodyType::Oceanic || body == BodyType::Gaia;
        let first_settled = hab && rank >= 2 && i == 0;
        let extra_outpost = if !first_settled && hab && rank >= 3 {
            draw_ratio(rng, 3, 10)
        } else {
            false
        };
        let moon = if body == BodyType::GasGiant || body == BodyType::Terrestrial {
            draw_ratio(rng, 35, 100)
        } else {
            false
        };
        let (moon_barren, moon_outpost) = if moon {
            let barren = draw_ratio(rng, 1, 2);
            let outpost = if rank >= 3 { draw_ratio(rng, 2, 5) } else { false };
            (barren, outpost)
        } else {
            (false, false)
        };
        planets.push(PlanetDraw { body: k, extra_outpost, moon, moon_barren, moon_outpost });
        i = i + 1;
    }
    let belt = if count >= 2 { draw_ratio(rng, 1, 2) } else { false };
    let belt_outpost = if belt && rank >= 2 { draw_ratio(rng, 1, 2) } else { false };
    let (num, den): (u32, u32) = if rank >= 4 {
        (3, 20)
    } else if rank >= 2 {
        (1, 4)
    } else if rank == 1 {
        (2, 5)
    } else {
        (3, 5)
    };
    let anomaly = if draw_ratio(rng, num, den) {
        Some(draw_below(rng, 0, 5))
    } else {
        None
    };
    let derelict = if rank <= 1 && draw_ratio(rng, 3, 10) {
        Some(draw_below(rng, 0, 3))
    } else {
        None
    };
    LocationDraws { planets, belt, belt_outpost, anomaly, derelict }
}

/// Lay out a system's locations with fresh draws. Whatever is drawn, the
/// locations are those the draws' plan gives.
pub fn generate_locations(
    system_name: &str,
    star: StarType,
    infra: InfrastructureLevel,
    rng: &mut StdRng,
) -> (r: Vec<LocationPlan>)
    ensures
        exists|d: LocationDraws| draws_fit(star, infra, d) && plan_views(r@) == location_plans(
            system_name@,
            infra,
            d,
        ),
{
    let d = draw_locations(star, infra, rng);
    locations_from_draws(system_name, infra, &d)
}

} // verus!
