use rand::rngs::StdRng;
use rand::SeedableRng;

use starbound::simulation::galaxy::{InfrastructureLevel, StarType};
use starbound::simulation::locations::{
    draw_locations, generate_locations, locations_from_draws, BodyType, LocationDraws,
    LocationKind, LocationService, PlanetDraw,
};

fn planet(body: usize, extra_outpost: bool, moon: bool, moon_barren: bool, moon_outpost: bool) -> PlanetDraw {
    PlanetDraw { body, extra_outpost, moon, moon_barren, moon_outpost }
}

#[test]
fn capital_station_has_every_service() {
    let draws = LocationDraws { planets: vec![], belt: false, belt_outpost: false, anomaly: None, derelict: None };
    let plans = locations_from_draws("Sol", InfrastructureLevel::Capital, &draws);
    assert_eq!(plans.len(), 1);
    let station = &plans[0];
    assert_eq!(station.name, "Sol Station");
    assert_eq!(station.kind, LocationKind::Station);
    assert_eq!(station.infrastructure, InfrastructureLevel::Capital);
    assert_eq!(
        station.services,
        vec![
            LocationService::Docking,
            LocationService::Refuel,
            LocationService::Trade,
            LocationService::Rumors,
            LocationService::Repair,
            LocationService::Contracts,
            LocationService::Recruitment,
        ]
    );
    assert_eq!(
        station.description,
        "A sprawling orbital complex. The political and economic heart of the system."
    );
    assert!(station.discovered);
    assert!(station.has_economy);
}

#[test]
fn colony_station_services_stop_at_rumors() {
    let draws = LocationDraws { planets: vec![], belt: false, belt_outpost: false, anomaly: None, derelict: None };
    let plans = locations_from_draws("Vega", InfrastructureLevel::Colony, &draws);
    assert_eq!(
        plans[0].services,
        vec![LocationService::Docking, LocationService::Refuel, LocationService::Trade, LocationService::Rumors]
    );
    assert_eq!(plans[0].description, "A functional station serving the local colony.");
}

#[test]
fn outpost_system_gets_a_landing_pad() {
    let draws = LocationDraws { planets: vec![], belt: false, belt_outpost: false, anomaly: None, derelict: None };
    let plans = locations_from_draws("Rim", InfrastructureLevel::Outpost, &draws);
    assert_eq!(plans.len(), 1);
    assert_eq!(plans[0].name, "Rim Outpost");
    assert_eq!(
        plans[0].services,
        vec![LocationService::Docking, LocationService::Refuel, LocationService::Trade]
    );
    assert_eq!(plans[0].description, "A handful of prefabs and a landing pad. It's something.");
}

#[test]
fn planets_moons_and_belt_in_orbit_order() {
    let draws = LocationDraws {
        planets: vec![planet(0, false, true, true, false), planet(1, false, false, false, false)],
        belt: true,
        belt_outpost: true,
        anomaly: None,
        derelict: None,
    };
    let plans = locations_from_draws("Kepler", InfrastructureLevel::Established, &draws);
    let names: Vec<&str> = plans.iter().map(|p| p.name.as_str()).collect();
    assert_eq!(names, vec!["Kepler Station", "Kepler I", "Kepler I-a", "Kepler II", "Kepler Belt"]);

    // The first habitable planet of an established system is a colony.
    let first = &plans[1];
    assert_eq!(first.kind, LocationKind::PlanetSurface(BodyType::Terrestrial));
    assert_eq!(first.infrastructure, InfrastructureLevel::Colony);
    assert_eq!(first.services, vec![LocationService::Docking, LocationService::Trade, LocationService::Rumors]);
    assert_eq!(first.description, "A rocky world with a thin atmosphere. Settlements dot the surface.");

    let moon = &plans[2];
    assert_eq!(moon.kind, LocationKind::Moon(BodyType::Barren));
    assert_eq!(moon.parent_body.as_deref(), Some("Kepler I"));
    assert_eq!(moon.infrastructure, InfrastructureLevel::Uninhabited);
    assert!(moon.services.is_empty());
    assert_eq!(moon.description, "A small moon. Unremarkable on sensors.");

    let giant = &plans[3];
    assert_eq!(giant.kind, LocationKind::PlanetSurface(BodyType::GasGiant));
    assert_eq!(giant.description, "A massive gas giant. Beautiful and uninhabitable.");
    assert!(!giant.has_economy);

    let belt = &plans[4];
    assert_eq!(belt.kind, LocationKind::AsteroidBelt);
    assert_eq!(belt.infrastructure, InfrastructureLevel::Outpost);
    assert_eq!(belt.services, vec![LocationService::Docking, LocationService::Trade]);
    assert!(belt.has_economy);
}

#[test]
fn capital_first_planet_is_established() {
    let draws = LocationDraws {
        planets: vec![planet(4, false, false, false, false), planet(0, true, true, false, true)],
        belt: false,
        belt_outpost: false,
        anomaly: None,
        derelict: None,
    };
    let plans = locations_from_draws("Prime", InfrastructureLevel::Capital, &draws);
    assert_eq!(plans[1].kind, LocationKind::PlanetSurface(BodyType::Oceanic));
    assert_eq!(plans[1].infrastructure, InfrastructureLevel::Established);
    assert_eq!(plans[1].description, "An ocean world. Platform colonies rise above the waves.");
    // A later habitable world drawn for an outpost, and its moon outpost.
    assert_eq!(plans[2].infrastructure, InfrastructureLevel::Outpost);
    assert_eq!(plans[2].services, vec![LocationService::Docking]);
    assert_eq!(plans[3].name, "Prime II-a");
    assert_eq!(plans[3].kind, LocationKind::Moon(BodyType::IceWorld));
    assert_eq!(plans[3].infrastructure, InfrastructureLevel::Outpost);
    assert_eq!(plans[3].services, vec![LocationService::Docking, LocationService::Refuel]);
    assert_eq!(plans[3].description, "A small moon with a mining or refueling outpost.");
}

#[test]
fn hidden_sites_are_undiscovered() {
    let draws = LocationDraws {
        planets: vec![planet(3, false, false, false, false)],
        belt: true,
        belt_outpost: false,
        anomaly: Some(3),
        derelict: Some(1),
    };
    let plans = locations_from_draws("Void", InfrastructureLevel::Uninhabited, &draws);
    // A belt needs two planets; an uninhabited system has no station.
    let names: Vec<&str> = plans.iter().map(|p| p.name.as_str()).collect();
    assert_eq!(names, vec!["Void I", "Void Anomaly", "Void Derelict"]);
    assert_eq!(plans[0].description, "A lifeless rock. Mineral deposits visible on scan.");
    assert_eq!(plans[1].kind, LocationKind::DeepSpace);
    assert!(!plans[1].discovered);
    assert_eq!(plans[1].description, "Debris field. Too uniform to be accidental.");
    assert_eq!(plans[2].description, "Wreckage spread across a kilometer. Recent.");
    assert!(plans[2].services.is_empty());
}

#[test]
fn derelicts_skip_developed_systems() {
    let draws = LocationDraws { planets: vec![], belt: false, belt_outpost: false, anomaly: None, derelict: Some(0) };
    let plans = locations_from_draws("Hub", InfrastructureLevel::Hub, &draws);
    assert_eq!(plans.len(), 1);
    assert_eq!(plans[0].name, "Hub Station");
}

#[test]
fn drawn_planet_counts_fit_the_star() {
    for seed in 0..40u64 {
        let mut rng = StdRng::seed_from_u64(seed);
        let d = draw_locations(StarType::BlueGiant, InfrastructureLevel::Colony, &mut rng);
        assert!((1..=3).contains(&d.planets.len()));
        let mut rng = StdRng::seed_from_u64(seed);
        let d = draw_locations(StarType::Neutron, InfrastructureLevel::Uninhabited, &mut rng);
        assert!(d.planets.len() <= 1);
        assert!(!d.belt);
    }
}

#[test]
fn generated_locations_follow_their_draws() {
    let mut a = StdRng::seed_from_u64(11);
    let mut b = StdRng::seed_from_u64(11);
    let plans = generate_locations("Tau", StarType::YellowDwarf, InfrastructureLevel::Established, &mut a);
    let draws = draw_locations(StarType::YellowDwarf, InfrastructureLevel::Established, &mut b);
    let expected = locations_from_draws("Tau", InfrastructureLevel::Established, &draws);
    let got: Vec<&str> = plans.iter().map(|p| p.name.as_str()).collect();
    let want: Vec<&str> = expected.iter().map(|p| p.name.as_str()).collect();
    assert_eq!(got, want);
    assert_eq!(got[0], "Tau Station");
    assert_eq!(got[1], "Tau I");
}

#[test]
fn every_layout_keeps_its_invariants() {
    let levels = [
        InfrastructureLevel::Uninhabited,
        InfrastructureLevel::Outpost,
        InfrastructureLevel::Colony,
        InfrastructureLevel::Established,
        InfrastructureLevel::Hub,
        InfrastructureLevel::Capital,
    ];
    for seed in 0..30u64 {
        for infra in levels {
            let mut rng = StdRng::seed_from_u64(seed);
            for plan in generate_locations("Orin", StarType::RedDwarf, infra, &mut rng) {
                assert_eq!(plan.discovered, plan.kind != LocationKind::DeepSpace);
                assert_eq!(plan.has_economy, !plan.services.is_empty());
                assert!(plan.name.starts_with("Orin"));
            }
        }
    }
}
