use rand::rngs::StdRng;
use rand::SeedableRng;

use starbound::npc_interaction::{Pronouns, TemplatePool};
use starbound::simulation::faction_ai::{
    can_upgrade_infrastructure, find_adjacent_unclaimed, infrastructure_rank,
    lowest_infrastructure_system, next_infrastructure_level, owned_system_ids,
    upgradeable_system_ids, FactionAction,
};
use starbound::simulation::faction_tick::{
    default_services, expansion_description, find_expansion_targets, pick_expansion_target,
    retreat_description,
};
use starbound::simulation::galaxy::{
    contains_id, find_system, CivPressure, Civilization, Connection, Faction, FactionCategory,
    FactionScope, FactionService, InfrastructureLevel, RouteType, StarSystem, StarType,
};
use starbound::simulation::generate::{
    assemble_civ_name, compatible_prefix_positions, extract_civ_prefix, fallback_name,
    faction_category_key, generate_faction_assets, generate_faction_description,
    infra_level_rank, parse_faction_service, parse_infra_level, parse_star_type, pick_bio,
    pick_items, pressure_source_for_key, roman_numeral, select_pressures, template_category, unused_suffix_positions,
    wire_factions_into_civs, wire_pressure_sources,
};
use starbound::simulation::templates::CivCompatibility;
use starbound::simulation::tick::{
    claim_system, claim_text, generate_pressure, get_faction_name, infra_label, unrest_text,
    upgrade_system, upgrade_text, TickEventCategory,
};
use starbound::simulation::travel::{
    destination_id, mode_name, route_options, travel_blocker, TravelBlocker, TravelMode,
};

fn sys(id: u128, name: &str, civ: Option<u128>, level: InfrastructureLevel) -> StarSystem {
    StarSystem {
        id,
        name: name.to_string(),
        controlling_civ: civ,
        infrastructure_level: level,
        locations: vec![],
    }
}

fn route(a: u128, b: u128, t: RouteType) -> Connection {
    Connection { system_a: a, system_b: b, route_type: t }
}

fn civ(id: u128, name: &str) -> Civilization {
    Civilization { id, name: name.to_string(), faction_ids: vec![], pressures: vec![] }
}

fn faction(id: u128, name: &str, category: FactionCategory, scope: FactionScope) -> Faction {
    Faction { id, name: name.to_string(), category, scope }
}

// --- Faction decisions ----------------------------------------------------------

#[test]
fn find_adjacent_unclaimed_works() {
    let (faction_id, owned_id, unclaimed_id, far_id) = (10u128, 1u128, 2u128, 3u128);
    let systems = vec![
        sys(owned_id, "Owned", Some(faction_id), InfrastructureLevel::Colony),
        sys(unclaimed_id, "Unclaimed", None, InfrastructureLevel::Uninhabited),
        sys(far_id, "Far", None, InfrastructureLevel::Uninhabited),
    ];
    let connections = vec![route(owned_id, unclaimed_id, RouteType::Open)];
    let result = find_adjacent_unclaimed(&vec![owned_id], &systems, &connections);
    assert_eq!(result, vec![unclaimed_id]);
    assert!(!result.contains(&far_id));
}

#[test]
fn adjacent_unclaimed_lists_each_once() {
    let systems = vec![
        sys(1, "A", Some(9), InfrastructureLevel::Colony),
        sys(2, "B", None, InfrastructureLevel::Outpost),
        sys(3, "C", Some(8), InfrastructureLevel::Colony),
    ];
    let connections = vec![
        route(1, 2, RouteType::Open),
        route(2, 1, RouteType::Hazardous),
        route(1, 3, RouteType::Open),
    ];
    assert_eq!(find_adjacent_unclaimed(&vec![1], &systems, &connections), vec![2]);
}

#[test]
fn consolidation_targets_lowest_owned_system() {
    let systems = vec![
        sys(1, "A", Some(9), InfrastructureLevel::Hub),
        sys(2, "B", Some(9), InfrastructureLevel::Outpost),
        sys(3, "C", Some(9), InfrastructureLevel::Outpost),
        sys(4, "D", Some(7), InfrastructureLevel::Uninhabited),
        sys(5, "E", Some(9), InfrastructureLevel::Capital),
    ];
    assert_eq!(owned_system_ids(&systems, 9), vec![1, 2, 3, 5]);
    let up = upgradeable_system_ids(&systems, 9);
    assert_eq!(up, vec![2, 3]);
    assert_eq!(lowest_infrastructure_system(&up, &systems), 2);
    assert_eq!(lowest_infrastructure_system(&vec![1, 3, 2], &systems), 3);
}

#[test]
fn infrastructure_steps() {
    assert_eq!(next_infrastructure_level(InfrastructureLevel::Uninhabited), InfrastructureLevel::Outpost);
    assert_eq!(next_infrastructure_level(InfrastructureLevel::Established), InfrastructureLevel::Hub);
    assert_eq!(next_infrastructure_level(InfrastructureLevel::Hub), InfrastructureLevel::Hub);
    assert_eq!(next_infrastructure_level(InfrastructureLevel::Capital), InfrastructureLevel::Capital);
    assert!(can_upgrade_infrastructure(InfrastructureLevel::Established));
    assert!(!can_upgrade_infrastructure(InfrastructureLevel::Hub));
    assert_eq!(infrastructure_rank(InfrastructureLevel::Capital), 5);
    assert_eq!(infra_level_rank(InfrastructureLevel::Colony), 2);
    let a = FactionAction::Expand { faction_id: 4, target_system: 5 };
    assert_eq!(a.faction_id(), 4);
    assert_eq!(FactionAction::Idle { faction_id: 8 }.faction_id(), 8);
}

// --- Faction spread -------------------------------------------------------------

#[test]
fn expansion_targets_skip_present_systems() {
    let connections = vec![
        route(1, 2, RouteType::Open),
        route(3, 1, RouteType::Open),
        route(2, 4, RouteType::Open),
        route(1, 2, RouteType::Corridor),
    ];
    // Strong at 1, present at 1 and 3.
    let t = find_expansion_targets(&vec![1], &vec![1, 3], &connections);
    assert_eq!(t, vec![2]);
    let mut rng = StdRng::seed_from_u64(3);
    assert_eq!(pick_expansion_target(&t, &mut rng), 2);
}

#[test]
fn services_and_reports_by_category() {
    assert_eq!(
        default_services(&FactionCategory::Criminal, &FactionScope::Independent),
        vec![FactionService::Smuggling, FactionService::Repair]
    );
    assert_eq!(
        default_services(&FactionCategory::Criminal, &FactionScope::CivInternal { civ_id: 1 }),
        vec![FactionService::Intelligence, FactionService::Smuggling]
    );
    assert_eq!(
        default_services(&FactionCategory::Guild, &FactionScope::Independent),
        vec![FactionService::Repair, FactionService::Trade]
    );
    assert_eq!(
        expansion_description("Naval Command", &FactionCategory::Military, "Vela"),
        "Naval Command deployed observers to Vela."
    );
    assert_eq!(
        expansion_description("The Lattice", &FactionCategory::Criminal, "Vela"),
        "Rumors suggest The Lattice has moved into Vela."
    );
    assert_eq!(
        retreat_description("Ashfall", &FactionCategory::Criminal, "Vela"),
        "Ashfall is no longer seen at Vela."
    );
}

// --- Generation -------------------------------------------------------------------

#[test]
fn civ_name_assembly_and_prefix() {
    assert_eq!(assemble_civ_name("Solari", "Collective"), "The Solari Collective");
    assert_eq!(assemble_civ_name("Terran", "Hegemony"), "Terran Hegemony");
    assert_eq!(extract_civ_prefix("Terran Hegemony"), "Terran");
    assert_eq!(extract_civ_prefix("The Solari Collective"), "Solari");
    assert_eq!(extract_civ_prefix("   "), "   ");
}

#[test]
fn is_blocked_works() {
    let t = CivCompatibility {
        blocked_pairs: vec![(
            "Haven".to_string(),
            vec!["Dominion".to_string(), "Hegemony".to_string()],
        )],
    };
    assert!(t.is_blocked("Haven", "Dominion"));
    assert!(t.is_blocked("Haven", "Hegemony"));
    assert!(!t.is_blocked("Terran", "Hegemony"));
    assert!(!t.is_blocked("Terran", "Compact"));
}

#[test]
fn blocked_prefixes_are_excluded() {
    let t = CivCompatibility {
        blocked_pairs: vec![("Haven".to_string(), vec!["Dominion".to_string()])],
    };
    let prefixes: Vec<String> = vec!["Haven".into(), "Terran".into()];
    assert_eq!(compatible_prefix_positions(&prefixes, &t, "Dominion"), vec![1]);
    assert_eq!(compatible_prefix_positions(&prefixes, &t, "Compact"), vec![0, 1]);
    let suffixes: Vec<String> = vec!["Dominion".into(), "Compact".into(), "Hegemony".into()];
    assert_eq!(unused_suffix_positions(&suffixes, &vec!["Compact".to_string()]), vec![0, 2]);
}

#[test]
fn template_keys_parse() {
    assert_eq!(parse_faction_service("smuggling"), Some(FactionService::Smuggling));
    assert_eq!(parse_faction_service("piracy"), None);
    assert_eq!(parse_star_type("black_hole"), StarType::BlackHole);
    assert_eq!(parse_star_type("purple"), StarType::RedDwarf);
    assert_eq!(roman_numeral(4), "IV");
    assert_eq!(roman_numeral(9), "VI");
    assert_eq!(faction_category_key(FactionCategory::Academic), "academic");
    assert_eq!(template_category("criminal_covert"), FactionCategory::Criminal);
    assert_eq!(template_category("unknown"), FactionCategory::Guild);
    assert_eq!(parse_infra_level("Capital"), InfrastructureLevel::Capital);
    assert_eq!(parse_infra_level("HUB"), InfrastructureLevel::Hub);
    assert_eq!(parse_infra_level("none"), InfrastructureLevel::Uninhabited);
}

#[test]
fn faction_assets_and_description_use_the_civ_prefix() {
    let assets = generate_faction_assets("military", "Terran");
    assert_eq!(assets[0], "Naval yards at the Terran capital");
    assert_eq!(assets.len(), 3);
    assert!(generate_faction_assets("academic", "Terran").is_empty());
    let parent = civ(1, "Terran Hegemony");
    let d = generate_faction_description("military", "Hegemony Military Command", Some(&parent), "Terran");
    assert!(d.starts_with("The enforcement and defense arm of Terran Hegemony. Hegemony Military Command runs"));
    let d = generate_faction_description("military", "Command", None, "");
    assert!(d.starts_with("The enforcement and defense arm of its parent civilization. Command runs"));
    assert_eq!(generate_faction_description("other", "X", None, ""), "X operates in the Near Reach.");
}

fn wiring_fixture() -> (Vec<Civilization>, Vec<Faction>) {
    let civs = vec![civ(1, "Terran Hegemony"), civ(2, "The Solari Collective")];
    let factions = vec![
        faction(10, "Hegemony Military Command", FactionCategory::Military, FactionScope::CivInternal { civ_id: 1 }),
        faction(11, "Merchant League", FactionCategory::Economic, FactionScope::Transnational { civ_ids: vec![1, 2] }),
        faction(12, "Ashfall", FactionCategory::Criminal, FactionScope::Independent),
        faction(13, "Ghost Order", FactionCategory::Religious, FactionScope::CivInternal { civ_id: 99 }),
    ];
    (civs, factions)
}

#[test]
fn factions_wired_into_civilizations() {
    let (mut civs, factions) = wiring_fixture();
    wire_factions_into_civs(&mut civs, &factions);
    assert_eq!(civs[0].faction_ids, vec![10, 11]);
    assert_eq!(civs[1].faction_ids, vec![11]);
}

#[test]
fn independent_factions_not_in_any_civ() {
    let (mut civs, factions) = wiring_fixture();
    wire_factions_into_civs(&mut civs, &factions);
    assert!(civs.iter().all(|c| !c.faction_ids.contains(&12)));
    assert!(civs.iter().all(|c| !c.faction_ids.contains(&13)));
}

#[test]
fn civ_internal_faction_only_in_parent_civ() {
    let (mut civs, factions) = wiring_fixture();
    wire_factions_into_civs(&mut civs, &factions);
    assert!(civs[0].faction_ids.contains(&10));
    assert!(!civs[1].faction_ids.contains(&10));
}

#[test]
fn transnational_factions_in_all_listed_civs() {
    let (mut civs, factions) = wiring_fixture();
    wire_factions_into_civs(&mut civs, &factions);
    assert!(civs.iter().all(|c| c.faction_ids.contains(&11)));
}

#[test]
fn pressure_sources_wired_to_valid_factions() {
    let (mut civs, factions) = wiring_fixture();
    civs[0].pressures = vec![
        CivPressure { description: "Military factions push for increased defense spending".into(), source_faction: None },
        CivPressure { description: "Trade guilds pressure the government for reduced tariffs".into(), source_faction: None },
        CivPressure { description: "Religious authorities demand greater cultural oversight".into(), source_faction: None },
        CivPressure { description: "Outer colony autonomy movements gaining support".into(), source_faction: Some(5) },
    ];
    wire_pressure_sources(&mut civs, &factions);
    let p = &civs[0].pressures;
    assert_eq!(p[0].source_faction, Some(10));
    assert_eq!(p[1].source_faction, Some(11));
    assert_eq!(p[2].source_faction, Some(13));
    assert_eq!(p[3].source_faction, Some(5));
    assert_eq!(p[0].description, "Military factions push for increased defense spending");
}

#[test]
fn selected_pressures_are_one_to_three_and_unsourced() {
    let mut rng = StdRng::seed_from_u64(42);
    for flags in [vec![false; 10], vec![true; 10], vec![true, false, true]] {
        let ps = select_pressures(&flags, &mut rng);
        assert!(!ps.is_empty() && ps.len() <= 3);
        assert!(ps.iter().all(|p| p.source_faction.is_none()));
    }
    let quiet = select_pressures(&vec![false; 10], &mut rng);
    assert_eq!(quiet[0].description, "Shifting demographics reshape the political landscape");
}

#[test]
fn random_picks_stay_in_pool() {
    let mut rng = StdRng::seed_from_u64(42);
    let pool: Vec<String> = vec!["a".into(), "b".into(), "c".into(), "d".into()];
    for _ in 0..20 {
        let picked = pick_items(&pool, 1, 3, &mut rng);
        assert!(!picked.is_empty() && picked.len() <= 3);
        let mut seen = picked.clone();
        seen.sort();
        seen.dedup();
        assert_eq!(seen.len(), picked.len());
        assert!(picked.iter().all(|p| pool.contains(p)));
    }
    assert!(pick_items(&vec![], 5, 2, &mut rng).is_empty());
    assert_eq!(pick_items(&pool, 9, 9, &mut rng).len(), 4);
    let name = fallback_name(&mut rng, 2);
    assert!(name.starts_with("System 3-"));
    let serial: u32 = name["System 3-".len()..].parse().unwrap();
    assert!((100..999).contains(&serial));
}

#[test]
fn bio_placeholders_are_filled() {
    let mut rng = StdRng::seed_from_u64(42);
    let templates = TemplatePool {
        entries: vec![(
            "human".to_string(),
            vec!["Posted to {system}; {personality_note}. {pronoun.subject_cap} keeps {pronoun.possessive} word.".to_string()],
        )],
    };
    let p = Pronouns { subject: "he".into(), object: "him".into(), possessive: "his".into(), subject_cap: "He".into() };
    let bio = pick_bio(&templates, "synthetic", "Vela", "Blunt", &p, &mut rng);
    assert_eq!(bio, "Posted to Vela; Blunt. He keeps his word.");
    let plain = pick_bio(&TemplatePool { entries: vec![] }, "human", "Vela", "Blunt", &p, &mut rng);
    assert_eq!(plain, "Posted at Vela. Blunt.");
}

// --- Ticks --------------------------------------------------------------------------

#[test]
fn claiming_an_unowned_system_records_the_claim() {
    let mut systems = vec![
        sys(1, "Home", Some(9), InfrastructureLevel::Colony),
        sys(2, "Drift", None, InfrastructureLevel::Uninhabited),
    ];
    let name = claim_system(&mut systems, 9, 2);
    assert_eq!(name, Some("Drift".to_string()));
    assert_eq!(systems[1].controlling_civ, Some(9));
    assert_eq!(systems[1].infrastructure_level, InfrastructureLevel::Outpost);
    assert_eq!(claim_system(&mut systems, 8, 2), None);
    assert_eq!(claim_system(&mut systems, 8, 77), None);
    let up = upgrade_system(&mut systems, 1);
    assert_eq!(up, Some(("Home".to_string(), InfrastructureLevel::Established)));
    assert_eq!(
        upgrade_text("Hegemony", "Home", InfrastructureLevel::Established),
        "Hegemony upgraded Home to established settlement."
    );
    let mut capital = vec![sys(3, "Crown", Some(9), InfrastructureLevel::Capital)];
    assert_eq!(upgrade_system(&mut capital, 3), None);
}

#[test]
fn tick_texts() {
    let factions = vec![faction(1, "Hegemony", FactionCategory::Military, FactionScope::Independent)];
    assert_eq!(get_faction_name(1, &factions), "Hegemony");
    assert_eq!(get_faction_name(2, &factions), "Unknown Faction");
    assert_eq!(infra_label(InfrastructureLevel::Hub), "trade hub");
    assert_eq!(claim_text("Hegemony", "Drift"), "Hegemony claimed Drift.");
    assert_eq!(unrest_text("Hegemony", "Riots"), "Unrest within Hegemony: Riots");
    let mut rng = StdRng::seed_from_u64(9);
    assert!(!generate_pressure(&mut rng).is_empty());
    assert_ne!(TickEventCategory::Faction, TickEventCategory::Expansion);
}

// --- Travel -------------------------------------------------------------------------

#[test]
fn insufficient_fuel_blocks_ftl() {
    let r = travel_blocker(TravelMode::Ftl, true, false, RouteType::FtlLane);
    assert_eq!(r, Some(TravelBlocker::InsufficientFuel));
    assert_eq!(r.unwrap().reason(), None);
}

#[test]
fn no_ftl_on_open_routes() {
    let r = travel_blocker(TravelMode::Ftl, true, true, RouteType::Open);
    assert_eq!(r, Some(TravelBlocker::NoFtlLane));
    assert!(r.unwrap().reason().unwrap().contains("FTL lane"));
    assert_eq!(travel_blocker(TravelMode::Sublight, true, false, RouteType::Open), None);
}

#[test]
fn dead_engine_blocks_travel() {
    let r = travel_blocker(TravelMode::Sublight, false, true, RouteType::Open);
    assert_eq!(r, Some(TravelBlocker::EngineDead));
    assert!(r.unwrap().reason().unwrap().contains("non-functional"));
    assert_eq!(
        travel_blocker(TravelMode::Stationary, false, false, RouteType::Open),
        Some(TravelBlocker::Stationary)
    );
}

#[test]
fn plan_all_routes_includes_ftl_on_lanes() {
    let connections = vec![route(1, 2, RouteType::FtlLane), route(1, 3, RouteType::Open)];
    let options = route_options(&connections);
    assert_eq!(options.len(), 3);
    let ftl: Vec<_> = options.iter().filter(|o| o.1 == TravelMode::Ftl).collect();
    assert_eq!(ftl.len(), 1);
    assert_eq!(options, vec![(0, TravelMode::Sublight), (0, TravelMode::Ftl), (1, TravelMode::Sublight)]);
    assert_eq!(destination_id(&connections[0], 2), 1);
    assert_eq!(mode_name(TravelMode::Ftl), "FTL");
}

#[test]
fn galaxy_lookups() {
    let systems = vec![sys(1, "A", None, InfrastructureLevel::Hub), sys(1, "B", None, InfrastructureLevel::Hub)];
    assert_eq!(find_system(&systems, 1).map(|s| s.name.clone()), Some("A".to_string()));
    assert!(find_system(&systems, 2).is_none());
    assert!(contains_id(&vec![4, 5], 5));
    assert!(!contains_id(&vec![], 5));
}

#[test]
fn random_draws_vary() {
    let mut rng = StdRng::seed_from_u64(5);
    let serials: Vec<String> = (0..30).map(|_| fallback_name(&mut rng, 0)).collect();
    let mut distinct = serials.clone();
    distinct.sort();
    distinct.dedup();
    assert!(distinct.len() > 1, "serials should not all be the lowest one");
    let flags = vec![true; 10];
    let mut firsts: Vec<String> = (0..30)
        .map(|_| select_pressures(&flags, &mut rng)[0].description.clone())
        .collect();
    firsts.sort();
    firsts.dedup();
    assert!(firsts.len() > 1, "shuffling should not always keep pool order");
    let pool: Vec<String> = (0..6).map(|i| i.to_string()).collect();
    let mut leads: Vec<String> = (0..30).map(|_| pick_items(&pool, 2, 2, &mut rng)[0].clone()).collect();
    leads.sort();
    leads.dedup();
    assert!(leads.len() > 1);
    let mut counts: Vec<usize> = (0..30).map(|_| pick_items(&pool, 1, 3, &mut rng).len()).collect();
    counts.sort();
    counts.dedup();
    assert!(counts.len() > 1, "the number of picks should vary between the bounds");
}

#[test]
fn pressure_keywords_pick_the_faction() {
    let (m, e, r, cur) = (Some(1), Some(2), Some(3), Some(9));
    assert_eq!(pressure_source_for_key("defense hawks gaining ground", m, e, r, cur), m);
    assert_eq!(pressure_source_for_key("tariff disputes", m, e, r, cur), e);
    assert_eq!(pressure_source_for_key("cultural oversight tightening", m, e, r, cur), r);
    assert_eq!(pressure_source_for_key("food shortages", m, e, r, cur), cur);
    // Military words win over trade words.
    assert_eq!(pressure_source_for_key("military trade embargo", m, e, r, None), m);
}
