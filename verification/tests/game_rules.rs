use rand::rngs::StdRng;
use rand::SeedableRng;

use starbound::cargo::CargoHold;
use starbound::checks::{DifficultyImpression, OutcomeTier};
use starbound::consequences::{
    add_cargo, add_concern, compose_log_entry, jettison_cargo, module_name, parse_module_target,
    parse_mood, parse_thread_type, short_desc, ModuleTarget, Mood, ThreadType,
};
use starbound::contracts::{
    check_contract_progress, generate_contract, Contract, ContractState, ContractType,
};
use starbound::crew_conversation::{
    apply_concern_removals, diversify_topics, drop_recent_topics, TopicSource,
};
use starbound::npc_interaction::{
    ask_about_connection, build_menu_options, connection_mention, deliver_knowledge, memory_line,
    DialogueTemplates, DispositionTier, KnowledgeTier, MemoryTone, Npc, NpcAction, NpcConnection,
    NpcRelationType, Pronouns, TemplatePool,
};
use starbound::reputation::record_in_history;
use starbound::rumors::{
    faction_atmosphere, pressure_intel, resolve_entity_names, select_with_variety, star_flavor,
    thread_rumor_text, tick_event_intel, Candidate, RumorCategory,
};
use starbound::rumors::{contract_leads, lead_terms_for, LeadNpc};
use starbound::simulation::galaxy::{
    CivPressure, Civilization, Connection, Faction, FactionCategory, FactionScope,
    InfrastructureLevel, Location, RouteType, StarSystem, StarType,
};
use starbound::simulation::travel::TravelMode;
use starbound::supplies::SupplyStatus;
use starbound::travel::{check_departure, transit_name};

fn pool(entries: Vec<(&str, Vec<&str>)>) -> TemplatePool {
    TemplatePool {
        entries: entries
            .into_iter()
            .map(|(k, v)| (k.to_string(), v.into_iter().map(|s| s.to_string()).collect()))
            .collect(),
    }
}

fn no_templates() -> DialogueTemplates {
    DialogueTemplates {
        greetings: pool(vec![]),
        returning_player: pool(vec![]),
        ask_area_framing: pool(vec![]),
        knowledge_delivery: pool(vec![]),
        ask_about_connection: pool(vec![]),
        contract_refusal: pool(vec![]),
        farewell: pool(vec![]),
    }
}

fn she() -> Pronouns {
    Pronouns {
        subject: "she".into(),
        object: "her".into(),
        possessive: "her".into(),
        subject_cap: "She".into(),
    }
}

fn test_npc(name: &str, id: u128) -> Npc {
    Npc {
        id,
        name: name.to_string(),
        title: "Guild Factor".into(),
        pronouns: she(),
        home_system_id: 1,
        faction_id: None,
        connections: vec![],
    }
}

fn labels(options: &[starbound::npc_interaction::NpcMenuOption]) -> Vec<String> {
    options.iter().map(|o| o.label.clone()).collect()
}

// --- Skill checks -----------------------------------------------------------

#[test]
fn outcome_tier_classification() {
    assert!(OutcomeTier::CriticalSuccess.is_success());
    assert!(OutcomeTier::Success.is_success());
    assert!(!OutcomeTier::Partial.is_success());
    assert!(!OutcomeTier::Partial.is_failure());
    assert!(OutcomeTier::Failure.is_failure());
    assert!(OutcomeTier::CriticalFailure.is_failure());
}

#[test]
fn outcome_and_impression_labels() {
    assert_eq!(OutcomeTier::CriticalSuccess.label(), "critical success");
    assert_eq!(OutcomeTier::Partial.label(), "partial success");
    assert_eq!(OutcomeTier::CriticalFailure.label(), "critical failure");
    assert_eq!(DifficultyImpression::NearCertain.label(), "near certain");
    assert_eq!(DifficultyImpression::EvenOdds.label(), "even odds");
    assert_eq!(DifficultyImpression::Desperate.label(), "desperate");
}

#[test]
fn no_tier_is_both_success_and_failure() {
    for t in [
        OutcomeTier::CriticalFailure,
        OutcomeTier::Failure,
        OutcomeTier::Partial,
        OutcomeTier::Success,
        OutcomeTier::CriticalSuccess,
    ] {
        assert!(!(t.is_success() && t.is_failure()));
    }
}

// --- NPC interaction ----------------------------------------------------------

#[test]
fn disposition_tiers_are_ordered() {
    assert!(DispositionTier::Hostile < DispositionTier::Cold);
    assert!(DispositionTier::Cold < DispositionTier::Neutral);
    assert!(DispositionTier::Neutral < DispositionTier::Warm);
    assert!(DispositionTier::Warm < DispositionTier::Friendly);
    assert!(DispositionTier::Friendly < DispositionTier::Trusted);
}

#[test]
fn hostile_npc_only_allows_leave() {
    let options = build_menu_options(DispositionTier::Hostile, true, true, true, &vec![]);
    assert_eq!(options.len(), 1);
    assert!(matches!(options[0].action, NpcAction::Leave));
}

#[test]
fn neutral_npc_offers_work_and_area() {
    let options = build_menu_options(DispositionTier::Neutral, true, false, false, &vec![]);
    let labels = labels(&options);
    assert!(labels.contains(&"Ask about work".to_string()), "Neutral NPC should offer work");
    assert!(labels.contains(&"Ask about the area".to_string()), "Neutral NPC should offer area info");
    assert!(labels.contains(&"Leave".to_string()));
}

#[test]
fn warm_npc_shows_connection_option() {
    let conn = NpcConnection {
        npc_id: 77,
        relationship: NpcRelationType::Colleague,
        context: "Works in the same sector".into(),
    };
    let options = build_menu_options(DispositionTier::Warm, true, false, true, &vec![conn]);
    let has_contact = options.iter().any(|o| o.label.contains("contact"));
    assert!(has_contact, "Warm NPC with connections should show contact option");
    assert!(options.iter().any(|o| matches!(o.action, NpcAction::AskAboutConnection(77))));
}

#[test]
fn menu_order_and_leave_last() {
    let options = build_menu_options(DispositionTier::Trusted, true, true, false, &vec![]);
    assert_eq!(
        labels(&options),
        vec!["Ask about work", "Turn in contract", "Ask about the area", "Leave"]
    );
    let cold = build_menu_options(DispositionTier::Cold, false, false, true, &vec![]);
    assert_eq!(labels(&cold), vec!["Ask about the area", "Leave"]);
}

#[test]
fn returning_player_gets_memory_line() {
    let mut rng = StdRng::seed_from_u64(42);
    let npc = test_npc("Thea", 5);
    let templates = no_templates();
    let line = memory_line(
        &npc,
        MemoryTone::Positive,
        "delivered medical supplies",
        "Wanderer",
        "Vela",
        "Guild",
        &templates,
        &mut rng,
    );
    assert_eq!(line, "\"I remember you. delivered medical supplies.\"");
}

#[test]
fn memory_line_fills_template() {
    let mut rng = StdRng::seed_from_u64(42);
    let npc = test_npc("Thea", 5);
    let mut templates = no_templates();
    templates.returning_player = pool(vec![("positive", vec!["{name} recalls: {summary} at {system}."])]);
    let line = memory_line(
        &npc,
        MemoryTone::Positive,
        "the medicine run",
        "Wanderer",
        "Vela",
        "Guild",
        &templates,
        &mut rng,
    );
    assert_eq!(line, "Thea recalls: the medicine run at Vela.");
}

#[test]
fn connection_info_includes_relationship_context() {
    let mut rng = StdRng::seed_from_u64(42);
    let npc = test_npc("Maren", 1);
    let connected = test_npc("Kael", 2);
    let conn = NpcConnection {
        npc_id: connected.id,
        relationship: NpcRelationType::Rival,
        context: "Competes for the same trade routes".into(),
    };
    let info = ask_about_connection(&npc, &conn, &connected, "Vela", "Vela", &no_templates(), &mut rng);
    assert!(!info.description.is_empty());
    assert_eq!(info.name, "Kael");
    assert_eq!(
        info.description,
        "\"Kael \u{2014} Competes for the same trade routes. That's all I'll say.\""
    );
}

#[test]
fn knowledge_tiers_follow_disposition() {
    let mut rng = StdRng::seed_from_u64(7);
    let npc = test_npc("Maren", 1);
    let items: Vec<String> = vec!["a".into(), "b".into(), "c".into()];
    let warm = deliver_knowledge(&npc, DispositionTier::Warm, &items, "W", "V", "G", &no_templates(), &mut rng);
    assert_eq!(warm.len(), 3);
    assert_eq!(warm[0].tier, KnowledgeTier::General);
    assert_eq!(warm[1].tier, KnowledgeTier::FactionIntel);
    assert_eq!(warm[2].tier, KnowledgeTier::General);
    assert_eq!(warm[0].delivered, "\"a\"");
    let friendly =
        deliver_knowledge(&npc, DispositionTier::Friendly, &items, "W", "V", "G", &no_templates(), &mut rng);
    assert_eq!(friendly[2].tier, KnowledgeTier::ThreadRumor);
}

#[test]
fn connection_mention_fallback_names_title() {
    let mut rng = StdRng::seed_from_u64(1);
    let npc = test_npc("Maren", 1);
    let contact = test_npc("Kael", 2);
    let line = connection_mention(&npc, &contact, "the Guild Factor", "Vela", &no_templates(), &mut rng);
    assert_eq!(line, "\"Talk to the Guild Factor \u{2014} she might know more.\"");
}

// --- Consequences -------------------------------------------------------------

#[test]
fn cargo_jettison_clears_all() {
    let mut hold = CargoHold::new(50);
    let _ = add_cargo(&mut hold, &"Data cores".to_string(), 3);
    let line = jettison_cargo(&mut hold);
    assert_eq!(line, Some("Jettisoned cargo: Data cores".to_string()));
    assert_eq!(hold.items.len(), 0);
    assert_eq!(jettison_cargo(&mut hold), None);
}

#[test]
fn add_cargo_accumulates() {
    let mut hold = CargoHold::new(50);
    let line = add_cargo(&mut hold, &"Ore".to_string(), 4);
    assert_eq!(line, "Cargo +4 Ore");
    let _ = add_cargo(&mut hold, &"Ore".to_string(), 6);
    assert_eq!(hold.get(&"Ore".to_string()), 10);
    assert_eq!(hold.total_units(), 10);
}

#[test]
fn concerns_keep_the_latest_three() {
    let mut concerns: Vec<String> = vec![];
    for c in ["one", "two", "three", "four"] {
        add_concern(&mut concerns, c.to_string());
    }
    assert_eq!(concerns, vec!["two", "three", "four"]);
}

#[test]
fn parsers_map_keys_and_fall_back() {
    assert_eq!(parse_mood("frustrated"), Mood::Angry);
    assert_eq!(parse_mood("suspicious"), Mood::Withdrawn);
    assert_eq!(parse_mood("whatever"), Mood::Content);
    assert_eq!(parse_thread_type("bond"), ThreadType::Relationship);
    assert_eq!(parse_thread_type("clue"), ThreadType::Anomaly);
    assert_eq!(parse_thread_type("nope"), ThreadType::Mystery);
    assert_eq!(parse_module_target("life_support"), ModuleTarget::LifeSupport);
    assert_eq!(parse_module_target("warp"), ModuleTarget::Engine);
    assert_eq!(module_name(ModuleTarget::LifeSupport), "Life support");
}

#[test]
fn short_desc_truncates_long_text() {
    assert_eq!(short_desc("A signal in the dark."), "A signal in the dark.");
    let long = "x".repeat(60);
    let d = short_desc(&long);
    assert_eq!(d, format!("{}...", "x".repeat(50)));
}

#[test]
fn log_entry_prefers_narrative_then_changes() {
    let notes: Vec<String> = vec!["It was quiet.".into(), "Very quiet.".into()];
    let changes: Vec<String> = vec!["Fuel +20".into(), "Cargo +1 Ore".into()];
    assert_eq!(compose_log_entry(&notes, &changes, "Rested"), "It was quiet. Very quiet.");
    assert_eq!(compose_log_entry(&vec![], &changes, "Refueled"), "Refueled [Fuel +20; Cargo +1 Ore]");
    assert_eq!(compose_log_entry(&vec![], &vec![], "Nothing"), "Nothing");
}

// --- Contracts ----------------------------------------------------------------

fn contract(id: u128, kind: ContractType, dest: u128, cargo: Option<(&str, u32)>) -> Contract {
    Contract {
        id,
        title: format!("Job {}", id),
        contract_type: kind,
        state: ContractState::Active,
        destination_system_id: dest,
        destination_location_id: None,
        cargo_required: cargo.map(|(n, q)| (n.to_string(), q)),
    }
}

#[test]
fn delivery_completes_and_unloads_cargo() {
    let mut hold = CargoHold::new(20);
    let _ = add_cargo(&mut hold, &"Medical supplies".to_string(), 5);
    let mut contracts = vec![contract(1, ContractType::Delivery, 9, Some(("Medical supplies", 5)))];
    let msgs = check_contract_progress(&mut contracts, &mut hold, 9, None);
    assert_eq!(contracts[0].state, ContractState::ReadyToComplete);
    assert_eq!(hold.get(&"Medical supplies".to_string()), 0);
    assert_eq!(
        msgs,
        vec!["Contract objective complete: Job 1. Delivered Medical supplies x5. Return to the contract issuer to collect payment."]
    );
}

#[test]
fn retrieval_blocked_by_full_hold() {
    let mut hold = CargoHold::new(4);
    let _ = add_cargo(&mut hold, &"Ore".to_string(), 3);
    let mut contracts = vec![contract(2, ContractType::Retrieval, 9, Some(("Relics", 2)))];
    let msgs = check_contract_progress(&mut contracts, &mut hold, 9, None);
    assert_eq!(contracts[0].state, ContractState::Active);
    assert_eq!(
        msgs,
        vec!["You've located the Relics for contract: Job 2, but your cargo hold is too full to take it. Free up 2 units of cargo space."]
    );
}

#[test]
fn contracts_elsewhere_do_not_progress() {
    let mut hold = CargoHold::new(4);
    let mut contracts = vec![contract(3, ContractType::Investigation, 9, None)];
    let msgs = check_contract_progress(&mut contracts, &mut hold, 8, None);
    assert!(msgs.is_empty());
    assert_eq!(contracts[0].state, ContractState::Active);
    let msgs = check_contract_progress(&mut contracts, &mut hold, 9, None);
    assert_eq!(contracts[0].state, ContractState::ReadyToComplete);
    assert_eq!(
        msgs,
        vec!["Investigation complete: Job 3. You've seen enough. Return to the contract issuer to report your findings."]
    );
}

fn system(id: u128, name: &str, locations: Vec<Location>) -> StarSystem {
    StarSystem {
        id,
        name: name.to_string(),
        controlling_civ: None,
        infrastructure_level: InfrastructureLevel::Colony,
        locations,
    }
}

#[test]
fn contract_offer_names_docking_location() {
    let npc = Npc { faction_id: Some(50), ..test_npc("Maren", 0) };
    let systems = vec![
        system(1, "Home", vec![]),
        system(
            2,
            "Vela",
            vec![
                Location { id: 20, name: "Vela Ring".into(), infrastructure: InfrastructureLevel::Hub, docking: true },
                Location { id: 21, name: "Vela Yard".into(), infrastructure: InfrastructureLevel::Outpost, docking: true },
            ],
        ),
    ];
    let connections = vec![Connection { system_a: 1, system_b: 2, route_type: RouteType::Open }];
    let factions = vec![Faction {
        id: 50,
        name: "Corridor Guild".into(),
        category: FactionCategory::Guild,
        scope: FactionScope::Independent,
    }];
    // Guild options are [0, 0, 1, 1, 2]; NPC id 0 + window 0 picks delivery.
    let offer = generate_contract(&npc, &systems, &connections, &factions, 0).unwrap();
    assert_eq!(offer.contract_type, ContractType::Delivery);
    assert_eq!(offer.destination_system_id, 2);
    assert_eq!(offer.destination_location_id, Some(20));
    assert_eq!(offer.title, "Deliver repair components to Vela Ring");
    assert_eq!(offer.cargo_required, Some(("Repair components".to_string(), 8)));
    assert_eq!(offer.reward, 200);
    // Window 4 picks index 4: investigation, which a guild words generically.
    let later = generate_contract(&npc, &systems, &connections, &factions, 4).unwrap();
    assert_eq!(later.contract_type, ContractType::Investigation);
    assert_eq!(later.title, "Check on situation at Vela");
    assert_eq!(later.cargo_required, None);
}

#[test]
fn no_contract_without_routes() {
    let npc = test_npc("Maren", 0);
    let offer = generate_contract(&npc, &vec![system(1, "Home", vec![])], &vec![], &vec![], 0);
    assert!(offer.is_none());
}

// --- Crew conversation --------------------------------------------------------

#[test]
fn recently_discussed_topics_are_filtered() {
    let mut topics = vec!["knowledge talk", "stress talk"];
    let mut ids: Vec<String> = vec!["drive_knowledge".into(), "stress_critical".into()];
    let recent: Vec<String> = vec!["drive_knowledge".into()];
    drop_recent_topics(&mut topics, &mut ids, &recent);
    assert!(!ids.contains(&"drive_knowledge".to_string()), "Recently discussed topic should be filtered out");
    assert_eq!(topics, vec!["stress talk"]);
}

#[test]
fn diversity_pass_promotes_other_source() {
    let mut topics = vec![1, 2, 3, 4, 5];
    let mut sources = vec![
        TopicSource::StressResponse,
        TopicSource::StressResponse,
        TopicSource::StressResponse,
        TopicSource::StressResponse,
        TopicSource::Concern,
    ];
    diversify_topics(&mut topics, &mut sources);
    assert_eq!(topics, vec![1, 2, 5, 3, 4]);
}

#[test]
fn concern_removal_drops_named_concerns() {
    let mut concerns: Vec<String> = vec!["Long-range comms static".into(), "Fuel".into()];
    apply_concern_removals(&mut concerns, &vec!["Fuel".to_string()]);
    assert_eq!(concerns, vec!["Long-range comms static"]);
}

// --- Reputation -----------------------------------------------------------------

#[test]
fn history_is_bounded() {
    let mut h: Vec<u32> = Vec::new();
    for i in 0..250u32 {
        record_in_history(&mut h, i);
    }
    assert_eq!(h.len(), 200);
    assert_eq!(h[0], 50);
    assert_eq!(*h.last().unwrap(), 249);
}

// --- Supplies -------------------------------------------------------------------

#[test]
fn supply_status_labels_and_warnings() {
    assert_eq!(SupplyStatus::Comfortable.label(), "comfortable");
    assert!(!SupplyStatus::Comfortable.is_warning());
    assert!(!SupplyStatus::Adequate.is_warning());
    assert!(SupplyStatus::Low.is_warning());
    assert!(SupplyStatus::Depleted.is_warning());
}

// --- Rumors ---------------------------------------------------------------------

#[test]
fn rumor_selection_prefers_variety() {
    let cands = vec![
        Candidate { id: 1, category: RumorCategory::TradeTip },
        Candidate { id: 2, category: RumorCategory::TradeTip },
        Candidate { id: 3, category: RumorCategory::LocalColor },
        Candidate { id: 4, category: RumorCategory::FactionIntel },
    ];
    assert_eq!(select_with_variety(&cands, 3), vec![0, 2, 3]);
    assert_eq!(select_with_variety(&cands, 4), vec![0, 2, 3, 1]);
    assert_eq!(select_with_variety(&cands, 0), Vec::<usize>::new());
}

#[test]
fn entity_names_prefer_factions() {
    let factions = vec![Faction {
        id: 1,
        name: "Naval Command".into(),
        category: FactionCategory::Military,
        scope: FactionScope::Independent,
    }];
    let civs = vec![Civilization { id: 2, name: "Iron Dominion".into(), faction_ids: vec![], pressures: vec![] }];
    assert_eq!(resolve_entity_names(&vec![2, 9, 1], &factions, &civs), vec!["Iron Dominion", "Naval Command"]);
}

#[test]
fn thread_rumor_wording() {
    assert_eq!(
        thread_rumor_text("the lost colony", true),
        "\"People are still talking about the lost colony. It happened right here.\""
    );
    assert_eq!(
        thread_rumor_text("the lost colony", false),
        "\"People are still talking about the lost colony. Word travels.\""
    );
}

// --- Travel -----------------------------------------------------------------------

#[test]
fn cannot_travel_from_wrong_system() {
    let route = Connection { system_a: 1, system_b: 2, route_type: RouteType::Open };
    let r = check_departure(true, &None, 3, &route);
    assert_eq!(r, Err("You are not at either end of this route.".to_string()));
    assert_eq!(check_departure(true, &None, 2, &route), Ok(()));
}

#[test]
fn infeasible_plan_rejected() {
    let route = Connection { system_a: 1, system_b: 2, route_type: RouteType::Open };
    let r = check_departure(false, &Some("No FTL lane on this route.".to_string()), 1, &route);
    assert_eq!(r, Err("No FTL lane on this route.".to_string()));
    assert_eq!(check_departure(false, &None, 1, &route), Err("Travel is not feasible.".to_string()));
}

#[test]
fn transit_names() {
    assert_eq!(transit_name(TravelMode::Sublight), "sublight");
    assert_eq!(transit_name(TravelMode::Ftl), "FTL");
}

#[test]
fn tick_events_become_faction_intel() {
    let factions = vec![
        Faction { id: 1, name: "Naval Command".into(), category: FactionCategory::Military, scope: FactionScope::Independent },
        Faction { id: 2, name: "Merchant League".into(), category: FactionCategory::Economic, scope: FactionScope::Independent },
    ];
    let civs: Vec<Civilization> = vec![];
    let intel = tick_event_intel(
        &vec![1, 2],
        "Tensions rose between factions.",
        &vec![2],
        1,
        &factions,
        &civs,
        "Alpha",
    )
    .expect("Should find faction intel from tick events");
    assert!(intel.involves_local);
    assert_eq!(intel.display_text, "\"Tensions rose between factions.\"");
    assert_eq!(intel.implication, "This directly affects Naval Command and Merchant League presence at Alpha.");
    let distant = tick_event_intel(&vec![1], "Far away.", &vec![], 3, &factions, &civs, "Alpha").unwrap();
    assert!(!distant.involves_local);
    assert_eq!(distant.implication, "Distant events, but the ripples may reach here.");
    assert!(tick_event_intel(&vec![1], "Far away.", &vec![], 6, &factions, &civs, "Alpha").is_none());
}

#[test]
fn pressure_intel_names_the_civilization() {
    let civ = Civilization {
        id: 4,
        name: "Shaky Republic".into(),
        faction_ids: vec![],
        pressures: vec![CivPressure { description: "Trade unions demanding better terms".into(), source_faction: None }],
    };
    let (display, summary) = pressure_intel(&civ).unwrap();
    assert_eq!(display, "\"Word is Shaky Republic is dealing with problems. Trade unions demanding better terms\"");
    assert_eq!(summary, "Shaky Republic: Trade unions demanding better terms");
    let calm = Civilization { pressures: vec![], ..civ };
    assert!(pressure_intel(&calm).is_none());
}

#[test]
fn star_flavor_for_remarkable_stars() {
    assert!(star_flavor(StarType::BlackHole).unwrap().contains("lensing"));
    assert_eq!(star_flavor(StarType::BlueGiant), star_flavor(StarType::BlueSuperGiant));
}

#[test]
fn common_stars_get_no_flavor() {
    assert!(star_flavor(StarType::YellowDwarf).is_none());
    assert!(star_flavor(StarType::RedDwarf).is_none());
    assert!(star_flavor(StarType::Anomalous).is_none());
}

#[test]
fn faction_atmosphere_by_category() {
    assert!(faction_atmosphere(FactionCategory::Military).starts_with("Uniforms"));
    assert!(faction_atmosphere(FactionCategory::Guild).starts_with("Guild banners"));
}

fn lead_npc(id: u128, faction_id: Option<u128>, met_player: bool) -> LeadNpc {
    LeadNpc {
        id,
        name: "Ilse Varn".into(),
        title: "Quartermaster".into(),
        object_pronoun: "her".into(),
        display_name: if met_player { "Ilse Varn".into() } else { "the Quartermaster".into() },
        home_system_id: 7,
        home_location_id: Some(70),
        alive: true,
        offers_contracts: true,
        met_player,
        faction_id,
    }
}

#[test]
fn contract_leads_follow_the_faction_category() {
    let factions = vec![Faction { id: 1, name: "Naval Command".into(), category: FactionCategory::Military, scope: FactionScope::Independent }];
    let npcs = vec![lead_npc(10, Some(1), true), lead_npc(11, None, false)];
    let leads = contract_leads(&npcs, &factions, 7, Some(70), &vec![]);
    assert_eq!(leads.len(), 2);
    assert_eq!(leads[0].contract_type, "investigation");
    assert_eq!(leads[0].estimated_reward, 280);
    assert_eq!(leads[0].npc_name, Some("Ilse Varn".to_string()));
    assert_eq!(
        leads[0].display_text,
        "\"Ilse Varn \u{2014} Quartermaster \u{2014} is looking for someone to investigate a situation. Talk to her if you're interested.\""
    );
    assert_eq!(leads[0].summary, "Ilse Varn (Naval Command) wants a investigation job done (~280 cr)");
    assert_eq!(leads[1].npc_name, None);
    assert_eq!(
        leads[1].display_text,
        "\"The Quartermaster is looking for someone to handle a courier job. Talk to her if you're interested.\""
    );
    assert_eq!(leads[1].summary, "the Quartermaster (an independent operator) wants a delivery job done (~175 cr)");
    assert_eq!(lead_terms_for(Some(FactionCategory::Criminal)), ("delivery", "move some cargo discreetly", 320));
}

#[test]
fn contract_leads_skip_busy_absent_and_unwilling_people() {
    let factions = vec![];
    let mut away = lead_npc(12, None, false);
    away.home_location_id = Some(71);
    let mut unwilling = lead_npc(13, None, false);
    unwilling.offers_contracts = false;
    let mut dead = lead_npc(14, None, false);
    dead.alive = false;
    let npcs = vec![lead_npc(10, None, false), lead_npc(11, None, false), away, unwilling, dead];
    let contracts = vec![(10, ContractState::Active), (11, ContractState::Completed)];
    let leads = contract_leads(&npcs, &factions, 7, Some(70), &contracts);
    assert_eq!(leads.len(), 1);
    assert_eq!(leads[0].npc_id, 11);
    assert!(contract_leads(&npcs, &factions, 7, None, &contracts).is_empty());
}
