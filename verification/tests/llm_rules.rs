use starbound::llm::client::{
    check_status, parse_failure, request_messages, take_first_choice, ApiError, ChatMessage,
    UsageInfo,
};
use starbound::llm::config::{is_available, resolve_api_key, resolve_model};
use starbound::llm::npc_dialogue::{
    accept_generated_text, greeting_user_message, knowledge_user_message, NpcContext,
};
use starbound::llm::prompt::{
    build_system_message, build_user_message, encounter_memory, CrewLine, EncounterContext, NpcLine,
    PromptTrigger, ThreadLine,
};
use starbound::llm::response::{
    assemble_event, effects_or_pass, json_failure, strip_code_fences, validate_event, EventKind, ParseError,
};
use starbound::llm::rumor_flavor::{rumor_user_message, RumorSource};

fn ctx() -> NpcContext {
    NpcContext {
        name: "Maren Vasquez".into(),
        title: "Guild Factor".into(),
        pronouns_subject: "she".into(),
        pronouns_object: "her".into(),
        pronouns_possessive: "her".into(),
        personality_desc: "warm and careful".into(),
        disposition_label: "neutral".into(),
        bio: "A seasoned trader.".into(),
        location_name: "Vela Ring".into(),
        system_name: "Vela".into(),
        faction_name: "Corridor Guild".into(),
        ship_name: "Wanderer".into(),
    }
}

#[test]
fn code_fences_are_stripped() {
    let raw = "  ```json\n{\"text\": \"Test encounter\"}\n```  ";
    assert_eq!(strip_code_fences(raw), "{\"text\": \"Test encounter\"}");
    assert_eq!(strip_code_fences("```\n{}\n```"), "{}");
    assert_eq!(strip_code_fences(" {} "), "{}");
    // An opening fence without a closing one is left in place.
    assert_eq!(strip_code_fences("```json {}"), "```json {}");
}

#[test]
fn short_text_is_refused() {
    assert!(matches!(validate_event("Short.", 1), Err(ParseError::TextTooShort)));
}

#[test]
fn replies_without_choices_are_refused() {
    let text = "The station hums around you, a low and steady sound that never quite stops.";
    assert!(matches!(validate_event(text, 0), Err(ParseError::NoChoices)));
    assert!(validate_event(text, 2).is_ok());
}

#[test]
fn truncated_json_is_reported() {
    match json_failure("{\"text\": \"cut", "EOF while parsing") {
        ParseError::InvalidJson(m) => assert_eq!(
            m,
            "Response appears truncated (doesn't end with '}').  This usually means max_tokens is too low. Error: EOF while parsing"
        ),
        other => panic!("unexpected {:?}", other),
    }
    match json_failure("{}", "expected value") {
        ParseError::InvalidJson(m) => assert_eq!(m, "expected value"),
        other => panic!("unexpected {:?}", other),
    }
    assert_eq!(ParseError::NoChoices.describe(), "No choices in response");
    assert_eq!(ParseError::MissingField("text".into()).describe(), "Missing field: text");
}

#[test]
fn config_prefers_configured_values() {
    assert_eq!(resolve_api_key(&"abc".to_string(), Some("env".to_string())), Some("abc".to_string()));
    assert_eq!(resolve_api_key(&String::new(), Some("env".to_string())), Some("env".to_string()));
    assert_eq!(resolve_api_key(&String::new(), None), None);
    assert_eq!(resolve_model(&String::new(), None), "xiaomi/mimo-v2-flash");
    assert_eq!(resolve_model(&String::new(), Some("m".to_string())), "m");
    assert_eq!(resolve_model(&"x".to_string(), Some("m".to_string())), "x");
    assert!(is_available(true, &Some("k".to_string())));
    assert!(!is_available(true, &None));
    assert!(!is_available(false, &Some("k".to_string())));
}

#[test]
fn client_reply_handling() {
    let msgs = request_messages("sys", "usr");
    assert_eq!(msgs.len(), 2);
    assert_eq!(msgs[0].role, "system");
    assert_eq!(msgs[1].content, "usr");
    assert!(matches!(check_status(200, "ok".into()), Ok(ref b) if b == "ok"));
    match check_status(429, "slow down".into()) {
        Err(e) => assert_eq!(e.describe(), "API error (429): slow down"),
        Ok(_) => panic!("expected an error"),
    }
    assert!(matches!(take_first_choice(vec![], None), Err(ApiError::EmptyResponse)));
    let usage = UsageInfo { prompt_tokens: 1, completion_tokens: 2, total_tokens: 3 };
    let r = take_first_choice(
        vec![
            ChatMessage { role: "assistant".into(), content: "first".into() },
            ChatMessage { role: "assistant".into(), content: "second".into() },
        ],
        Some(usage),
    )
    .unwrap();
    assert_eq!(r.content, "first");
    assert_eq!(r.usage.unwrap().total_tokens, 3);
    let long = "y".repeat(600);
    match parse_failure("bad json", &long) {
        ApiError::ParseError(m) => assert_eq!(m, format!("bad json\n  Response preview: {}", "y".repeat(500))),
        _ => panic!("expected a parse error"),
    }
    assert_eq!(ApiError::Timeout.describe(), "Request timed out");
}

#[test]
fn npc_messages_carry_the_brief() {
    let c = ctx();
    let brief = c.character_brief();
    assert!(brief.starts_with("CHARACTER: Maren Vasquez (Guild Factor), Corridor Guild\n"));
    assert!(brief.ends_with("\nPLAYER'S SHIP: Wanderer"));
    let items: Vec<String> = vec!["Patrols doubled".into(), "A derelict drifts".into()];
    let k = knowledge_user_message(&c, &items);
    assert!(k.ends_with("\n\nKNOWLEDGE TO SHARE:\n1. Patrols doubled\n2. A derelict drifts\n\nDeliver these as natural conversation."));
    let g = greeting_user_message(&c, None);
    assert!(g.starts_with(&brief));
    assert!(g.ends_with("Write the NPC's greeting."));
}

#[test]
fn generated_lines_are_checked() {
    assert_eq!(accept_generated_text("  Hello there.  ", 100), Some("Hello there.".to_string()));
    assert_eq!(accept_generated_text("{\"text\": 1}", 100), None);
    assert_eq!(accept_generated_text("abcdef", 3), None);
}

#[test]
fn rumor_prompt_names_source() {
    let s = RumorSource::FactionContact { name: "Kael".into(), title: "Broker".into() };
    assert_eq!(s.description(), "shared by Kael (Broker), a faction contact");
    assert_eq!(
        rumor_user_message("Fuel is cheap at Vela.", &RumorSource::DockWorker, "Vela Ring"),
        "LOCATION: Vela Ring\nSOURCE: mentioned casually by a dock worker or station hand\nFACT: Fuel is cheap at Vela.\n\nWrite 2-3 sentences delivering this fact in-world."
    );
}

#[test]
fn encounter_prompt_memory_blocks() {
    let none = encounter_memory(&vec![], &vec![]);
    assert_eq!(none, "Generate an encounter event for the following context.\n\n");
    let facts: Vec<String> = vec!["Maren runs the dock".into()];
    let scenes: Vec<String> = vec!["Met Maren".into()];
    let m = encounter_memory(&facts, &scenes);
    assert_eq!(
        m,
        "Generate an encounter event for the following context.\n\n=== ESTABLISHED FACTS (do not contradict) ===\n- Maren runs the dock\n\n=== RECENT EVENTS (what just happened \u{2014} do not repeat or re-introduce) ===\n- Met Maren\nIMPORTANT: Do NOT re-introduce characters the player has already met. Do NOT repeat scenes or information from recent events. Build on what happened, don't restart it.\n\n"
    );
    let sys = build_system_message(Some("{\"id\": 1}"));
    assert!(sys.starts_with("You are the narrative engine for Starbound"));
    assert!(sys.contains("=== STYLE BIBLE ===\nVOICE: Awe tinged with loneliness."));
    assert!(sys.ends_with("\n=== EXAMPLE EVENT ===\n{\"id\": 1}\n"));
    assert!(!build_system_message(None).contains("EXAMPLE EVENT"));
}

fn bare_context() -> EncounterContext {
    EncounterContext {
        trigger: PromptTrigger::Transit,
        trigger_label: "Transit".to_string(),
        established_facts: vec![],
        recent_scenes: vec![],
        system_name: "Kepler".to_string(),
        star: "Yellow Dwarf".to_string(),
        infrastructure: "Colony".to_string(),
        time_factor: "1.5".to_string(),
        civ_name: Some("The Hegemony".to_string()),
        faction_name: None,
        location_name: None,
        location_type: None,
        location_description: None,
        ship_name: "Wanderer".to_string(),
        hull_percent: "85".to_string(),
        fuel: "40".to_string(),
        fuel_capacity: "100".to_string(),
        supplies: "20".to_string(),
        supply_capacity: "50".to_string(),
        credits: "300".to_string(),
        crew: vec![],
        npcs: vec![],
        threads: vec![],
        personal_months: "2.0".to_string(),
        galactic_years: "12.3".to_string(),
    }
}

#[test]
fn user_message_for_a_quiet_transit() {
    let msg = build_user_message(&bare_context());
    let expected = "Generate an encounter event for the following context.\n\n\
TRIGGER: Transit\n\
This is an ambient moment during sublight travel between locations. \
Keep it small \u{2014} a crew observation, environmental detail, or quiet moment. \
Low stakes. No major plot developments.\n\
\nSYSTEM: Kepler\n  Star: Yellow Dwarf\n  Infrastructure: Colony\n  Time factor: 1.5x\n  Controlled by: The Hegemony\n\
\nSHIP: Wanderer\n  Hull: 85%  Fuel: 40/100  Supplies: 20/50  Credits: 300\n\
\nTIME: 2.0 months personal / 12.3 years galactic\n\
\nRespond with ONLY the JSON object. No other text.\n";
    assert_eq!(msg, expected);
}

#[test]
fn user_message_lists_crew_people_and_open_threads() {
    let mut ctx = bare_context();
    ctx.trigger = PromptTrigger::Action("investigate".to_string());
    ctx.trigger_label = "Action".to_string();
    ctx.established_facts = vec!["The dock is empty.".to_string()];
    ctx.civ_name = None;
    ctx.faction_name = Some("Iron Covenant".to_string());
    ctx.location_name = Some("Kepler Station".to_string());
    ctx.location_type = Some("Station".to_string());
    ctx.location_description = Some("A functional station.".to_string());
    ctx.crew = vec![CrewLine {
        name: "Mara".to_string(),
        role: "Navigator".to_string(),
        stress_percent: "30".to_string(),
        mood: "Wary".to_string(),
    }];
    ctx.npcs = vec![NpcLine {
        name: "Oren".to_string(),
        title: "Dockmaster".to_string(),
        disposition: "Warm".to_string(),
        personality: "gruff".to_string(),
        last_interaction: Some("Shared a drink.".to_string()),
    }];
    let mut threads = Vec::new();
    for i in 0..7 {
        threads.push(ThreadLine {
            thread_type: "Mystery".to_string(),
            description: format!("Thread {}", i),
            still_open: i != 2,
        });
    }
    ctx.threads = threads;
    let msg = build_user_message(&ctx);
    assert!(msg.starts_with(
        "Generate an encounter event for the following context.\n\n=== ESTABLISHED FACTS (do not contradict) ===\n- The dock is empty.\n\nTRIGGER: Action\n"
    ));
    assert!(msg.contains(
        "The player chose to investigate. This is a discovery event \u{2014} they acted, something should happen. Meaningful stakes."
    ));
    assert!(msg.contains("  Unclaimed space\n  Dominant faction: Iron Covenant\n"));
    assert!(msg.contains("\nLOCATION: Kepler Station (Station)\n  Description: A functional station.\n"));
    assert!(msg.contains("\nCREW (1):\n  Mara \u{2014} Navigator (stress: 30%, mood: Wary)\n"));
    assert!(msg.contains(
        "\nNPCs HERE (1):\n  Oren \u{2014} Dockmaster (disposition: Warm, personality: gruff)\n    Last interaction: Shared a drink.\n"
    ));
    assert!(msg.contains(
        "\nACTIVE THREADS (6):\n  [Mystery] Thread 0\n  [Mystery] Thread 1\n  [Mystery] Thread 3\n  [Mystery] Thread 4\n  [Mystery] Thread 5\n  ... and 1 more\n"
    ));
    assert!(!msg.contains("Thread 6"));
    assert!(msg.ends_with("\nRespond with ONLY the JSON object. No other text.\n"));
}

const LONG_TEXT: &str = "The station hums with activity. Cargo shuttles trace slow arcs between the docking rings.";

#[test]
fn assembled_event_is_framed_by_its_trigger() {
    let ambient = assemble_event(LONG_TEXT, vec!["Read the note", "Head inside"], PromptTrigger::Docked, "llm_test_001").unwrap();
    assert_eq!(ambient.id, "llm_test_001");
    assert_eq!(ambient.encounter_type, "llm_generated");
    assert_eq!(ambient.category, "ambient");
    assert_eq!(ambient.tone, "quiet");
    assert_eq!(ambient.priority, 0);
    assert_eq!(ambient.event_kind, EventKind::Ambient);
    assert_eq!(ambient.trigger, PromptTrigger::Docked);
    assert_eq!(ambient.choices, vec!["Read the note", "Head inside"]);
    assert_eq!(ambient.text, LONG_TEXT);
    let found = assemble_event(LONG_TEXT, vec!["Investigate"], PromptTrigger::Action("investigate".to_string()), "llm_test_004").unwrap();
    assert_eq!(found.event_kind, EventKind::Discovery);
    assert_eq!(found.tone, "wonder");
    assert_eq!(found.trigger, PromptTrigger::Action("investigate".to_string()));
}

#[test]
fn assembled_event_needs_text_and_choices() {
    assert!(matches!(assemble_event("Short.", vec!["Ok"], PromptTrigger::Arrival, "test"), Err(ParseError::TextTooShort)));
    let none: Vec<&str> = vec![];
    assert!(matches!(assemble_event(LONG_TEXT, none, PromptTrigger::Arrival, "test"), Err(ParseError::NoChoices)));
}

#[test]
fn a_choice_without_effects_passes() {
    assert_eq!(effects_or_pass(Vec::<u8>::new(), 0), vec![0]);
    assert_eq!(effects_or_pass(vec![3u8, 4], 0), vec![3, 4]);
}

#[test]
fn only_actions_are_player_actions() {
    assert!(PromptTrigger::Action("investigate".to_string()).is_player_action());
    assert!(!PromptTrigger::Docked.is_player_action());
    assert!(!PromptTrigger::Transit.is_player_action());
}

#[test]
fn fenced_reply_reads_into_an_event() {
    let raw = "```json\n{\"text\": \"Test encounter with enough text to pass the length check. The station is quiet today, unusually so.\", \"choices\": [{\"label\": \"Look around\", \"effects\": [{\"type\": \"pass\"}]}]}\n```";
    let cleaned = strip_code_fences(raw);
    let value: serde_json::Value = serde_json::from_str(cleaned).unwrap();
    let text = value["text"].as_str().unwrap();
    let labels: Vec<String> = value["choices"]
        .as_array()
        .unwrap()
        .iter()
        .map(|c| c["label"].as_str().unwrap().to_string())
        .collect();
    let event = assemble_event(text, labels, PromptTrigger::Arrival, "llm_test_002").unwrap();
    assert!(event.text.contains("Test encounter"));
    assert_eq!(event.choices, vec!["Look around".to_string()]);
}
