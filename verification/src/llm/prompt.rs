//! The messages that ask the model for an encounter: the system message
//! with the house style and reply format, and the user message with the
//! game context, opening with the facts the model must not contradict and
//! the recent scenes it must not repeat.

use vstd::prelude::*;

use crate::text::{contains_text, decimal, decimal_string, has_prefix, has_suffix, occurs_at};

verus! {

/// One "- item" line per item.
pub open spec fn bullets(items: Seq<String>) -> Seq<char>
    decreases items.len(),
{
    if items.len() == 0 {
        Seq::empty()
    } else {
        bullets(items.drop_last()) + "- "@ + items.last()@ + "\n"@
    }
}

/// The established-facts block, absent when there are no facts.
pub open spec fn facts_block(facts: Seq<String>) -> Seq<char> {
    if facts.len() == 0 {
        Seq::empty()
    } else {
        "=== ESTABLISHED FACTS (do not contradict) ===\n"@ + bullets(facts) + "\n"@
    }
}

/// The recent-events block, absent when nothing happened recently.
pub open spec fn recent_block(scenes: Seq<String>) -> Seq<char> {
    if scenes.len() == 0 {
        Seq::empty()
    } else {
        "=== RECENT EVENTS (what just happened \u{2014} do not repeat or re-introduce) ===\n"@
            + bullets(scenes)
            + "IMPORTANT: Do NOT re-introduce characters the player has already met. Do NOT repeat scenes or information from recent events. Build on what happened, don't restart it.\n\n"@
    }
}

/// The start of the encounter request: the instruction, then the facts,
/// then the recent events.
pub open spec fn memory_text(facts: Seq<String>, scenes: Seq<String>) -> Seq<char> {
    "Generate an encounter event for the following context.\n\n"@ + facts_block(facts)
        + recent_block(scenes)
}

/// Append one "- item" line per item.
fn append_bullets(msg: &mut String, items: &Vec<String>)
    ensures
        final(msg)@ == old(msg)@ + bullets(items@),
{
    let ghost start = msg@;
    let mut i: usize = 0;
    while i < items.len()
        invariant
            i <= items.len(),
            msg@ == start + bullets(items@.take(i as int)),
        decreases items.len() - i,
    {
        assert(items@.take(i as int + 1).drop_last() =~= items@.take(i as int));
        msg.append("- ");
        msg.append(items[i].as_str());
        msg.append("\n");
        i = i + 1;
    }
    assert(items@.take(i as int) =~= items@);
}

/// Open the encounter request with what the model must respect: the
/// established facts of the place and the scenes that just happened.
pub fn encounter_memory(established_facts: &Vec<String>, recent_scenes: &Vec<String>) -> (r: String)
    ensures
        r@ == memory_text(established_facts@, recent_scenes@),
{
    let mut msg = "Generate an encounter event for the following context.\n\n".to_owned();
    let ghost opening = msg@;
    if established_facts.len() > 0 {
        msg.append("=== ESTABLISHED FACTS (do not contradict) ===\n");
        append_bullets(&mut msg, established_facts);
        msg.append("\n");
    }
    assert(msg@ == opening + facts_block(established_facts@)) by {
        if established_facts@.len() == 0 {
            assert(msg@ =~= opening + Seq::<char>::empty());
        }
    }
    let ghost with_facts = msg@;
    if recent_scenes.len() > 0 {
        msg.append(
            "=== RECENT EVENTS (what just happened \u{2014} do not repeat or re-introduce) ===\n",
        );
        append_bullets(&mut msg, recent_scenes);
        msg.append("IMPORTANT: Do NOT re-introduce characters the player has already met. ");
        msg.append("Do NOT repeat scenes or information from recent events. ");
        msg.append("Build on what happened, don't restart it.\n\n");
    }
    proof {
        reveal_strlit("IMPORTANT: Do NOT re-introduce characters the player has already met. ");
        reveal_strlit("Do NOT repeat scenes or information from recent events. ");
        reveal_strlit("Build on what happened, don't restart it.\n\n");
        reveal_strlit(
            "IMPORTANT: Do NOT re-introduce characters the player has already met. Do NOT repeat scenes or information from recent events. Build on what happened, don't restart it.\n\n",
        );
        if recent_scenes@.len() == 0 {
            assert(msg@ =~= with_facts + Seq::<char>::empty());
        } else {
            assert(msg@ =~= with_facts + recent_block(recent_scenes@));
        }
    }
    msg
}


/// The house style the model writes in.
pub open spec fn style_bible() -> Seq<char> {
    "VOICE: Awe tinged with loneliness. The feeling between wonder and melancholy. Quiet and restrained. Trust the player to feel things without being told to feel them.\n\nDESCRIPTIONS: Evocative but incomplete. Describe what you perceive, not what things are. DO: 'The structure fills your viewport and you still can't see the edges.' DON'T: 'The structure is enormous.'\n\nDIALOGUE: Sounds like actual people. Trailing off mid-thought. Mundane observations that carry weight. Important things buried in casual conversation.\n\nPACING: A slow-burn film you're directing. Not every moment needs to be dramatic. Quiet observation is valid. Silence between characters is valid.\n\nTEST: When a player lies in bed after playing, are they thinking about loot and levels, or about their navigator's face when she realized the colony was gone?"@
}

/// The reply format the model must follow.
pub open spec fn output_format() -> Seq<char> {
    "\nYou must respond with ONLY a JSON object. No markdown, no preamble, no explanation.\n\nThe JSON must have this exact structure:\n{\n  \"text\": \"The encounter text the player reads. Paragraphs separated by \\\\n\\\\n.\",\n  \"choices\": [\n    {\n      \"label\": \"Short action label (what the player does)\",\n      \"tone_note\": \"Brief note on the emotional register of this choice\",\n      \"effects\": [\n        {\"type\": \"effect_type\", ...effect_fields}\n      ]\n    }\n  ]\n}\n\nLENGTH RULES:\n- Transit/ambient events: 1-2 short paragraphs. A moment, not a scene.\n- Docked/arrival events: 1-3 paragraphs. Set the atmosphere, don't overdo it.\n- Action/discovery events: 2-4 paragraphs. These earn more space.\n- NOT EVERY DETAIL NEEDS TO BE USED. Pick one or two elements from the context.\n- Silence and brevity are powerful. A three-sentence encounter can hit harder than six paragraphs.\n- Keep text under 400 words. Most events should be under 200.\n\nCHOICE RULES:\n- 2-3 choices. Each must feel meaningfully different.\n- At least one choice should be low-commitment (observe, move on, say nothing).\n- Choice labels should be short \u{2014} under 10 words.\n\nEFFECT RULES \u{2014} use ONLY these types:\n  {\"type\": \"narrative\", \"text\": \"...\"}  \u{2014} log note, no mechanical change\n  {\"type\": \"crew_stress\", \"delta\": 0.03}  \u{2014} positive adds stress, negative reduces\n  {\"type\": \"trust_professional\", \"delta\": 0.02}  \u{2014} crew trust shift\n  {\"type\": \"trust_personal\", \"delta\": 0.02}  \u{2014} crew trust shift\n  {\"type\": \"spawn_thread\", \"thread_type\": \"mystery|anomaly|relationship|grudge|debt\", \"description\": \"...\"}\n  {\"type\": \"fuel\", \"delta\": -5.0}  \u{2014} fuel change\n  {\"type\": \"supplies\", \"delta\": -3.0}  \u{2014} supplies change\n  {\"type\": \"hull\", \"delta\": -0.05}  \u{2014} hull condition change\n  {\"type\": \"resources\", \"delta\": 50.0}  \u{2014} credits change\n  {\"type\": \"time_cost\", \"hours\": 4.0}  \u{2014} personal time consumed\n  {\"type\": \"pass\"}  \u{2014} no mechanical effect\n- Do NOT invent new effect types.\n- Keep deltas small. Stress: \u{b1}0.01-0.05. Trust: \u{b1}0.01-0.04. Resources: \u{b1}10-100.\n- Most ambient events should use only \"narrative\" or \"pass\" effects.\n"@
}

/// The system message: the model's role, the house style, the reply
/// format, and an example event when one is given (as its JSON text).
pub open spec fn system_text(example: Option<Seq<char>>) -> Seq<char> {
    "You are the narrative engine for Starbound, a space exploration game. "@
        + "You generate encounter events based on the game context you receive. "@
        + "The game's simulation decides WHAT happens. You decide HOW it reads.\n\n"@
        + "=== STYLE BIBLE ===\n"@ + style_bible() + "\n\n"@ + "=== OUTPUT FORMAT ===\n"@
        + output_format() + match example {
        Some(j) => "\n=== EXAMPLE EVENT ===\n"@ + j + "\n"@,
        None => Seq::empty(),
    }
}

/// Build the system message. `example_json` is the example event written
/// as JSON, or empty text when it could not be written.
pub fn build_system_message(example_json: Option<&str>) -> (r: String)
    ensures
        r@ == system_text(
            match example_json {
                Some(j) => Some(j@),
                None => None,
            },
        ),
{
    let mut msg = "You are the narrative engine for Starbound, a space exploration game. ".to_owned();
    msg.append("You generate encounter events based on the game context you receive. ");
    msg.append("The game's simulation decides WHAT happens. You decide HOW it reads.\n\n");
    msg.append("=== STYLE BIBLE ===\n");
    msg.append("VOICE: Awe tinged with loneliness. The feeling between wonder and melancholy. Quiet and restrained. Trust the player to feel things without being told to feel them.\n\nDESCRIPTIONS: Evocative but incomplete. Describe what you perceive, not what things are. DO: 'The structure fills your viewport and you still can't see the edges.' DON'T: 'The structure is enormous.'\n\nDIALOGUE: Sounds like actual people. Trailing off mid-thought. Mundane observations that carry weight. Important things buried in casual conversation.\n\nPACING: A slow-burn film you're directing. Not every moment needs to be dramatic. Quiet observation is valid. Silence between characters is valid.\n\nTEST: When a player lies in bed after playing, are they thinking about loot and levels, or about their navigator's face when she realized the colony was gone?");
    msg.append("\n\n");
    msg.append("=== OUTPUT FORMAT ===\n");
    msg.append("\nYou must respond with ONLY a JSON object. No markdown, no preamble, no explanation.\n\nThe JSON must have this exact structure:\n{\n  \"text\": \"The encounter text the player reads. Paragraphs separated by \\\\n\\\\n.\",\n  \"choices\": [\n    {\n      \"label\": \"Short action label (what the player does)\",\n      \"tone_note\": \"Brief note on the emotional register of this choice\",\n      \"effects\": [\n        {\"type\": \"effect_type\", ...effect_fields}\n      ]\n    }\n  ]\n}\n\nLENGTH RULES:\n- Transit/ambient events: 1-2 short paragraphs. A moment, not a scene.\n- Docked/arrival events: 1-3 paragraphs. Set the atmosphere, don't overdo it.\n- Action/discovery events: 2-4 paragraphs. These earn more space.\n- NOT EVERY DETAIL NEEDS TO BE USED. Pick one or two elements from the context.\n- Silence and brevity are powerful. A three-sentence encounter can hit harder than six paragraphs.\n- Keep text under 400 words. Most events should be under 200.\n\nCHOICE RULES:\n- 2-3 choices. Each must feel meaningfully different.\n- At least one choice should be low-commitment (observe, move on, say nothing).\n- Choice labels should be short \u{2014} under 10 words.\n\nEFFECT RULES \u{2014} use ONLY these types:\n  {\"type\": \"narrative\", \"text\": \"...\"}  \u{2014} log note, no mechanical change\n  {\"type\": \"crew_stress\", \"delta\": 0.03}  \u{2014} positive adds stress, negative reduces\n  {\"type\": \"trust_professional\", \"delta\": 0.02}  \u{2014} crew trust shift\n  {\"type\": \"trust_personal\", \"delta\": 0.02}  \u{2014} crew trust shift\n  {\"type\": \"spawn_thread\", \"thread_type\": \"mystery|anomaly|relationship|grudge|debt\", \"description\": \"...\"}\n  {\"type\": \"fuel\", \"delta\": -5.0}  \u{2014} fuel change\n  {\"type\": \"supplies\", \"delta\": -3.0}  \u{2014} supplies change\n  {\"type\": \"hull\", \"delta\": -0.05}  \u{2014} hull condition change\n  {\"type\": \"resources\", \"delta\": 50.0}  \u{2014} credits change\n  {\"type\": \"time_cost\", \"hours\": 4.0}  \u{2014} personal time consumed\n  {\"type\": \"pass\"}  \u{2014} no mechanical effect\n- Do NOT invent new effect types.\n- Keep deltas small. Stress: \u{b1}0.01-0.05. Trust: \u{b1}0.01-0.04. Resources: \u{b1}10-100.\n- Most ambient events should use only \"narrative\" or \"pass\" effects.\n");
    let ghost before = msg@;
    match example_json {
        Some(j) => {
            msg.append("\n=== EXAMPLE EVENT ===\n");
            msg.append(j);
            msg.append("\n");
        },
        None => {
            assert(msg@ =~= before + Seq::<char>::empty());
        },
    }
    msg
}


/// What set the encounter off.
#[derive(Debug, Clone, PartialEq, Eq)]
pub enum PromptTrigger {
    Transit,
    Docked,
    Arrival,
    Linger,
    /// The player chose to do something, named by its tag.
    Action(String),
}

impl PromptTrigger {
    /// The player set this encounter off by acting.
    pub fn is_player_action(&self) -> (r: bool)
        ensures
            r == (*self is Action),
    {
        match self {
            PromptTrigger::Action(_) => true,
            _ => false,
        }
    }
}

/// A crew member as the prompt shows them; numbers come already written.
#[derive(Debug, Clone)]
pub struct CrewLine {
    pub name: String,
    pub role: String,
    /// Stress as a whole percentage.
    pub stress_percent: String,
    pub mood: String,
}

/// A person at the location as the prompt shows them.
#[derive(Debug, Clone)]
pub struct NpcLine {
    pub name: String,
    pub title: String,
    pub disposition: String,
    pub personality: String,
    /// The summary of the last interaction with them, if any.
    pub last_interaction: Option<String>,
}

/// A narrative thread as the prompt shows it.
#[derive(Debug, Clone)]
pub struct ThreadLine {
    pub thread_type: String,
    pub description: String,
    /// Open or partly resolved; closed threads are left out.
    pub still_open: bool,
}

/// Everything the encounter request tells the model, gathered from the
/// game state. Numbers come already written, with the precision the
/// request shows them at.
#[derive(Debug, Clone)]
pub struct EncounterContext {
    pub trigger: PromptTrigger,
    /// The trigger's label, as the game names it.
    pub trigger_label: String,
    /// Facts about this place that must not be contradicted.
    pub established_facts: Vec<String>,
    /// What happened in the last few encounters, most recent last.
    pub recent_scenes: Vec<String>,
    pub system_name: String,
    pub star: String,
    pub infrastructure: String,
    /// The system's time factor, to one decimal.
    pub time_factor: String,
    pub civ_name: Option<String>,
    pub faction_name: Option<String>,
    pub location_name: Option<String>,
    pub location_type: Option<String>,
    pub location_description: Option<String>,
    pub ship_name: String,
    /// Hull condition as a whole percentage.
    pub hull_percent: String,
    pub fuel: String,
    pub fuel_capacity: String,
    pub supplies: String,
    pub supply_capacity: String,
    pub credits: String,
    pub crew: Vec<CrewLine>,
    pub npcs: Vec<NpcLine>,
    pub threads: Vec<ThreadLine>,
    /// Personal time in months, to one decimal.
    pub personal_months: String,
    /// Galactic time in years, to one decimal.
    pub galactic_years: String,
}

/// What the trigger asks of the scene.
pub open spec fn trigger_words(t: PromptTrigger) -> Seq<char> {
    match t {
        PromptTrigger::Transit => "This is an ambient moment during sublight travel between locations. "@
            + "Keep it small \u{2014} a crew observation, environmental detail, or quiet moment. "@
            + "Low stakes. No major plot developments.\n"@,
        PromptTrigger::Docked => "The player just docked at a station or landed at a colony. "@
            + "An atmospheric moment \u{2014} station life, colony culture, sensory transition. "@
            + "Low stakes. Environmental texture.\n"@,
        PromptTrigger::Arrival => "The player has arrived at a location. "@
            + "This could be atmospheric or consequential. Match the tone to the context.\n"@,
        PromptTrigger::Linger => "The player is spending time at a location. "@
            + "Something they notice while lingering. Moderate stakes.\n"@,
        PromptTrigger::Action(tag) => "The player chose to "@ + tag@
            + ". This is a discovery event \u{2014} they acted, something should happen. "@
            + "Meaningful stakes. Consequences. Give them something to work with.\n"@,
    }
}

/// The trigger line and what it asks for.
pub open spec fn trigger_block(c: EncounterContext) -> Seq<char> {
    "TRIGGER: "@ + c.trigger_label@ + "\n"@ + trigger_words(c.trigger)
}

/// `prefix`, the text and a line end when there is text; nothing otherwise.
pub open spec fn optional_line(prefix: Seq<char>, o: Option<String>) -> Seq<char> {
    match o {
        Some(t) => prefix + t@ + "\n"@,
        None => Seq::empty(),
    }
}

/// The line that names the system.
pub open spec fn system_line(c: EncounterContext) -> Seq<char> {
    "\nSYSTEM: "@ + c.system_name@ + "\n"@
}

/// The system: its name, star, development and time factor, who holds
/// it and which faction dominates.
pub open spec fn system_block(c: EncounterContext) -> Seq<char> {
    system_line(c) + ("  Star: "@ + c.star@ + "\n"@ + "  Infrastructure: "@ + c.infrastructure@
        + "\n"@ + "  Time factor: "@ + c.time_factor@ + "x\n"@ + match c.civ_name {
        Some(civ) => "  Controlled by: "@ + civ@ + "\n"@,
        None => "  Unclaimed space\n"@,
    } + optional_line("  Dominant faction: "@, c.faction_name))
}

/// The location, when the player is at one: its name, kind and
/// description.
pub open spec fn location_block(c: EncounterContext) -> Seq<char> {
    match c.location_name {
        Some(name) => "\nLOCATION: "@ + name@ + match c.location_type {
            Some(t) => " ("@ + t@ + ")"@,
            None => Seq::empty(),
        } + "\n"@ + optional_line("  Description: "@, c.location_description),
        None => Seq::empty(),
    }
}

/// The ship's name and state.
pub open spec fn ship_block(c: EncounterContext) -> Seq<char> {
    "\nSHIP: "@ + c.ship_name@ + "\n  Hull: "@ + c.hull_percent@ + "%  Fuel: "@ + c.fuel@ + "/"@
        + c.fuel_capacity@ + "  Supplies: "@ + c.supplies@ + "/"@ + c.supply_capacity@
        + "  Credits: "@ + c.credits@ + "\n"@
}

/// One crew member's line.
pub open spec fn crew_line(m: CrewLine) -> Seq<char> {
    "  "@ + m.name@ + " \u{2014} "@ + m.role@ + " (stress: "@ + m.stress_percent@ + "%, mood: "@
        + m.mood@ + ")\n"@
}

/// The lines of a list of crew members.
pub open spec fn crew_lines(s: Seq<CrewLine>) -> Seq<char>
    decreases s.len(),
{
    if s.len() == 0 {
        Seq::empty()
    } else {
        crew_lines(s.drop_last()) + crew_line(s.last())
    }
}

/// The crew with their count, when there is a crew.
pub open spec fn crew_block(c: EncounterContext) -> Seq<char> {
    if c.crew@.len() == 0 {
        Seq::empty()
    } else {
        "\nCREW ("@ + decimal(c.crew@.len()) + "):\n"@ + crew_lines(c.crew@)
    }
}

/// One person's line, and their last interaction when there was one.
pub open spec fn npc_lines_of(n: NpcLine) -> Seq<char> {
    "  "@ + n.name@ + " \u{2014} "@ + n.title@ + " (disposition: "@ + n.disposition@
        + ", personality: "@ + n.personality@ + ")\n"@ + optional_line(
        "    Last interaction: "@,
        n.last_interaction,
    )
}

/// The lines of a list of people.
pub open spec fn npc_lines(s: Seq<NpcLine>) -> Seq<char>
    decreases s.len(),
{
    if s.len() == 0 {
        Seq::empty()
    } else {
        npc_lines(s.drop_last()) + npc_lines_of(s.last())
    }
}

/// The people here with their count, when anyone is here.
pub open spec fn npc_block(c: EncounterContext) -> Seq<char> {
    if c.npcs@.len() == 0 {
        Seq::empty()
    } else {
        "\nNPCs HERE ("@ + decimal(c.npcs@.len()) + "):\n"@ + npc_lines(c.npcs@)
    }
}

/// The threads still open, in their order.
pub open spec fn open_threads(s: Seq<ThreadLine>) -> Seq<ThreadLine>
    decreases s.len(),
{
    if s.len() == 0 {
        Seq::empty()
    } else if s.last().still_open {
        open_threads(s.drop_last()).push(s.last())
    } else {
        open_threads(s.drop_last())
    }
}

/// One thread's line.
pub open spec fn thread_line(t: ThreadLine) -> Seq<char> {
    "  ["@ + t.thread_type@ + "] "@ + t.description@ + "\n"@
}

/// The lines of a list of threads.
pub open spec fn thread_lines(s: Seq<ThreadLine>) -> Seq<char>
    decreases s.len(),
{
    if s.len() == 0 {
        Seq::empty()
    } else {
        thread_lines(s.drop_last()) + thread_line(s.last())
    }
}

/// At most the first five of a list.
pub open spec fn first_five(s: Seq<ThreadLine>) -> Seq<ThreadLine> {
    if s.len() <= 5 {
        s
    } else {
        s.take(5)
    }
}

/// The open threads with their count: the first five, and how many more
/// there are beyond them.
pub open spec fn thread_block(c: EncounterContext) -> Seq<char> {
    let open = open_threads(c.threads@);
    if open.len() == 0 {
        Seq::empty()
    } else {
        "\nACTIVE THREADS ("@ + decimal(open.len()) + "):\n"@ + thread_lines(first_five(open)) + if open.len()
            > 5 {
            "  ... and "@ + decimal((open.len() - 5) as nat) + " more\n"@
        } else {
            Seq::empty()
        }
    }
}

/// Personal and galactic time.
pub open spec fn time_line(c: EncounterContext) -> Seq<char> {
    "\nTIME: "@ + c.personal_months@ + " months personal / "@ + c.galactic_years@
        + " years galactic\n"@
}

/// The closing instruction.
pub open spec fn closing_words() -> Seq<char> {
    "\nRespond with ONLY the JSON object. No other text.\n"@
}

/// The whole encounter request, block by block.
pub open spec fn user_message_text(c: EncounterContext) -> Seq<char> {
    memory_text(c.established_facts@, c.recent_scenes@) + trigger_block(c) + system_block(c)
        + location_block(c) + ship_block(c) + crew_block(c) + npc_block(c) + thread_block(c)
        + time_line(c) + closing_words()
}

fn append_optional_line(msg: &mut String, prefix: &str, o: &Option<String>)
    ensures
        final(msg)@ == old(msg)@ + optional_line(prefix@, *o),
{
    match o {
        Some(t) => {
            msg.append(prefix);
            msg.append(t.as_str());
            msg.append("\n");
        },
        None => {
            assert(msg@ =~= old(msg)@ + Seq::<char>::empty());
        },
    }
}

fn append_trigger(msg: &mut String, c: &EncounterContext)
    ensures
        final(msg)@ == old(msg)@ + trigger_block(*c),
{
    msg.append("TRIGGER: ");
    msg.append(c.trigger_label.as_str());
    msg.append("\n");
    match &c.trigger {
        PromptTrigger::Transit => {
            msg.append("This is an ambient moment during sublight travel between locations. ");
            msg.append("Keep it small \u{2014} a crew observation, environmental detail, or quiet moment. ");
            msg.append("Low stakes. No major plot developments.\n");
        },
        PromptTrigger::Docked => {
            msg.append("The player just docked at a station or landed at a colony. ");
            msg.append("An atmospheric moment \u{2014} station life, colony culture, sensory transition. ");
            msg.append("Low stakes. Environmental texture.\n");
        },
        PromptTrigger::Arrival => {
            msg.append("The player has arrived at a location. ");
            msg.append("This could be atmospheric or consequential. Match the tone to the context.\n");
        },
        PromptTrigger::Linger => {
            msg.append("The player is spending time at a location. ");
            msg.append("Something they notice while lingering. Moderate stakes.\n");
        },
        PromptTrigger::Action(tag) => {
            msg.append("The player chose to ");
            msg.append(tag.as_str());
            msg.append(". This is a discovery event \u{2014} they acted, something should happen. ");
            msg.append("Meaningful stakes. Consequences. Give them something to work with.\n");
        },
    }
    assert(msg@ =~= old(msg)@ + trigger_block(*c));
}

fn append_system(msg: &mut String, c: &EncounterContext)
    ensures
        final(msg)@ == old(msg)@ + system_block(*c),
{
    msg.append("\nSYSTEM: ");
    msg.append(c.system_name.as_str());
    msg.append("\n");
    let ghost head = msg@;
    msg.append("  Star: ");
    msg.append(c.star.as_str());
    msg.append("\n");
    msg.append("  Infrastructure: ");
    msg.append(c.infrastructure.as_str());
    msg.append("\n");
    msg.append("  Time factor: ");
    msg.append(c.time_factor.as_str());
    msg.append("x\n");
    match &c.civ_name {
        Some(civ) => {
            msg.append("  Controlled by: ");
            msg.append(civ.as_str());
            msg.append("\n");
        },
        None => {
            msg.append("  Unclaimed space\n");
        },
    }
    append_optional_line(msg, "  Dominant faction: ", &c.faction_name);
    assert(head =~= old(msg)@ + system_line(*c));
    assert(msg@ =~= old(msg)@ + system_block(*c));
}

fn append_location(msg: &mut String, c: &EncounterContext)
    ensures
        final(msg)@ == old(msg)@ + location_block(*c),
{
    match &c.location_name {
        Some(name) => {
            msg.append("\nLOCATION: ");
            msg.append(name.as_str());
            match &c.location_type {
                Some(t) => {
                    msg.append(" (");
                    msg.append(t.as_str());
                    msg.append(")");
                },
                None => {},
            }
            msg.append("\n");
            append_optional_line(msg, "  Description: ", &c.location_description);
            assert(msg@ =~= old(msg)@ + location_block(*c));
        },
        None => {
            assert(msg@ =~= old(msg)@ + location_block(*c));
        },
    }
}

fn append_ship(msg: &mut String, c: &EncounterContext)
    ensures
        final(msg)@ == old(msg)@ + ship_block(*c),
{
    msg.append("\nSHIP: ");
    msg.append(c.ship_name.as_str());
    msg.append("\n  Hull: ");
    msg.append(c.hull_percent.as_str());
    msg.append("%  Fuel: ");
    msg.append(c.fuel.as_str());
    msg.append("/");
    msg.append(c.fuel_capacity.as_str());
    msg.append("  Supplies: ");
    msg.append(c.supplies.as_str());
    msg.append("/");
    msg.append(c.supply_capacity.as_str());
    msg.append("  Credits: ");
    msg.append(c.credits.as_str());
    msg.append("\n");
    assert(msg@ =~= old(msg)@ + ship_block(*c));
}

fn append_crew(msg: &mut String, c: &EncounterContext)
    ensures
        final(msg)@ == old(msg)@ + crew_block(*c),
{
    let n = c.crew.len();
    if n == 0 {
        assert(msg@ =~= old(msg)@ + crew_block(*c));
        return;
    }
    msg.append("\nCREW (");
    msg.append(decimal_string(n as u64).as_str());
    msg.append("):\n");
    let ghost start = msg@;
    let mut i: usize = 0;
    while i < n
        invariant
            i <= n == c.crew@.len(),
            msg@ == start + crew_lines(c.crew@.take(i as int)),
        decreases n - i,
    {
        assert(c.crew@.take(i as int + 1).drop_last() =~= c.crew@.take(i as int));
        let m = &c.crew[i];
        let ghost before = msg@;
        msg.append("  ");
        msg.append(m.name.as_str());
        msg.append(" \u{2014} ");
        msg.append(m.role.as_str());
        msg.append(" (stress: ");
        msg.append(m.stress_percent.as_str());
        msg.append("%, mood: ");
        msg.append(m.mood.as_str());
        msg.append(")\n");
        assert(msg@ =~= before + crew_line(c.crew@[i as int]));
        i = i + 1;
    }
    assert(c.crew@.take(n as int) =~= c.crew@);
    assert(msg@ =~= old(msg)@ + crew_block(*c));
}

fn append_npcs(msg: &mut String, c: &EncounterContext)
    ensures
        final(msg)@ == old(msg)@ + npc_block(*c),
{
    let n = c.npcs.len();
    if n == 0 {
        assert(msg@ =~= old(msg)@ + npc_block(*c));
        return;
    }
    msg.append("\nNPCs HERE (");
    msg.append(decimal_string(n as u64).as_str());
    msg.append("):\n");
    let ghost start = msg@;
    let mut i: usize = 0;
    while i < n
        invariant
            i <= n == c.npcs@.len(),
            msg@ == start + npc_lines(c.npcs@.take(i as int)),
        decreases n - i,
    {
        assert(c.npcs@.take(i as int + 1).drop_last() =~= c.npcs@.take(i as int));
        let p = &c.npcs[i];
        let ghost before = msg@;
        msg.append("  ");
        msg.append(p.name.as_str());
        msg.append(" \u{2014} ");
        msg.append(p.title.as_str());
        msg.append(" (disposition: ");
        msg.append(p.disposition.as_str());
        msg.append(", personality: ");
        msg.append(p.personality.as_str());
        msg.append(")\n");
        append_optional_line(msg, "    Last interaction: ", &p.last_interaction);
        assert(msg@ =~= before + npc_lines_of(c.npcs@[i as int]));
        i = i + 1;
    }
    assert(c.npcs@.take(n as int) =~= c.npcs@);
    assert(msg@ =~= old(msg)@ + npc_block(*c));
}

proof fn lemma_open_threads_len(s: Seq<ThreadLine>)
    ensures
        open_threads(s).len() <= s.len(),
    decreases s.len(),
{
    if s.len() > 0 {
        lemma_open_threads_len(s.drop_last());
    }
}

fn count_open(threads: &Vec<ThreadLine>) -> (r: usize)
    ensures
        r == open_threads(threads@).len(),
{
    let mut count: usize = 0;
    let mut i: usize = 0;
    while i < threads.len()
        invariant
            i <= threads@.len(),
            count == open_threads(threads@.take(i as int)).len(),
        decreases threads.len() - i,
    {
        assert(threads@.take(i as int + 1).drop_last() =~= threads@.take(i as int));
        proof {
            lemma_open_threads_len(threads@.take(i as int));
        }
        if threads[i].still_open {
            count = count + 1;
        }
        i = i + 1;
    }
    assert(threads@.take(i as int) =~= threads@);
    count
}

fn append_threads(msg: &mut String, c: &EncounterContext)
    ensures
        final(msg)@ == old(msg)@ + thread_block(*c),
{
    let total = count_open(&c.threads);
    if total == 0 {
        assert(msg@ =~= old(msg)@ + thread_block(*c));
        return;
    }
    msg.append("\nACTIVE THREADS (");
    msg.append(decimal_string(total as u64).as_str());
    msg.append("):\n");
    let ghost start = msg@;
    let mut shown: usize = 0;
    let mut i: usize = 0;
    while i < c.threads.len()
        invariant
            i <= c.threads@.len(),
            shown == first_five(open_threads(c.threads@.take(i as int))).len(),
            shown <= 5,
            shown < 5 ==> shown == open_threads(c.threads@.take(i as int)).len(),
            msg@ == start + thread_lines(first_five(open_threads(c.threads@.take(i as int)))),
        decreases c.threads.len() - i,
    {
        let ghost prev = open_threads(c.threads@.take(i as int));
        assert(c.threads@.take(i as int + 1).drop_last() =~= c.threads@.take(i as int));
        let t = &c.threads[i];
        if t.still_open {
            assert(open_threads(c.threads@.take(i as int + 1)) == prev.push(*t));
            if shown < 5 {
                let ghost before = msg@;
                msg.append("  [");
                msg.append(t.thread_type.as_str());
                msg.append("] ");
                msg.append(t.description.as_str());
                msg.append("\n");
                proof {
                    assert(first_five(prev) == prev);
                    assert(first_five(prev.push(*t)) == prev.push(*t));
                    assert(prev.push(*t).drop_last() =~= prev);
                    assert(msg@ =~= before + thread_line(*t));
                }
                shown = shown + 1;
            } else {
                assert(first_five(prev.push(*t)) =~= first_five(prev));
            }
        } else {
            assert(open_threads(c.threads@.take(i as int + 1)) == prev);
        }
        i = i + 1;
    }
    assert(c.threads@.take(i as int) =~= c.threads@);
    if total > 5 {
        msg.append("  ... and ");
        msg.append(decimal_string((total - 5) as u64).as_str());
        msg.append(" more\n");
    }
    assert(msg@ =~= old(msg)@ + thread_block(*c));
}

fn append_time(msg: &mut String, c: &EncounterContext)
    ensures
        final(msg)@ == old(msg)@ + time_line(*c),
{
    msg.append("\nTIME: ");
    msg.append(c.personal_months.as_str());
    msg.append(" months personal / ");
    msg.append(c.galactic_years.as_str());
    msg.append(" years galactic\n");
    assert(msg@ =~= old(msg)@ + time_line(*c));
}

proof fn lemma_prefix_of_sum(a: Seq<char>, b: Seq<char>)
    ensures
        has_prefix(a + b, a),
{
    assert((a + b).take(a.len() as int) =~= a);
}

proof fn lemma_suffix_of_sum(a: Seq<char>, b: Seq<char>)
    ensures
        has_suffix(a + b, b),
{
    assert((a + b).skip(a.len() as int) =~= b);
}

/// A prefix, and an occurrence, stay where they are when text is added.
proof fn lemma_extend(a: Seq<char>, b: Seq<char>, p: Seq<char>, q: Seq<char>, k: int)
    requires
        has_prefix(a, p),
        occurs_at(a, q, k),
    ensures
        has_prefix(a + b, p),
        occurs_at(a + b, q, k),
{
    assert((a + b).take(p.len() as int) =~= a.take(p.len() as int));
    assert((a + b).subrange(k, k + q.len()) =~= a.subrange(k, k + q.len()));
}

/// Build the encounter request: the opening with facts and recent
/// events, the trigger, the system, the location, the ship, the crew, the
/// people here, the open threads, the time, and the closing instruction.
pub fn build_user_message(ctx: &EncounterContext) -> (r: String)
    ensures
        r@ == user_message_text(*ctx),
        has_prefix(r@, "Generate an encounter event for the following context.\n\n"@),
        has_suffix(r@, closing_words()),
        contains_text(r@, "\nSYSTEM: "@ + ctx.system_name@ + "\n"@),
{
    let ghost opening = "Generate an encounter event for the following context.\n\n"@;
    let ghost line = system_line(*ctx);
    let mut msg = encounter_memory(&ctx.established_facts, &ctx.recent_scenes);
    proof {
        let f = facts_block(ctx.established_facts@);
        lemma_prefix_of_sum(opening, f);
        assert((opening + f + recent_block(ctx.recent_scenes@)).take(opening.len() as int)
            =~= (opening + f).take(opening.len() as int));
    }
    append_trigger(&mut msg, ctx);
    let ghost g1 = msg@;
    assert(g1.take(opening.len() as int) =~= opening);
    append_system(&mut msg, ctx);
    let ghost k = g1.len() as int;
    proof {
        lemma_prefix_of_sum(line, system_block(*ctx).skip(line.len() as int));
        assert(msg@.take(opening.len() as int) =~= opening);
        assert(msg@.subrange(k, k + line.len()) =~= line);
    }
    let ghost g2 = msg@;
    append_location(&mut msg, ctx);
    proof { lemma_extend(g2, location_block(*ctx), opening, line, k); }
    let ghost g3 = msg@;
    append_ship(&mut msg, ctx);
    proof { lemma_extend(g3, ship_block(*ctx), opening, line, k); }
    let ghost g4 = msg@;
    append_crew(&mut msg, ctx);
    proof { lemma_extend(g4, crew_block(*ctx), opening, line, k); }
    let ghost g5 = msg@;
    append_npcs(&mut msg, ctx);
    proof { lemma_extend(g5, npc_block(*ctx), opening, line, k); }
    let ghost g6 = msg@;
    append_threads(&mut msg, ctx);
    proof { lemma_extend(g6, thread_block(*ctx), opening, line, k); }
    let ghost g7 = msg@;
    append_time(&mut msg, ctx);
    proof { lemma_extend(g7, time_line(*ctx), opening, line, k); }
    let ghost g8 = msg@;
    msg.append("\nRespond with ONLY the JSON object. No other text.\n");
    proof {
        lemma_extend(g8, closing_words(), opening, line, k);
        lemma_suffix_of_sum(g8, closing_words());
        assert(msg@ == user_message_text(*ctx));
    }
    msg
}

} // verus!
