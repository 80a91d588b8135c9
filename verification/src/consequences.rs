//! The consequence system's deterministic parts: the vocabulary that
//! authored effects use (moods, thread types, ship modules), and the
//! effects on the hold, crew concerns and the event log.

use vstd::prelude::*;
use vstd::string::*;

use crate::cargo::{hold_names, held, set_quantity, CargoHold};
use crate::text::{
    decimal, decimal_string, join, joined, same_text, trim, trimmed, views,
};

verus! {

/// Which ship module an effect targets.
#[derive(Debug, Clone, Copy, PartialEq, Eq, Structural)]
pub enum ModuleTarget {
    Engine,
    Sensors,
    Comms,
    Weapons,
    LifeSupport,
}

/// A crew member's emotional state.
#[derive(Debug, Clone, Copy, PartialEq, Eq, Structural)]
pub enum Mood {
    Content,
    Anxious,
    Determined,
    Hopeful,
    Angry,
    Inspired,
    Grieving,
    Withdrawn,
    Restless,
}

/// The kind of a narrative thread.
#[derive(Debug, Clone, Copy, PartialEq, Eq, Structural)]
pub enum ThreadType {
    Relationship,
    Mystery,
    Debt,
    Grudge,
    Promise,
    Secret,
    Anomaly,
}

/// Summary of effects applied, suitable for the event log and display.
#[derive(Debug, Clone)]
pub struct ConsequenceReport {
    /// Human-readable lines describing what changed.
    pub changes: Vec<String>,
    /// The narrative log entry for this encounter outcome.
    pub log_entry: String,
    /// How many threads were spawned.
    pub threads_spawned: usize,
}

/// The module an authored name refers to; unknown names mean the engine.
pub open spec fn module_target_of(s: Seq<char>) -> ModuleTarget {
    if s == "engine"@ {
        ModuleTarget::Engine
    } else if s == "sensors"@ {
        ModuleTarget::Sensors
    } else if s == "comms"@ {
        ModuleTarget::Comms
    } else if s == "weapons"@ {
        ModuleTarget::Weapons
    } else if s == "life_support"@ {
        ModuleTarget::LifeSupport
    } else {
        ModuleTarget::Engine
    }
}

/// Read a module name from authored effect data.
pub fn parse_module_target(s: &str) -> (r: ModuleTarget)
    ensures
        r == module_target_of(s@),
{
    if same_text(s, "engine") {
        ModuleTarget::Engine
    } else if same_text(s, "sensors") {
        ModuleTarget::Sensors
    } else if same_text(s, "comms") {
        ModuleTarget::Comms
    } else if same_text(s, "weapons") {
        ModuleTarget::Weapons
    } else if same_text(s, "life_support") {
        ModuleTarget::LifeSupport
    } else {
        ModuleTarget::Engine
    }
}

/// The mood an authored name refers to; unknown names mean content.
pub open spec fn mood_of(s: Seq<char>) -> Mood {
    if s == "content"@ {
        Mood::Content
    } else if s == "anxious"@ {
        Mood::Anxious
    } else if s == "determined"@ {
        Mood::Determined
    } else if s == "hopeful"@ {
        Mood::Hopeful
    } else if s == "frustrated"@ || s == "angry"@ {
        Mood::Angry
    } else if s == "inspired"@ {
        Mood::Inspired
    } else if s == "grieving"@ {
        Mood::Grieving
    } else if s == "suspicious"@ || s == "withdrawn"@ {
        Mood::Withdrawn
    } else if s == "restless"@ {
        Mood::Restless
    } else {
        Mood::Content
    }
}

/// Read a mood from authored effect data.
pub fn parse_mood(s: &str) -> (r: Mood)
    ensures
        r == mood_of(s@),
{
    if same_text(s, "content") {
        Mood::Content
    } else if same_text(s, "anxious") {
        Mood::Anxious
    } else if same_text(s, "determined") {
        Mood::Determined
    } else if same_text(s, "hopeful") {
        Mood::Hopeful
    } else if same_text(s, "frustrated") || same_text(s, "angry") {
        Mood::Angry
    } else if same_text(s, "inspired") {
        Mood::Inspired
    } else if same_text(s, "grieving") {
        Mood::Grieving
    } else if same_text(s, "suspicious") || same_text(s, "withdrawn") {
        Mood::Withdrawn
    } else if same_text(s, "restless") {
        Mood::Restless
    } else {
        Mood::Content
    }
}

/// The thread type an authored name refers to; unknown names mean mystery.
pub open spec fn thread_type_of(s: Seq<char>) -> ThreadType {
    if s == "relationship"@ || s == "bond"@ {
        ThreadType::Relationship
    } else if s == "mystery"@ {
        ThreadType::Mystery
    } else if s == "debt"@ {
        ThreadType::Debt
    } else if s == "grudge"@ {
        ThreadType::Grudge
    } else if s == "promise"@ {
        ThreadType::Promise
    } else if s == "secret"@ {
        ThreadType::Secret
    } else if s == "anomaly"@ || s == "clue"@ {
        ThreadType::Anomaly
    } else {
        ThreadType::Mystery
    }
}

/// Read a thread type from authored effect data.
pub fn parse_thread_type(s: &str) -> (r: ThreadType)
    ensures
        r == thread_type_of(s@),
{
    if same_text(s, "relationship") || same_text(s, "bond") {
        ThreadType::Relationship
    } else if same_text(s, "mystery") {
        ThreadType::Mystery
    } else if same_text(s, "debt") {
        ThreadType::Debt
    } else if same_text(s, "grudge") {
        ThreadType::Grudge
    } else if same_text(s, "promise") {
        ThreadType::Promise
    } else if same_text(s, "secret") {
        ThreadType::Secret
    } else if same_text(s, "anomaly") || same_text(s, "clue") {
        ThreadType::Anomaly
    } else {
        ThreadType::Mystery
    }
}

pub open spec fn module_name_of(t: ModuleTarget) -> Seq<char> {
    match t {
        ModuleTarget::Engine => "Engine"@,
        ModuleTarget::Sensors => "Sensors"@,
        ModuleTarget::Comms => "Comms"@,
        ModuleTarget::Weapons => "Weapons"@,
        ModuleTarget::LifeSupport => "Life support"@,
    }
}

/// Display name of a ship module.
pub fn module_name(target: ModuleTarget) -> (r: &'static str)
    ensures
        r@ == module_name_of(target),
{
    match target {
        ModuleTarget::Engine => "Engine",
        ModuleTarget::Sensors => "Sensors",
        ModuleTarget::Comms => "Comms",
        ModuleTarget::Weapons => "Weapons",
        ModuleTarget::LifeSupport => "Life support",
    }
}

/// A description cut to its first fifty characters; when the text is
/// longer than fifty bytes the cut is trimmed and marked with "...".
pub open spec fn short_desc_of(s: Seq<char>, byte_len: nat) -> Seq<char> {
    let cut = if s.len() <= 50 { s } else { s.take(50) };
    if byte_len > 50 {
        trimmed(cut) + "..."@
    } else {
        cut
    }
}

/// Shorten a thread description for a change line.
pub fn short_desc(s: &str) -> (r: String)
    ensures
        r@ == short_desc_of(s@, s.len() as nat),
{
    let n = s.unicode_len();
    let cut = if n <= 50 { s.substring_char(0, n) } else { s.substring_char(0, 50) };
    proof {
        if n <= 50 {
            assert(s@.subrange(0, n as int) =~= s@);
        }
    }
    if s.len() > 50 {
        let mut r = trim(cut).to_owned();
        r.append("...");
        r
    } else {
        cut.to_owned()
    }
}

/// The most concerns a crew member carries at once.
pub const MAX_CONCERNS: usize = 3;

/// Concerns after a new one is added: the oldest drops out when there
/// would be more than three.
pub open spec fn concerns_after_adding(concerns: Seq<Seq<char>>, c: Seq<char>) -> Seq<Seq<char>> {
    let added = concerns.push(c);
    if added.len() > 3 {
        added.drop_first()
    } else {
        added
    }
}

/// Give a crew member a new concern, forgetting the oldest one when they
/// would carry more than three.
pub fn add_concern(concerns: &mut Vec<String>, concern: String)
    ensures
        views(final(concerns)@) == concerns_after_adding(views(old(concerns)@), concern@),
{
    concerns.push(concern);
    if concerns.len() > MAX_CONCERNS {
        concerns.remove(0);
    }
    assert(views(concerns@) =~= concerns_after_adding(views(old(concerns)@), concern@));
}

/// A crew member never carries more than three concerns, and the concern
/// just added is always among them, as the newest.
pub proof fn law_concerns_stay_bounded(concerns: Seq<Seq<char>>, c: Seq<char>)
    requires
        concerns.len() <= 3,
    ensures
        concerns_after_adding(concerns, c).len() <= 3,
        concerns_after_adding(concerns, c).last() == c,
{
}

/// Load goods into the hold; returns the change line for the report.
pub fn add_cargo(hold: &mut CargoHold, item: &String, quantity: u32) -> (line: String)
    requires
        old(hold).wf(),
        held(old(hold)@, item@) + quantity <= u32::MAX,
    ensures
        final(hold)@ == set_quantity(old(hold)@, item@, (held(old(hold)@, item@) + quantity) as u32),
        final(hold).wf(),
        final(hold).capacity == old(hold).capacity,
        line@ == "Cargo +"@ + decimal(quantity as nat) + " "@ + item@,
{
    let have = hold.get(item);
    hold.set(item, have + quantity);
    let mut line = "Cargo +".to_owned();
    let q = decimal_string(quantity as u64);
    line.append(q.as_str());
    line.append(" ");
    line.append(item.as_str());
    line
}

/// Throw all cargo overboard. When there was any, returns the change line
/// naming every good that went out.
pub fn jettison_cargo(hold: &mut CargoHold) -> (line: Option<String>)
    requires
        old(hold).wf(),
    ensures
        final(hold)@ == Seq::<(Seq<char>, u32)>::empty(),
        final(hold).wf(),
        final(hold).capacity == old(hold).capacity,
        old(hold)@.len() == 0 ==> line is None,
        old(hold)@.len() > 0 ==> (line matches Some(l) && l@ == "Jettisoned cargo: "@
            + joined(hold_names(old(hold)@), ", "@)),
{
    if hold.items.len() == 0 {
        return None;
    }
    let mut names: Vec<String> = Vec::new();
    let mut i: usize = 0;
    while i < hold.items.len()
        invariant
            i <= hold.items.len(),
            hold@ == old(hold)@,
            names@.len() == i,
            views(names@) == hold_names(old(hold)@).take(i as int),
        decreases hold.items.len() - i,
    {
        let nm = hold.items[i].name.clone();
        assert(nm@ == hold@[i as int].0);
        let ghost prev = names@;
        names.push(nm);
        assert(names@ == prev.push(nm));
        assert forall|j: int| 0 <= j < i + 1 implies #[trigger] views(names@)[j]
            == hold_names(old(hold)@).take(i as int + 1)[j] by {
            if j < i {
                assert(views(prev)[j] == hold_names(old(hold)@).take(i as int)[j]);
            }
        }
        assert(views(names@) =~= hold_names(old(hold)@).take(i as int + 1));
        i = i + 1;
    }
    assert(hold_names(old(hold)@).take(i as int)
        =~= hold_names(old(hold)@));
    hold.items = Vec::new();
    assert(hold@ =~= Seq::<(Seq<char>, u32)>::empty());
    let mut line = "Jettisoned cargo: ".to_owned();
    let list = join(&names, ", ");
    line.append(list.as_str());
    Some(line)
}

/// The log entry for an encounter outcome: narrative notes when there are
/// any, else the description with the change lines in brackets, else the
/// bare description.
pub open spec fn log_entry_of(
    notes: Seq<Seq<char>>,
    changes: Seq<Seq<char>>,
    description: Seq<char>,
) -> Seq<char> {
    if notes.len() > 0 {
        joined(notes, " "@)
    } else if changes.len() > 0 {
        description + " ["@ + joined(changes, "; "@) + "]"@
    } else {
        description
    }
}

/// Compose the log entry for an encounter outcome.
pub fn compose_log_entry(
    notes: &Vec<String>,
    changes: &Vec<String>,
    event_description: &str,
) -> (r: String)
    ensures
        r@ == log_entry_of(views(notes@), views(changes@), event_description@),
{
    if notes.len() > 0 {
        join(notes, " ")
    } else if changes.len() > 0 {
        let mut r = event_description.to_owned();
        r.append(" [");
        let list = join(changes, "; ");
        r.append(list.as_str());
        r.append("]");
        r
    } else {
        event_description.to_owned()
    }
}

} // verus!
