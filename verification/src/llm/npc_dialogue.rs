//! NPC dialogue through the language model: the character brief and user
//! messages, and the checks on generated lines.

use vstd::prelude::*;
use vstd::string::*;
use vstd::utf8::*;

use crate::text::{decimal, decimal_string, starts_with_char, trim, trimmed};

verus! {

/// Everything the model needs to voice an NPC.
#[derive(Debug, Clone)]
pub struct NpcContext {
    pub name: String,
    pub title: String,
    pub pronouns_subject: String,
    pub pronouns_object: String,
    pub pronouns_possessive: String,
    pub personality_desc: String,
    pub disposition_label: String,
    pub bio: String,
    pub location_name: String,
    pub system_name: String,
    pub faction_name: String,
    pub ship_name: String,
}

pub open spec fn brief_of(c: NpcContext) -> Seq<char> {
    "CHARACTER: "@ + c.name@ + " ("@ + c.title@ + "), "@ + c.faction_name@
        + "\nPERSONALITY: "@ + c.personality_desc@
        + "\nDISPOSITION TOWARD PLAYER: "@ + c.disposition_label@
        + "\nPRONOUNS: "@ + c.pronouns_subject@ + "/"@ + c.pronouns_object@ + "/"@
        + c.pronouns_possessive@
        + "\nBACKGROUND: "@ + c.bio@
        + "\nLOCATION: "@ + c.location_name@ + ", "@ + c.system_name@ + " system"@
        + "\nFACTION: "@ + c.faction_name@
        + "\nPLAYER'S SHIP: "@ + c.ship_name@
}

impl NpcContext {
    /// The character brief that opens every NPC prompt.
    pub fn character_brief(&self) -> (r: String)
        ensures
            r@ == brief_of(*self),
    {
        let mut r = "CHARACTER: ".to_owned();
        r.append(self.name.as_str());
        r.append(" (");
        r.append(self.title.as_str());
        r.append("), ");
        r.append(self.faction_name.as_str());
        r.append("\nPERSONALITY: ");
        r.append(self.personality_desc.as_str());
        r.append("\nDISPOSITION TOWARD PLAYER: ");
        r.append(self.disposition_label.as_str());
        r.append("\nPRONOUNS: ");
        r.append(self.pronouns_subject.as_str());
        r.append("/");
        r.append(self.pronouns_object.as_str());
        r.append("/");
        r.append(self.pronouns_possessive.as_str());
        r.append("\nBACKGROUND: ");
        r.append(self.bio.as_str());
        r.append("\nLOCATION: ");
        r.append(self.location_name.as_str());
        r.append(", ");
        r.append(self.system_name.as_str());
        r.append(" system");
        r.append("\nFACTION: ");
        r.append(self.faction_name.as_str());
        r.append("\nPLAYER'S SHIP: ");
        r.append(self.ship_name.as_str());
        r
    }
}

/// The user message asking for a greeting.
pub open spec fn greeting_message_of(c: NpcContext, memory: Option<Seq<char>>) -> Seq<char> {
    let with_memory = match memory {
        Some(m) => brief_of(c) + "\n\nPLAYER HISTORY: Last time the player was here, they "@ + m
            + ". The NPC remembers this."@,
        None => brief_of(c),
    };
    with_memory + "\n\nWrite the NPC's greeting."@
}

/// Build the user message asking the model for an NPC's greeting,
/// mentioning the player's last visit when there was one.
pub fn greeting_user_message(npc: &NpcContext, memory_summary: Option<&str>) -> (r: String)
    ensures
        r@ == greeting_message_of(*npc, match memory_summary {
            Some(m) => Some(m@),
            None => None,
        }),
{
    let mut msg = npc.character_brief();
    match memory_summary {
        Some(memory) => {
            msg.append("\n\nPLAYER HISTORY: Last time the player was here, they ");
            msg.append(memory);
            msg.append(". The NPC remembers this.");
        },
        None => {},
    }
    msg.append("\n\nWrite the NPC's greeting.");
    msg
}

/// The numbered list of items, one per line.
pub open spec fn numbered_items(items: Seq<String>) -> Seq<char>
    decreases items.len(),
{
    if items.len() == 0 {
        Seq::empty()
    } else {
        numbered_items(items.drop_last()) + decimal(items.len()) + ". "@ + items.last()@ + "\n"@
    }
}

/// The user message asking the model to deliver knowledge items.
pub open spec fn knowledge_message_of(c: NpcContext, items: Seq<String>) -> Seq<char> {
    brief_of(c) + "\n\nKNOWLEDGE TO SHARE:\n"@ + numbered_items(items)
        + "\nDeliver these as natural conversation."@
}

/// Build the user message asking the model to deliver knowledge items as
/// conversation.
pub fn knowledge_user_message(npc: &NpcContext, knowledge_items: &Vec<String>) -> (r: String)
    ensures
        r@ == knowledge_message_of(*npc, knowledge_items@),
{
    let mut msg = npc.character_brief();
    msg.append("\n\nKNOWLEDGE TO SHARE:\n");
    let ghost start = msg@;
    let mut i: usize = 0;
    while i < knowledge_items.len()
        invariant
            i <= knowledge_items.len(),
            msg@ == start + numbered_items(knowledge_items@.take(i as int)),
        decreases knowledge_items.len() - i,
    {
        assert(knowledge_items@.take(i as int + 1).drop_last() =~= knowledge_items@.take(i as int));
        let n = decimal_string((i + 1) as u64);
        msg.append(n.as_str());
        msg.append(". ");
        msg.append(knowledge_items[i].as_str());
        msg.append("\n");
        i = i + 1;
    }
    assert(knowledge_items@.take(i as int) =~= knowledge_items@);
    msg.append("\nDeliver these as natural conversation.");
    msg
}

/// A generated line is kept, trimmed, unless it runs over `max_bytes`
/// bytes or looks like JSON (starts with a brace).
pub open spec fn accepted_text(content: Seq<char>, max_bytes: usize) -> Option<Seq<char>> {
    let t = trimmed(content);
    if (encode_utf8(t).len() as usize) > max_bytes || (t.len() > 0 && t[0] == '{') {
        None
    } else {
        Some(t)
    }
}

/// Check a generated line: trimmed, within `max_bytes` bytes, and not
/// JSON. The greeting allows 600 bytes, knowledge 1200, a rumor 500.
pub fn accept_generated_text(content: &str, max_bytes: usize) -> (r: Option<String>)
    ensures
        match r {
            Some(t) => accepted_text(content@, max_bytes) == Some(t@),
            None => accepted_text(content@, max_bytes) is None,
        },
{
    let t = trim(content);
    if t.len() > max_bytes || starts_with_char(t, '{') {
        None
    } else {
        Some(t.to_owned())
    }
}

} // verus!
