//! NPC interaction: what an NPC says and what the player may do, gated
//! by how the NPC feels about the player.
//!
//! Dialogue comes from authored templates; the NPC's disposition tier
//! decides which templates apply and which menu options exist.

use vstd::prelude::*;
use vstd::string::*;

use rand::rngs::StdRng;

use crate::rng::draw_below;
use crate::text::{replace_all, replaced};

verus! {

/// How an NPC feels about the player, from worst to best.
#[derive(Debug, Clone, Copy, PartialEq, Eq, PartialOrd, Ord, Structural)]
pub enum DispositionTier {
    Hostile,
    Cold,
    Neutral,
    Warm,
    Friendly,
    Trusted,
}

/// The position of a tier (0 = hostile, 5 = trusted).
pub open spec fn tier_rank(t: DispositionTier) -> int {
    match t {
        DispositionTier::Hostile => 0,
        DispositionTier::Cold => 1,
        DispositionTier::Neutral => 2,
        DispositionTier::Warm => 3,
        DispositionTier::Friendly => 4,
        DispositionTier::Trusted => 5,
    }
}

pub open spec fn tier_label(t: DispositionTier) -> Seq<char> {
    match t {
        DispositionTier::Hostile => "hostile"@,
        DispositionTier::Cold => "cold"@,
        DispositionTier::Neutral => "neutral"@,
        DispositionTier::Warm => "warm"@,
        DispositionTier::Friendly => "friendly"@,
        DispositionTier::Trusted => "trusted"@,
    }
}

impl DispositionTier {
    /// The template key for this tier.
    pub fn label(self) -> (r: &'static str)
        ensures
            r@ == tier_label(self),
    {
        match self {
            DispositionTier::Hostile => "hostile",
            DispositionTier::Cold => "cold",
            DispositionTier::Neutral => "neutral",
            DispositionTier::Warm => "warm",
            DispositionTier::Friendly => "friendly",
            DispositionTier::Trusted => "trusted",
        }
    }

    /// The tier's position, 0 (hostile) to 5 (trusted).
    pub fn rank(self) -> (r: u8)
        ensures
            r == tier_rank(self),
    {
        match self {
            DispositionTier::Hostile => 0,
            DispositionTier::Cold => 1,
            DispositionTier::Neutral => 2,
            DispositionTier::Warm => 3,
            DispositionTier::Friendly => 4,
            DispositionTier::Trusted => 5,
        }
    }
}

/// How two NPCs know each other.
#[derive(Debug, Clone, Copy, PartialEq, Eq, Structural)]
pub enum NpcRelationType {
    Colleague,
    Acquaintance,
    Rival,
    Dependent,
    OldFriend,
    KnowsOf,
}

/// Pronouns used when filling dialogue templates.
#[derive(Debug, Clone)]
pub struct Pronouns {
    pub subject: String,
    pub object: String,
    pub possessive: String,
    pub subject_cap: String,
}

/// A link from one NPC to another.
#[derive(Debug, Clone)]
pub struct NpcConnection {
    pub npc_id: u128,
    pub relationship: NpcRelationType,
    pub context: String,
}

/// What the dialogue rules read of an NPC.
#[derive(Debug, Clone)]
pub struct Npc {
    pub id: u128,
    pub name: String,
    pub title: String,
    pub pronouns: Pronouns,
    pub home_system_id: u128,
    /// The faction the NPC works for, if any.
    pub faction_id: Option<u128>,
    pub connections: Vec<NpcConnection>,
}

/// A keyed set of template pools, as loaded from the dialogue data.
#[derive(Debug, Clone)]
pub struct TemplatePool {
    pub entries: Vec<(String, Vec<String>)>,
}

/// The dialogue templates, one keyed pool per kind of line.
#[derive(Debug, Clone)]
pub struct DialogueTemplates {
    pub greetings: TemplatePool,
    pub returning_player: TemplatePool,
    pub ask_area_framing: TemplatePool,
    pub knowledge_delivery: TemplatePool,
    pub ask_about_connection: TemplatePool,
    pub contract_refusal: TemplatePool,
    pub farewell: TemplatePool,
}

/// The templates stored under a key (the first entry with that key).
pub open spec fn lookup(entries: Seq<(String, Vec<String>)>, key: Seq<char>) -> Option<Seq<String>>
    decreases entries.len(),
{
    if entries.len() == 0 {
        None
    } else if entries[0].0@ == key {
        Some(entries[0].1@)
    } else {
        lookup(entries.drop_first(), key)
    }
}

/// The templates a pool offers for a key: none when the key is absent.
pub open spec fn offered(pool: TemplatePool, key: Seq<char>) -> Seq<String> {
    match lookup(pool.entries@, key) {
        Some(t) => t,
        None => Seq::empty(),
    }
}

/// `r` is a template of `pool` passed through `f`, or `fallback` when the
/// pool is empty.
pub open spec fn drawn_from(
    pool: Seq<String>,
    f: spec_fn(Seq<char>) -> Seq<char>,
    fallback: Seq<char>,
    r: Seq<char>,
) -> bool {
    if pool.len() == 0 {
        r == fallback
    } else {
        exists|i: int| 0 <= i < pool.len() && r == f(pool[i]@)
    }
}

impl TemplatePool {
    /// The templates stored under `key`, if the key is present.
    pub fn get(&self, key: &str) -> (r: Option<&Vec<String>>)
        ensures
            match r {
                Some(v) => lookup(self.entries@, key@) == Some(v@),
                None => lookup(self.entries@, key@) is None,
            },
    {
        let mut i: usize = 0;
        assert(self.entries@.skip(0) =~= self.entries@);
        while i < self.entries.len()
            invariant
                i <= self.entries.len(),
                lookup(self.entries@, key@) == lookup(self.entries@.skip(i as int), key@),
            decreases self.entries.len() - i,
        {
            let ghost rest = self.entries@.skip(i as int);
            assert(rest.drop_first() =~= self.entries@.skip(i as int + 1));
            if self.entries[i].0 == key.to_owned() {
                return Some(&self.entries[i].1);
            }
            i = i + 1;
        }
        None
    }
}

/// Pick a random template from a list; `None` when the list is empty.
pub fn pick_template(templates: &Vec<String>, rng: &mut StdRng) -> (r: Option<String>)
    ensures
        templates@.len() == 0 ==> r is None,
        templates@.len() > 0 ==> (r matches Some(t)
            && exists|i: int| 0 <= i < templates@.len() && t@ == templates@[i]@),
{
    if templates.len() == 0 {
        None
    } else {
        let k = draw_below(rng, 0, templates.len());
        Some(templates[k].clone())
    }
}

/// A template with the standard NPC placeholders filled in.
pub open spec fn filled(
    t: Seq<char>,
    npc: Npc,
    ship: Seq<char>,
    system: Seq<char>,
    faction: Seq<char>,
) -> Seq<char> {
    let a = replaced(t, "{name}"@, npc.name@);
    let b = replaced(a, "{title}"@, npc.title@);
    let c = replaced(b, "{pronoun.subject}"@, npc.pronouns.subject@);
    let d = replaced(c, "{pronoun.object}"@, npc.pronouns.object@);
    let e = replaced(d, "{pronoun.possessive}"@, npc.pronouns.possessive@);
    let f = replaced(e, "{pronoun.subject_cap}"@, npc.pronouns.subject_cap@);
    let g = replaced(f, "{ship_name}"@, ship);
    let h = replaced(g, "{system}"@, system);
    replaced(h, "{faction}"@, faction)
}

/// Fill the standard NPC placeholders in a dialogue template.
pub fn fill_npc_placeholders(
    template: &str,
    npc: &Npc,
    ship_name: &str,
    system_name: &str,
    faction_name: &str,
) -> (r: String)
    ensures
        r@ == filled(template@, *npc, ship_name@, system_name@, faction_name@),
{
    proof {
        reveal_strlit("{name}");
        reveal_strlit("{title}");
        reveal_strlit("{pronoun.subject}");
        reveal_strlit("{pronoun.object}");
        reveal_strlit("{pronoun.possessive}");
        reveal_strlit("{pronoun.subject_cap}");
        reveal_strlit("{ship_name}");
        reveal_strlit("{system}");
        reveal_strlit("{faction}");
    }
    let a = replace_all(template, "{name}", npc.name.as_str());
    let b = replace_all(a.as_str(), "{title}", npc.title.as_str());
    let c = replace_all(b.as_str(), "{pronoun.subject}", npc.pronouns.subject.as_str());
    let d = replace_all(c.as_str(), "{pronoun.object}", npc.pronouns.object.as_str());
    let e = replace_all(d.as_str(), "{pronoun.possessive}", npc.pronouns.possessive.as_str());
    let f = replace_all(e.as_str(), "{pronoun.subject_cap}", npc.pronouns.subject_cap.as_str());
    let g = replace_all(f.as_str(), "{ship_name}", ship_name);
    let h = replace_all(g.as_str(), "{system}", system_name);
    replace_all(h.as_str(), "{faction}", faction_name)
}

/// Draw a template from a pool and fill in the NPC placeholders.
fn pick_filled(
    pool: Option<&Vec<String>>,
    npc: &Npc,
    ship_name: &str,
    system_name: &str,
    faction_name: &str,
    rng: &mut StdRng,
) -> (r: Option<String>)
    ensures
        match pool {
            None => r is None,
            Some(p) => if p@.len() == 0 {
                r is None
            } else {
                r matches Some(x) && exists|i: int| 0 <= i < p@.len()
                    && x@ == filled(p@[i]@, *npc, ship_name@, system_name@, faction_name@)
            },
        },
{
    match pool {
        None => None,
        Some(p) => match pick_template(p, rng) {
            None => None,
            Some(t) => Some(fill_npc_placeholders(t.as_str(), npc, ship_name, system_name, faction_name)),
        },
    }
}

pub open spec fn greeting_fallback(npc: Npc) -> Seq<char> {
    npc.name@ + " acknowledges your presence."@
}

/// The greeting when the player approaches: a greeting template for the
/// NPC's disposition tier, or a plain acknowledgement when there is none.
pub fn greeting_text(
    npc: &Npc,
    tier: DispositionTier,
    ship_name: &str,
    system_name: &str,
    faction_name: &str,
    templates: &DialogueTemplates,
    rng: &mut StdRng,
) -> (r: String)
    ensures
        drawn_from(offered(templates.greetings, tier_label(tier)),
            |t: Seq<char>| filled(t, *npc, ship_name@, system_name@, faction_name@),
            greeting_fallback(*npc), r@),
{
    let pool = templates.greetings.get(tier.label());
    match pick_filled(pool, npc, ship_name, system_name, faction_name, rng) {
        Some(g) => g,
        None => {
            let mut g = npc.name.clone();
            g.append(" acknowledges your presence.");
            g
        },
    }
}

/// How the player's last visit went, as the NPC remembers it.
#[derive(Debug, Clone, Copy, PartialEq, Eq, Structural)]
pub enum MemoryTone {
    Positive,
    Negative,
    Neutral,
}

pub open spec fn memory_key(tone: MemoryTone) -> Seq<char> {
    match tone {
        MemoryTone::Positive => "positive"@,
        MemoryTone::Negative => "negative"@,
        MemoryTone::Neutral => "neutral_memory"@,
    }
}

pub open spec fn memory_fallback(summary: Seq<char>) -> Seq<char> {
    "\"I remember you. "@ + summary + ".\""@
}

/// The returning-player line: a template for the tone of the last visit
/// with the visit's summary filled in, or a plain remembrance.
pub fn memory_line(
    npc: &Npc,
    tone: MemoryTone,
    summary: &str,
    ship_name: &str,
    system_name: &str,
    faction_name: &str,
    templates: &DialogueTemplates,
    rng: &mut StdRng,
) -> (r: String)
    ensures
        drawn_from(offered(templates.returning_player, memory_key(tone)),
            |t: Seq<char>| replaced(filled(t, *npc, ship_name@, system_name@, faction_name@),
                "{summary}"@, summary@),
            memory_fallback(summary@), r@),
{
    let key = match tone {
        MemoryTone::Positive => "positive",
        MemoryTone::Negative => "negative",
        MemoryTone::Neutral => "neutral_memory",
    };
    let pool = templates.returning_player.get(key);
    match pick_filled(pool, npc, ship_name, system_name, faction_name, rng) {
        Some(t) => {
            proof { reveal_strlit("{summary}"); }
            replace_all(t.as_str(), "{summary}", summary)
        },
        None => {
            let mut r = "\"I remember you. ".to_owned();
            r.append(summary);
            r.append(".\"");
            r
        },
    }
}

pub open spec fn refusal_key(tier: DispositionTier) -> Seq<char> {
    if tier == DispositionTier::Hostile { "hostile"@ } else { "cold"@ }
}

/// The line an NPC who will not offer work says when asked.
pub fn contract_refusal_text(
    npc: &Npc,
    tier: DispositionTier,
    ship_name: &str,
    system_name: &str,
    faction_name: &str,
    templates: &DialogueTemplates,
    rng: &mut StdRng,
) -> (r: String)
    ensures
        drawn_from(offered(templates.contract_refusal, refusal_key(tier)),
            |t: Seq<char>| filled(t, *npc, ship_name@, system_name@, faction_name@),
            "\"No work for you.\""@, r@),
{
    let key = if tier == DispositionTier::Hostile { "hostile" } else { "cold" };
    let pool = templates.contract_refusal.get(key);
    match pick_filled(pool, npc, ship_name, system_name, faction_name, rng) {
        Some(t) => t,
        None => "\"No work for you.\"".to_owned(),
    }
}

pub open spec fn farewell_fallback(npc: Npc) -> Seq<char> {
    npc.name@ + " nods."@
}

/// The line an NPC says when the player leaves.
pub fn farewell_text(
    npc: &Npc,
    tier: DispositionTier,
    ship_name: &str,
    system_name: &str,
    faction_name: &str,
    templates: &DialogueTemplates,
    rng: &mut StdRng,
) -> (r: String)
    ensures
        drawn_from(offered(templates.farewell, tier_label(tier)),
            |t: Seq<char>| filled(t, *npc, ship_name@, system_name@, faction_name@),
            farewell_fallback(*npc), r@),
{
    let pool = templates.farewell.get(tier.label());
    match pick_filled(pool, npc, ship_name, system_name, faction_name, rng) {
        Some(t) => t,
        None => {
            let mut r = npc.name.clone();
            r.append(" nods.");
            r
        },
    }
}

/// What the player can do with an NPC.
#[derive(Debug, Clone, Copy, PartialEq, Eq, Structural)]
pub enum NpcAction {
    AskAboutWork,
    TurnInContract,
    AskAboutArea,
    AskAboutConnection(u128),
    Leave,
}

/// A single option in the NPC conversation menu.
#[derive(Debug, Clone)]
pub struct NpcMenuOption {
    pub label: String,
    pub action: NpcAction,
}

/// Everything the display needs for an NPC conversation screen.
#[derive(Debug)]
pub struct NpcPresentation {
    /// The greeting line when the player approaches.
    pub greeting: String,
    /// Optional returning-player memory line.
    pub memory_line: Option<String>,
    /// Personality-derived description.
    pub personality_sketch: String,
    /// Available conversation options, in display order.
    pub options: Vec<NpcMenuOption>,
}

/// The menu, as (label, action) pairs in display order. Hostile NPCs only
/// let the player leave; others offer work when they give contracts, a
/// turn-in when a contract is ready, area talk from cold upward, a single
/// contact entry (for the first connection) when they share connections,
/// and always a way to leave.
pub open spec fn menu_of(
    tier: DispositionTier,
    offers_contracts: bool,
    has_turnable_contract: bool,
    shares_connections: bool,
    connections: Seq<NpcConnection>,
) -> Seq<(Seq<char>, NpcAction)> {
    if tier == DispositionTier::Hostile {
        seq![("Leave"@, NpcAction::Leave)]
    } else {
        let a: Seq<(Seq<char>, NpcAction)> = if offers_contracts {
            seq![("Ask about work"@, NpcAction::AskAboutWork)]
        } else {
            seq![]
        };
        let b = if has_turnable_contract {
            a.push(("Turn in contract"@, NpcAction::TurnInContract))
        } else {
            a
        };
        let c = if tier_rank(tier) >= 1 {
            b.push(("Ask about the area"@, NpcAction::AskAboutArea))
        } else {
            b
        };
        let d = if shares_connections && connections.len() > 0 {
            c.push(("Ask about a contact"@, NpcAction::AskAboutConnection(connections[0].npc_id)))
        } else {
            c
        };
        d.push(("Leave"@, NpcAction::Leave))
    }
}

pub open spec fn option_views(options: Seq<NpcMenuOption>) -> Seq<(Seq<char>, NpcAction)> {
    options.map_values(|o: NpcMenuOption| (o.label@, o.action))
}

fn menu_option(label: &str, action: NpcAction) -> (r: NpcMenuOption)
    ensures
        r.label@ == label@,
        r.action == action,
{
    NpcMenuOption { label: label.to_owned(), action }
}

/// Build the NPC conversation menu. `offers_contracts` and
/// `shares_connections` are the NPC's willingness at its current
/// disposition.
pub fn build_menu_options(
    tier: DispositionTier,
    offers_contracts: bool,
    has_turnable_contract: bool,
    shares_connections: bool,
    connections: &Vec<NpcConnection>,
) -> (options: Vec<NpcMenuOption>)
    ensures
        option_views(options@) == menu_of(tier, offers_contracts, has_turnable_contract,
            shares_connections, connections@),
{
    let mut options: Vec<NpcMenuOption> = Vec::new();
    if tier == DispositionTier::Hostile {
        options.push(menu_option("Leave", NpcAction::Leave));
    } else {
        if offers_contracts {
            options.push(menu_option("Ask about work", NpcAction::AskAboutWork));
        }
        if has_turnable_contract {
            options.push(menu_option("Turn in contract", NpcAction::TurnInContract));
        }
        if tier.rank() >= 1 {
            options.push(menu_option("Ask about the area", NpcAction::AskAboutArea));
        }
        if shares_connections && connections.len() > 0 {
            options.push(menu_option("Ask about a contact",
                NpcAction::AskAboutConnection(connections[0].npc_id)));
        }
        options.push(menu_option("Leave", NpcAction::Leave));
    }
    assert(option_views(options@) =~= menu_of(tier, offers_contracts, has_turnable_contract,
        shares_connections, connections@));
    options
}

/// A hostile NPC offers nothing but leaving; any other NPC always offers
/// leaving as the last option, and offers area talk.
pub proof fn law_menu_always_allows_leaving(
    tier: DispositionTier,
    offers_contracts: bool,
    has_turnable_contract: bool,
    shares_connections: bool,
    connections: Seq<NpcConnection>,
)
    ensures
        ({
            let m = menu_of(tier, offers_contracts, has_turnable_contract, shares_connections,
                connections);
            &&& m.len() >= 1
            &&& m.last() == ("Leave"@, NpcAction::Leave)
            &&& tier == DispositionTier::Hostile ==> m.len() == 1
            &&& tier != DispositionTier::Hostile ==> exists|i: int| 0 <= i < m.len()
                && m[i].1 == NpcAction::AskAboutArea
        }),
{
    let m = menu_of(tier, offers_contracts, has_turnable_contract, shares_connections, connections);
    if tier != DispositionTier::Hostile {
        let a: Seq<(Seq<char>, NpcAction)> = if offers_contracts {
            seq![("Ask about work"@, NpcAction::AskAboutWork)]
        } else {
            seq![]
        };
        let b = if has_turnable_contract {
            a.push(("Turn in contract"@, NpcAction::TurnInContract))
        } else {
            a
        };
        let c = b.push(("Ask about the area"@, NpcAction::AskAboutArea));
        assert(c[b.len() as int].1 == NpcAction::AskAboutArea);
        assert(m[b.len() as int] == c[b.len() as int]);
    }
}

/// The menu offers this action somewhere.
pub open spec fn offers(m: Seq<(Seq<char>, NpcAction)>, a: NpcAction) -> bool {
    exists|i: int| 0 <= i < m.len() && m[i].1 == a
}

/// Which options a menu holds: a hostile NPC offers only leaving; any
/// other NPC offers work exactly when it gives contracts, a turn-in
/// exactly when a contract is ready to hand in (whether or not it gives
/// new work), always area talk and leaving, and a contact entry, for its
/// first connection, exactly when it shares connections and has one.
pub proof fn law_menu_contents(
    tier: DispositionTier,
    offers_contracts: bool,
    has_turnable_contract: bool,
    shares_connections: bool,
    connections: Seq<NpcConnection>,
)
    ensures
        ({
            let m = menu_of(tier, offers_contracts, has_turnable_contract, shares_connections,
                connections);
            &&& tier == DispositionTier::Hostile ==> m == seq![("Leave"@, NpcAction::Leave)]
            &&& tier != DispositionTier::Hostile ==> {
                &&& offers(m, NpcAction::AskAboutWork) == offers_contracts
                &&& offers(m, NpcAction::TurnInContract) == has_turnable_contract
                &&& offers(m, NpcAction::AskAboutArea)
                &&& offers(m, NpcAction::Leave)
                &&& (exists|id: u128| offers(m, NpcAction::AskAboutConnection(id))) == (
                shares_connections && connections.len() > 0)
                &&& shares_connections && connections.len() > 0 ==> offers(
                    m,
                    NpcAction::AskAboutConnection(connections[0].npc_id),
                )
                &&& forall|i: int| 0 <= i < m.len() ==> {
                    &&& (m[i].1 == NpcAction::AskAboutWork ==> m[i].0 == "Ask about work"@)
                    &&& (m[i].1 == NpcAction::TurnInContract ==> m[i].0 == "Turn in contract"@)
                    &&& (m[i].1 == NpcAction::AskAboutArea ==> m[i].0 == "Ask about the area"@)
                    &&& (m[i].1 is AskAboutConnection ==> m[i].0 == "Ask about a contact"@)
                    &&& (m[i].1 == NpcAction::Leave ==> m[i].0 == "Leave"@ && i == m.len() - 1)
                }
            }
        }),
{
    let m = menu_of(tier, offers_contracts, has_turnable_contract, shares_connections, connections);
    if tier != DispositionTier::Hostile {
        let a: Seq<(Seq<char>, NpcAction)> = if offers_contracts {
            seq![("Ask about work"@, NpcAction::AskAboutWork)]
        } else {
            seq![]
        };
        let b = if has_turnable_contract {
            a.push(("Turn in contract"@, NpcAction::TurnInContract))
        } else {
            a
        };
        let c = b.push(("Ask about the area"@, NpcAction::AskAboutArea));
        let d = if shares_connections && connections.len() > 0 {
            c.push(("Ask about a contact"@, NpcAction::AskAboutConnection(connections[0].npc_id)))
        } else {
            c
        };
        assert(m == d.push(("Leave"@, NpcAction::Leave)));
        // Where each action sits.
        assert forall|i: int| 0 <= i < m.len() implies {
            &&& (m[i].1 == NpcAction::AskAboutWork ==> offers_contracts)
            &&& (m[i].1 == NpcAction::TurnInContract ==> has_turnable_contract)
            &&& (m[i].1 is AskAboutConnection ==> shares_connections && connections.len() > 0)
            &&& (m[i].1 == NpcAction::AskAboutWork ==> m[i].0 == "Ask about work"@)
            &&& (m[i].1 == NpcAction::TurnInContract ==> m[i].0 == "Turn in contract"@)
            &&& (m[i].1 == NpcAction::AskAboutArea ==> m[i].0 == "Ask about the area"@)
            &&& (m[i].1 is AskAboutConnection ==> m[i].0 == "Ask about a contact"@)
            &&& (m[i].1 == NpcAction::Leave ==> m[i].0 == "Leave"@ && i == m.len() - 1)
        } by {
            if i < a.len() {
                assert(m[i] == a[i]);
            } else if i < b.len() {
                assert(m[i] == b[i]);
            } else if i < c.len() {
                assert(m[i] == c[i]);
            } else if i < d.len() {
                assert(m[i] == d[i]);
            }
        }
        if offers_contracts {
            assert(m[0].1 == NpcAction::AskAboutWork);
            assert(offers(m, NpcAction::AskAboutWork));
        }
        if offers(m, NpcAction::AskAboutWork) {
            let i = choose|i: int| 0 <= i < m.len() && m[i].1 == NpcAction::AskAboutWork;
            assert(offers_contracts);
        }
        if has_turnable_contract {
            assert(m[a.len() as int].1 == NpcAction::TurnInContract);
            assert(offers(m, NpcAction::TurnInContract));
        }
        if offers(m, NpcAction::TurnInContract) {
            let i = choose|i: int| 0 <= i < m.len() && m[i].1 == NpcAction::TurnInContract;
            assert(has_turnable_contract);
        }
        assert(m[b.len() as int].1 == NpcAction::AskAboutArea);
        assert(offers(m, NpcAction::AskAboutArea));
        assert(m[d.len() as int].1 == NpcAction::Leave);
        assert(offers(m, NpcAction::Leave));
        if shares_connections && connections.len() > 0 {
            assert(m[c.len() as int].1 == NpcAction::AskAboutConnection(connections[0].npc_id));
            assert(offers(m, NpcAction::AskAboutConnection(connections[0].npc_id)));
        }
        if exists|id: u128| offers(m, NpcAction::AskAboutConnection(id)) {
            let id = choose|id: u128| offers(m, NpcAction::AskAboutConnection(id));
            let i = choose|i: int| 0 <= i < m.len() && m[i].1 == NpcAction::AskAboutConnection(id);
            assert(m[i].1 is AskAboutConnection);
        }
    }
}

/// What tier of knowledge a shared item is.
#[derive(Debug, Clone, Copy, PartialEq, Eq, Structural)]
pub enum KnowledgeTier {
    General,
    FactionIntel,
    ThreadRumor,
}

/// One piece of knowledge the NPC shares.
#[derive(Debug)]
pub struct KnowledgeItem {
    /// The raw knowledge string.
    pub raw: String,
    /// The delivered version, template filled in.
    pub delivered: String,
    /// What tier of knowledge this is.
    pub tier: KnowledgeTier,
}

/// The result of asking about the area.
#[derive(Debug)]
pub struct AreaKnowledge {
    /// Opening framing line.
    pub framing: String,
    /// Knowledge items the NPC shares.
    pub items: Vec<KnowledgeItem>,
    /// Optional connection mention.
    pub connection_mention: Option<String>,
}

/// The tier of the `i`-th shared item: the first is general; the second
/// is faction intelligence from warm upward; later ones (and a second one
/// below warm) are thread rumors from friendly upward, else general.
pub open spec fn knowledge_tier_of(i: int, tier: DispositionTier) -> KnowledgeTier {
    if i == 0 {
        KnowledgeTier::General
    } else if i == 1 && tier_rank(tier) >= 3 {
        KnowledgeTier::FactionIntel
    } else if tier_rank(tier) >= 4 {
        KnowledgeTier::ThreadRumor
    } else {
        KnowledgeTier::General
    }
}

pub open spec fn knowledge_key(k: KnowledgeTier) -> Seq<char> {
    match k {
        KnowledgeTier::General => "general"@,
        KnowledgeTier::FactionIntel => "faction_intel"@,
        KnowledgeTier::ThreadRumor => "thread_rumor"@,
    }
}

/// An item delivered from a template: placeholders filled, then the item
/// itself put in.
pub open spec fn delivered_with(
    t: Seq<char>,
    item: Seq<char>,
    npc: Npc,
    ship: Seq<char>,
    system: Seq<char>,
    faction: Seq<char>,
) -> Seq<char> {
    replaced(filled(t, npc, ship, system, faction), "{knowledge_item}"@, item)
}

/// The delivery of one item, as a function of the template.
pub open spec fn delivery(
    item: Seq<char>,
    npc: Npc,
    ship: Seq<char>,
    system: Seq<char>,
    faction: Seq<char>,
) -> spec_fn(Seq<char>) -> Seq<char> {
    |t: Seq<char>| delivered_with(t, item, npc, ship, system, faction)
}

/// Item `i` of a delivery: the raw item, its tier, and its phrasing.
pub open spec fn delivered_item_ok(
    item: KnowledgeItem,
    i: int,
    raw: Seq<char>,
    tier: DispositionTier,
    npc: Npc,
    ship: Seq<char>,
    system: Seq<char>,
    faction: Seq<char>,
    templates: DialogueTemplates,
) -> bool {
    &&& item.raw@ == raw
    &&& item.tier == knowledge_tier_of(i, tier)
    &&& drawn_from(
        offered(templates.knowledge_delivery, knowledge_key(knowledge_tier_of(i, tier))),
        delivery(raw, npc, ship, system, faction),
        "\""@ + raw + "\""@,
        item.delivered@)
}

/// Deliver the knowledge an NPC is willing to share, in order: each item
/// gets its tier and is phrased with a delivery template of that tier (or
/// simply quoted when there is none).
pub fn deliver_knowledge(
    npc: &Npc,
    tier: DispositionTier,
    shareable: &Vec<String>,
    ship_name: &str,
    system_name: &str,
    faction_name: &str,
    templates: &DialogueTemplates,
    rng: &mut StdRng,
) -> (items: Vec<KnowledgeItem>)
    ensures
        items@.len() == shareable@.len(),
        forall|i: int| 0 <= i < items@.len() ==> delivered_item_ok(#[trigger] items@[i], i,
            shareable@[i]@, tier, *npc, ship_name@, system_name@, faction_name@, *templates),
{
    let mut items: Vec<KnowledgeItem> = Vec::new();
    let mut i: usize = 0;
    while i < shareable.len()
        invariant
            i <= shareable.len(),
            items@.len() == i,
            forall|j: int| 0 <= j < i ==> delivered_item_ok(#[trigger] items@[j], j,
                shareable@[j]@, tier, *npc, ship_name@, system_name@, faction_name@, *templates),
        decreases shareable.len() - i,
    {
        let rank = tier.rank();
        let (kind, key) = if i == 0 {
            (KnowledgeTier::General, "general")
        } else if i == 1 && rank >= 3 {
            (KnowledgeTier::FactionIntel, "faction_intel")
        } else if rank >= 4 {
            (KnowledgeTier::ThreadRumor, "thread_rumor")
        } else {
            (KnowledgeTier::General, "general")
        };
        assert(key@ == knowledge_key(knowledge_tier_of(i as int, tier)));
        let item = &shareable[i];
        let pool = templates.knowledge_delivery.get(key);
        let delivered = match pick_filled(pool, npc, ship_name, system_name, faction_name, rng) {
            Some(t) => {
                proof { reveal_strlit("{knowledge_item}"); }
                replace_all(t.as_str(), "{knowledge_item}", item.as_str())
            },
            None => {
                let mut d = "\"".to_owned();
                d.append(item.as_str());
                d.append("\"");
                d
            },
        };
        let new_item = KnowledgeItem { raw: item.clone(), delivered, tier: kind };
        assert(delivered_item_ok(new_item, i as int, shareable@[i as int]@, tier, *npc,
            ship_name@, system_name@, faction_name@, *templates));
        items.push(new_item);
        i = i + 1;
    }
    items
}

/// The opening line when the player asks about the area: a framing
/// template under `framing_key` (chosen by the NPC's temperament), filled
/// in, or nothing when there is none.
pub fn area_framing(
    npc: &Npc,
    framing_key: &str,
    ship_name: &str,
    system_name: &str,
    faction_name: &str,
    templates: &DialogueTemplates,
    rng: &mut StdRng,
) -> (r: String)
    ensures
        drawn_from(
            offered(templates.ask_area_framing, framing_key@),
            |t: Seq<char>| filled(t, *npc, ship_name@, system_name@, faction_name@),
            Seq::empty(),
            r@,
        ),
{
    let pool = templates.ask_area_framing.get(framing_key);
    match pick_filled(pool, npc, ship_name, system_name, faction_name, rng) {
        Some(f) => f,
        None => String::new(),
    }
}

/// A connection-mention template filled in for the contact and the NPC
/// who mentions them.
pub open spec fn mention_filled(
    t: Seq<char>,
    npc: Npc,
    contact: Npc,
    contact_display: Seq<char>,
    system: Seq<char>,
) -> Seq<char> {
    let a = replaced(t, "{connection_name}"@, contact_display);
    let b = replaced(a, "{connection_title}"@, contact.title@);
    let c = replaced(b, "{connection_location}"@, system);
    let d = replaced(c, "{connection_object}"@, contact.pronouns.object@);
    let e = replaced(d, "{name}"@, npc.name@);
    let f = replaced(e, "{pronoun.subject}"@, npc.pronouns.subject@);
    let g = replaced(f, "{pronoun.subject_cap}"@, npc.pronouns.subject_cap@);
    replaced(g, "{pronoun.possessive}"@, npc.pronouns.possessive@)
}

/// The plain mention used when no template fits.
pub open spec fn mention_fallback(contact: Npc) -> Seq<char> {
    "\"Talk to the "@ + contact.title@ + " \u{2014} "@ + contact.pronouns.subject@
        + " might know more.\""@
}

fn fill_mention(template: &str, npc: &Npc, contact: &Npc, contact_display: &str, system_name: &str) -> (r:
    String)
    ensures
        r@ == mention_filled(template@, *npc, *contact, contact_display@, system_name@),
{
    proof {
        reveal_strlit("{connection_name}");
        reveal_strlit("{connection_title}");
        reveal_strlit("{connection_location}");
        reveal_strlit("{connection_object}");
        reveal_strlit("{name}");
        reveal_strlit("{pronoun.subject}");
        reveal_strlit("{pronoun.subject_cap}");
        reveal_strlit("{pronoun.possessive}");
    }
    let a = replace_all(template, "{connection_name}", contact_display);
    let b = replace_all(a.as_str(), "{connection_title}", contact.title.as_str());
    let c = replace_all(b.as_str(), "{connection_location}", system_name);
    let d = replace_all(c.as_str(), "{connection_object}", contact.pronouns.object.as_str());
    let e = replace_all(d.as_str(), "{name}", npc.name.as_str());
    let f = replace_all(e.as_str(), "{pronoun.subject}", npc.pronouns.subject.as_str());
    let g = replace_all(f.as_str(), "{pronoun.subject_cap}", npc.pronouns.subject_cap.as_str());
    replace_all(g.as_str(), "{pronoun.possessive}", npc.pronouns.possessive.as_str())
}

/// The line in which an NPC points the player to one of their contacts.
/// `contact_display` is how the player knows the contact (their name, or
/// their title when not met yet).
pub fn connection_mention(
    npc: &Npc,
    contact: &Npc,
    contact_display: &str,
    system_name: &str,
    templates: &DialogueTemplates,
    rng: &mut StdRng,
) -> (r: String)
    ensures
        drawn_from(
            offered(templates.knowledge_delivery, "connection_mention"@),
            |t: Seq<char>| mention_filled(t, *npc, *contact, contact_display@, system_name@),
            mention_fallback(*contact),
            r@,
        ),
{
    let chosen = match templates.knowledge_delivery.get("connection_mention") {
        Some(p) => pick_template(p, rng),
        None => None,
    };
    match chosen {
        Some(t) => fill_mention(t.as_str(), npc, contact, contact_display, system_name),
        None => {
            let mut r = "\"Talk to the ".to_owned();
            r.append(contact.title.as_str());
            r.append(" \u{2014} ");
            r.append(contact.pronouns.subject.as_str());
            r.append(" might know more.\"");
            r
        },
    }
}

/// The result of asking about a connected NPC.
#[derive(Debug)]
pub struct ConnectionInfo {
    /// The connected NPC's name.
    pub name: String,
    /// Their title.
    pub title: String,
    /// Where they are.
    pub location: String,
    /// What the asking NPC says about them.
    pub description: String,
}

pub open spec fn relation_key(r: NpcRelationType) -> Seq<char> {
    match r {
        NpcRelationType::Colleague => "colleague"@,
        NpcRelationType::Acquaintance => "acquaintance"@,
        NpcRelationType::Rival => "rival"@,
        NpcRelationType::Dependent => "dependent"@,
        NpcRelationType::OldFriend => "old_friend"@,
        NpcRelationType::KnowsOf => "knows_of"@,
    }
}

/// A connection description from a template.
pub open spec fn connection_description(
    t: Seq<char>,
    npc: Npc,
    connection: NpcConnection,
    other: Npc,
) -> Seq<char> {
    let a = replaced(t, "{connection_name}"@, other.name@);
    let b = replaced(a, "{connection_object}"@, other.pronouns.object@);
    let c = replaced(b, "{context}"@, connection.context@);
    let d = replaced(c, "{name}"@, npc.name@);
    let e = replaced(d, "{pronoun.subject}"@, npc.pronouns.subject@);
    let f = replaced(e, "{pronoun.subject_cap}"@, npc.pronouns.subject_cap@);
    replaced(f, "{pronoun.possessive}"@, npc.pronouns.possessive@)
}

pub open spec fn connection_location(npc: Npc, other: Npc, system: Seq<char>, other_system: Seq<char>) -> Seq<char> {
    if other.home_system_id == npc.home_system_id {
        "here at "@ + system
    } else {
        other_system + " system"@
    }
}

/// What an NPC says about one of their connections, and where that person
/// can be found.
pub fn ask_about_connection(
    npc: &Npc,
    connection: &NpcConnection,
    connected_npc: &Npc,
    system_name: &str,
    connected_system_name: &str,
    templates: &DialogueTemplates,
    rng: &mut StdRng,
) -> (info: ConnectionInfo)
    ensures
        info.name@ == connected_npc.name@,
        info.title@ == connected_npc.title@,
        info.location@ == connection_location(*npc, *connected_npc, system_name@, connected_system_name@),
        drawn_from(offered(templates.ask_about_connection, relation_key(connection.relationship)),
            |t: Seq<char>| connection_description(t, *npc, *connection, *connected_npc),
            "\""@ + connected_npc.name@ + " \u{2014} "@ + connection.context@
                + ". That's all I'll say.\""@,
            info.description@),
{
    let key = match connection.relationship {
        NpcRelationType::Colleague => "colleague",
        NpcRelationType::Acquaintance => "acquaintance",
        NpcRelationType::Rival => "rival",
        NpcRelationType::Dependent => "dependent",
        NpcRelationType::OldFriend => "old_friend",
        NpcRelationType::KnowsOf => "knows_of",
    };
    let pool = templates.ask_about_connection.get(key);
    let empty: Vec<String> = Vec::new();
    let choices = match pool {
        Some(p) => p,
        None => &empty,
    };
    let description = match pick_template(choices, rng) {
        Some(t) => {
            proof {
                reveal_strlit("{connection_name}");
                reveal_strlit("{connection_object}");
                reveal_strlit("{context}");
                reveal_strlit("{name}");
                reveal_strlit("{pronoun.subject}");
                reveal_strlit("{pronoun.subject_cap}");
                reveal_strlit("{pronoun.possessive}");
            }
            let a = replace_all(t.as_str(), "{connection_name}", connected_npc.name.as_str());
            let b = replace_all(a.as_str(), "{connection_object}", connected_npc.pronouns.object.as_str());
            let c = replace_all(b.as_str(), "{context}", connection.context.as_str());
            let d = replace_all(c.as_str(), "{name}", npc.name.as_str());
            let e = replace_all(d.as_str(), "{pronoun.subject}", npc.pronouns.subject.as_str());
            let f = replace_all(e.as_str(), "{pronoun.subject_cap}", npc.pronouns.subject_cap.as_str());
            replace_all(f.as_str(), "{pronoun.possessive}", npc.pronouns.possessive.as_str())
        },
        None => {
            let mut d = "\"".to_owned();
            d.append(connected_npc.name.as_str());
            d.append(" \u{2014} ");
            d.append(connection.context.as_str());
            d.append(". That's all I'll say.\"");
            d
        },
    };
    let location = if connected_npc.home_system_id == npc.home_system_id {
        let mut l = "here at ".to_owned();
        l.append(system_name);
        l
    } else {
        let mut l = connected_system_name.to_owned();
        l.append(" system");
        l
    };
    ConnectionInfo {
        name: connected_npc.name.clone(),
        title: connected_npc.title.clone(),
        location,
        description,
    }
}

} // verus!
