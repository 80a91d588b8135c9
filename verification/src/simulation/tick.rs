//! What a galactic tick does to the galaxy once a faction has chosen its
//! action: claiming and developing systems, and the words its events and
//! history entries use.

use rand::rngs::StdRng;
use vstd::prelude::*;

use crate::rng::draw_below;
use crate::simulation::faction_ai::{next_infrastructure_level, next_level};
use crate::simulation::galaxy::{infra_rank, Faction, InfrastructureLevel, StarSystem};

verus! {

/// What kind of change a tick event reports.
#[derive(Debug, Clone, Copy, PartialEq, Eq, Structural)]
pub enum TickEventCategory {
    Expansion,
    Infrastructure,
    Diplomacy,
    Military,
    Internal,
    /// A faction's presence appeared at or left a system.
    Faction,
}

/// The name of the first faction with this id, or "Unknown Faction".
pub open spec fn faction_name_of(factions: Seq<Faction>, id: u128) -> Seq<char>
    decreases factions.len(),
{
    if factions.len() == 0 {
        "Unknown Faction"@
    } else if factions[0].id == id {
        factions[0].name@
    } else {
        faction_name_of(factions.drop_first(), id)
    }
}

/// The name a tick event uses for a faction.
pub fn get_faction_name(id: u128, factions: &Vec<Faction>) -> (r: String)
    ensures
        r@ == faction_name_of(factions@, id),
{
    let mut i: usize = 0;
    assert(factions@.skip(0) =~= factions@);
    while i < factions.len()
        invariant
            i <= factions.len(),
            faction_name_of(factions@, id) == faction_name_of(factions@.skip(i as int), id),
        decreases factions.len() - i,
    {
        assert(factions@.skip(i as int).drop_first() =~= factions@.skip(i as int + 1));
        if factions[i].id == id {
            return factions[i].name.clone();
        }
        i = i + 1;
    }
    "Unknown Faction".to_owned()
}

/// How events speak of an infrastructure level.
pub open spec fn infra_words(level: InfrastructureLevel) -> Seq<char> {
    match level {
        InfrastructureLevel::Uninhabited => "uninhabited"@,
        InfrastructureLevel::Outpost => "outpost"@,
        InfrastructureLevel::Colony => "colony"@,
        InfrastructureLevel::Established => "established settlement"@,
        InfrastructureLevel::Hub => "trade hub"@,
        InfrastructureLevel::Capital => "capital"@,
    }
}

/// The words for an infrastructure level.
pub fn infra_label(level: InfrastructureLevel) -> (r: &'static str)
    ensures
        r@ == infra_words(level),
{
    match level {
        InfrastructureLevel::Uninhabited => "uninhabited",
        InfrastructureLevel::Outpost => "outpost",
        InfrastructureLevel::Colony => "colony",
        InfrastructureLevel::Established => "established settlement",
        InfrastructureLevel::Hub => "trade hub",
        InfrastructureLevel::Capital => "capital",
    }
}

/// The internal troubles a faction may develop during a tick.
pub open spec fn unrest_pool() -> Seq<Seq<char>> {
    seq![
        "Trade unions demanding better terms"@,
        "Outer colony resource disputes"@,
        "Currency instability in border systems"@,
        "Reform movement gaining popular support"@,
        "Opposition faction calling for elections"@,
        "Provincial governors asserting autonomy"@,
        "Veterans demanding recognition and resources"@,
        "Border patrol reporting increased pirate activity"@,
        "Military leaders questioning civilian oversight"@,
        "Religious revival clashing with secular governance"@,
        "Immigrant populations facing discrimination"@,
        "Historical revisionism sparking public debate"@,
        "AI rights movement gaining traction"@,
        "Technology gap between core and frontier worlds"@,
        "Research ethics scandal involving classified programs"@,
    ]
}

/// Draw a new internal trouble.
pub fn generate_pressure(rng: &mut StdRng) -> (r: String)
    ensures
        unrest_pool().contains(r@),
{
    let k = draw_below(rng, 0, 15);
    let t = match k {
        0 => "Trade unions demanding better terms",
        1 => "Outer colony resource disputes",
        2 => "Currency instability in border systems",
        3 => "Reform movement gaining popular support",
        4 => "Opposition faction calling for elections",
        5 => "Provincial governors asserting autonomy",
        6 => "Veterans demanding recognition and resources",
        7 => "Border patrol reporting increased pirate activity",
        8 => "Military leaders questioning civilian oversight",
        9 => "Religious revival clashing with secular governance",
        10 => "Immigrant populations facing discrimination",
        11 => "Historical revisionism sparking public debate",
        12 => "AI rights movement gaining traction",
        13 => "Technology gap between core and frontier worlds",
        _ => "Research ethics scandal involving classified programs",
    };
    assert(t@ == unrest_pool()[k as int]);
    t.to_owned()
}

/// `k` is the first system listed with this id.
pub open spec fn first_system(systems: Seq<StarSystem>, id: u128, k: int) -> bool {
    &&& 0 <= k < systems.len()
    &&& systems[k].id == id
    &&& forall|j: int| 0 <= j < k ==> systems[j].id != id
}

/// The position of the first system with this id.
fn system_position(systems: &Vec<StarSystem>, id: u128) -> (r: Option<usize>)
    ensures
        match r {
            Some(k) => first_system(systems@, id, k as int),
            None => forall|j: int| 0 <= j < systems@.len() ==> systems@[j].id != id,
        },
{
    let mut i: usize = 0;
    while i < systems.len()
        invariant
            i <= systems.len(),
            forall|j: int| 0 <= j < i ==> systems@[j].id != id,
        decreases systems.len() - i,
    {
        if systems[i].id == id {
            return Some(i);
        }
        i = i + 1;
    }
    None
}

/// The infrastructure a newly claimed system has: at least an outpost.
pub open spec fn claimed_level(level: InfrastructureLevel) -> InfrastructureLevel {
    if level == InfrastructureLevel::Uninhabited {
        InfrastructureLevel::Outpost
    } else {
        level
    }
}

/// `after` is `before` claimed by the faction.
pub open spec fn claimed(before: StarSystem, after: StarSystem, faction_id: u128) -> bool {
    &&& after.id == before.id
    &&& after.name@ == before.name@
    &&& after.controlling_civ == Some(faction_id)
    &&& after.infrastructure_level == claimed_level(before.infrastructure_level)
    &&& after.locations@ == before.locations@
}

/// Claiming a system hands it to the faction and never lowers its
/// development: an uninhabited system becomes an outpost and any other
/// keeps its level; its id, name and locations stay the same.
pub proof fn law_claim_keeps_development(before: StarSystem, after: StarSystem, faction_id: u128)
    requires
        claimed(before, after, faction_id),
    ensures
        after.controlling_civ == Some(faction_id),
        infra_rank(after.infrastructure_level) >= infra_rank(before.infrastructure_level),
        before.infrastructure_level == InfrastructureLevel::Uninhabited ==> after.infrastructure_level
            == InfrastructureLevel::Outpost,
        before.infrastructure_level != InfrastructureLevel::Uninhabited ==> after.infrastructure_level
            == before.infrastructure_level,
        after.id == before.id,
        after.name@ == before.name@,
        after.locations@ == before.locations@,
{
}

/// How many systems no one controls.
pub open spec fn unclaimed_count(systems: Seq<StarSystem>) -> nat
    decreases systems.len(),
{
    if systems.len() == 0 {
        0
    } else {
        unclaimed_count(systems.drop_last()) + if systems.last().controlling_civ is None {
            1nat
        } else {
            0nat
        }
    }
}

proof fn lemma_unclaimed_update(s: Seq<StarSystem>, k: int, x: StarSystem)
    requires
        0 <= k < s.len(),
    ensures
        unclaimed_count(s.update(k, x)) + (if s[k].controlling_civ is None { 1int } else { 0int })
            == unclaimed_count(s) + (if x.controlling_civ is None { 1int } else { 0int }),
    decreases s.len(),
{
    let t = s.update(k, x);
    if k < s.len() - 1 {
        assert(t.drop_last() =~= s.drop_last().update(k, x));
        lemma_unclaimed_update(s.drop_last(), k, x);
    } else {
        assert(t.drop_last() =~= s.drop_last());
    }
}

/// Claiming a system leaves one system fewer that no one controls; a
/// refused claim changes nothing.
pub proof fn law_claim_reduces_unclaimed(before: Seq<StarSystem>, after: Seq<StarSystem>, k: int, faction_id: u128)
    requires
        0 <= k < before.len(),
        before[k].controlling_civ is None,
        after.len() == before.len(),
        claimed(before[k], after[k], faction_id),
        forall|j: int| 0 <= j < before.len() && j != k ==> after[j] == before[j],
    ensures
        unclaimed_count(after) + 1 == unclaimed_count(before),
{
    assert(after =~= before.update(k, after[k]));
    lemma_unclaimed_update(before, k, after[k]);
}

/// A faction claims a system: the first system with the target id, when it
/// is not controlled yet, comes under the faction's control and becomes at
/// least an outpost. Returns the claimed system's name; `None` (and no
/// change) when the system is unknown or already controlled.
pub fn claim_system(systems: &mut Vec<StarSystem>, faction_id: u128, target_system: u128) -> (r:
    Option<String>)
    ensures
        final(systems)@.len() == old(systems)@.len(),
        r is Some ==> unclaimed_count(final(systems)@) + 1 == unclaimed_count(old(systems)@),
        match r {
            None => {
                &&& final(systems)@ == old(systems)@
                &&& forall|k: int| #[trigger] first_system(old(systems)@, target_system, k)
                    ==> old(systems)@[k].controlling_civ is Some
            },
            Some(name) => exists|k: int| {
                &&& #[trigger] first_system(old(systems)@, target_system, k)
                &&& old(systems)@[k].controlling_civ is None
                &&& name@ == old(systems)@[k].name@
                &&& claimed(old(systems)@[k], final(systems)@[k], faction_id)
                &&& forall|j: int| 0 <= j < old(systems)@.len() && j != k ==> final(systems)@[j]
                    == old(systems)@[j]
            },
        },
{
    match system_position(systems, target_system) {
        None => None,
        Some(k) => {
            if systems[k].controlling_civ.is_some() {
                return None;
            }
            let level = if systems[k].infrastructure_level == InfrastructureLevel::Uninhabited {
                InfrastructureLevel::Outpost
            } else {
                systems[k].infrastructure_level
            };
            let name = systems[k].name.clone();
            systems[k].controlling_civ = Some(faction_id);
            systems[k].infrastructure_level = level;
            assert(first_system(old(systems)@, target_system, k as int));
            proof {
                law_claim_reduces_unclaimed(old(systems)@, systems@, k as int, faction_id);
            }
            Some(name)
        },
    }
}

/// A system's infrastructure after consolidation: one step up, but hubs
/// and capitals stay as they are.
pub fn upgrade_system(systems: &mut Vec<StarSystem>, target_system: u128) -> (r: Option<
    (String, InfrastructureLevel),
>)
    ensures
        final(systems)@.len() == old(systems)@.len(),
        match r {
            None => {
                &&& final(systems)@ == old(systems)@
                &&& forall|k: int| #[trigger] first_system(old(systems)@, target_system, k)
                    ==> next_level(old(systems)@[k].infrastructure_level)
                    == old(systems)@[k].infrastructure_level
            },
            Some((name, level)) => exists|k: int| {
                &&& #[trigger] first_system(old(systems)@, target_system, k)
                &&& level == next_level(old(systems)@[k].infrastructure_level)
                &&& level != old(systems)@[k].infrastructure_level
                &&& name@ == old(systems)@[k].name@
                &&& final(systems)@[k].id == old(systems)@[k].id
                &&& final(systems)@[k].name@ == old(systems)@[k].name@
                &&& final(systems)@[k].controlling_civ == old(systems)@[k].controlling_civ
                &&& final(systems)@[k].infrastructure_level == level
                &&& final(systems)@[k].locations@ == old(systems)@[k].locations@
                &&& forall|j: int| 0 <= j < old(systems)@.len() && j != k ==> final(systems)@[j]
                    == old(systems)@[j]
            },
        },
{
    match system_position(systems, target_system) {
        None => None,
        Some(k) => {
            let old_level = systems[k].infrastructure_level;
            let level = next_infrastructure_level(old_level);
            if level == old_level {
                return None;
            }
            systems[k].infrastructure_level = level;
            assert(first_system(old(systems)@, target_system, k as int));
            Some((systems[k].name.clone(), level))
        },
    }
}

/// `a`, then `b`, then `c`, then `d`, then `e`.
fn five(a: &str, b: &str, c: &str, d: &str, e: &str) -> (r: String)
    ensures
        r@ == a@ + b@ + c@ + d@ + e@,
{
    let mut r = a.to_owned();
    r.append(b);
    r.append(c);
    r.append(d);
    r.append(e);
    r
}

/// Event text: a faction claimed a system.
pub fn claim_text(faction: &str, system: &str) -> (r: String)
    ensures
        r@ == faction@ + " claimed "@ + system@ + "."@,
{
    proof {
        reveal_strlit("");
    }
    let r = five(faction, " claimed ", system, ".", "");
    assert(r@ =~= faction@ + " claimed "@ + system@ + "."@);
    r
}

/// History text: a faction took control of the system.
pub fn control_text(faction: &str) -> (r: String)
    ensures
        r@ == faction@ + " established control."@,
{
    let mut r = faction.to_owned();
    r.append(" established control.");
    r
}

/// History text: the system's infrastructure grew.
pub fn upgrade_history_text(level: InfrastructureLevel) -> (r: String)
    ensures
        r@ == "Infrastructure upgraded to "@ + infra_words(level) + "."@,
{
    let mut r = "Infrastructure upgraded to ".to_owned();
    r.append(infra_label(level));
    r.append(".");
    r
}

/// Event text: a faction developed a system.
pub fn upgrade_text(faction: &str, system: &str, level: InfrastructureLevel) -> (r: String)
    ensures
        r@ == faction@ + " upgraded "@ + system@ + " to "@ + infra_words(level) + "."@,
{
    let mut r = five(faction, " upgraded ", system, " to ", infra_label(level));
    r.append(".");
    r
}

/// Event text: two factions grew closer.
pub fn diplomacy_text(a: &str, b: &str) -> (r: String)
    ensures
        r@ == "Relations between "@ + a@ + " and "@ + b@
            + " improved through diplomatic channels."@,
{
    five("Relations between ", a, " and ", b, " improved through diplomatic channels.")
}

/// Event text: tension between two factions.
pub fn tension_text(a: &str, b: &str) -> (r: String)
    ensures
        r@ == "Tensions rose between "@ + a@ + " and "@ + b@ + "."@,
{
    five("Tensions rose between ", a, " and ", b, ".")
}

/// Event text: a faction armed itself.
pub fn militarize_text(faction: &str) -> (r: String)
    ensures
        r@ == faction@ + " expanded its military capabilities."@,
{
    let mut r = faction.to_owned();
    r.append(" expanded its military capabilities.");
    r
}

/// Event text: a faction resolved one of its internal pressures.
pub fn pressure_resolved_text(faction: &str, pressure: &str) -> (r: String)
    ensures
        r@ == faction@ + " addressed internal pressures: "@ + pressure@,
{
    let mut r = faction.to_owned();
    r.append(" addressed internal pressures: ");
    r.append(pressure);
    r
}

/// Event text: a faction turned inward.
pub fn consolidation_text(faction: &str) -> (r: String)
    ensures
        r@ == faction@ + " focused on internal consolidation."@,
{
    let mut r = faction.to_owned();
    r.append(" focused on internal consolidation.");
    r
}

/// Event text: new unrest inside a faction.
pub fn unrest_text(faction: &str, pressure: &str) -> (r: String)
    ensures
        r@ == "Unrest within "@ + faction@ + ": "@ + pressure@,
{
    proof {
        reveal_strlit("");
    }
    let r = five("Unrest within ", faction, ": ", pressure, "");
    assert(r@ =~= "Unrest within "@ + faction@ + ": "@ + pressure@);
    r
}

} // verus!
