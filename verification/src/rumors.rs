//! Rumor assembly rules that do not weigh scores: which of the ranked
//! candidates are kept, how entity ids read as names, and how thread
//! rumors are worded.

use vstd::prelude::*;

use crate::contracts::ContractState;
use crate::simulation::galaxy::{Civilization, Faction, FactionCategory, StarType};
use crate::text::{decimal, decimal_string};

verus! {

/// What a rumor is about.
#[derive(Debug, Clone, Copy, PartialEq, Eq, Structural)]
pub enum RumorCategory {
    TradeTip,
    ContractLead,
    FactionIntel,
    ThreadSeed,
    LocalColor,
}

/// A ranked rumor candidate, as far as selection reads it.
#[derive(Debug, Clone, Copy, PartialEq, Eq, Structural)]
pub struct Candidate {
    pub id: u128,
    pub category: RumorCategory,
}

/// Some selected candidate has this category.
pub open spec fn category_used(cands: Seq<Candidate>, sel: Seq<usize>, c: RumorCategory) -> bool {
    exists|j: int| 0 <= j < sel.len() && cands[sel[j] as int].category == c
}

/// Some selected candidate has this id.
pub open spec fn id_used(cands: Seq<Candidate>, sel: Seq<usize>, id: u128) -> bool {
    exists|j: int| 0 <= j < sel.len() && cands[sel[j] as int].id == id
}

/// First pass over the first `n` candidates: take each candidate whose
/// category is not taken yet, until `target` are taken.
pub open spec fn variety_pass(cands: Seq<Candidate>, target: nat, n: nat) -> Seq<usize>
    decreases n,
{
    if n == 0 {
        Seq::empty()
    } else {
        let prev = variety_pass(cands, target, (n - 1) as nat);
        if prev.len() < target && !category_used(cands, prev, cands[n - 1].category) {
            prev.push((n - 1) as usize)
        } else {
            prev
        }
    }
}

/// Second pass over the first `n` candidates, starting from `first`: take
/// each candidate whose id is not taken yet, until `target` are taken.
pub open spec fn fill_pass(cands: Seq<Candidate>, target: nat, first: Seq<usize>, n: nat) -> Seq<
    usize,
>
    decreases n,
{
    if n == 0 {
        first
    } else {
        let prev = fill_pass(cands, target, first, (n - 1) as nat);
        if prev.len() < target && !id_used(cands, prev, cands[n - 1].id) {
            prev.push((n - 1) as usize)
        } else {
            prev
        }
    }
}

/// The positions kept from a ranked candidate list.
pub open spec fn kept(cands: Seq<Candidate>, target: nat) -> Seq<usize> {
    fill_pass(cands, target, variety_pass(cands, target, cands.len()), cands.len())
}

fn category_taken(cands: &Vec<Candidate>, sel: &Vec<usize>, c: RumorCategory) -> (r: bool)
    requires
        forall|j: int| 0 <= j < sel@.len() ==> sel@[j] < cands@.len(),
    ensures
        r == category_used(cands@, sel@, c),
{
    let mut i: usize = 0;
    while i < sel.len()
        invariant
            i <= sel@.len(),
            forall|j: int| 0 <= j < sel@.len() ==> sel@[j] < cands@.len(),
            forall|j: int| 0 <= j < i ==> cands@[sel@[j] as int].category != c,
        decreases sel.len() - i,
    {
        if cands[sel[i]].category == c {
            return true;
        }
        i = i + 1;
    }
    false
}

fn id_taken(cands: &Vec<Candidate>, sel: &Vec<usize>, id: u128) -> (r: bool)
    requires
        forall|j: int| 0 <= j < sel@.len() ==> sel@[j] < cands@.len(),
    ensures
        r == id_used(cands@, sel@, id),
{
    let mut i: usize = 0;
    while i < sel.len()
        invariant
            i <= sel@.len(),
            forall|j: int| 0 <= j < sel@.len() ==> sel@[j] < cands@.len(),
            forall|j: int| 0 <= j < i ==> cands@[sel@[j] as int].id != id,
        decreases sel.len() - i,
    {
        if cands[sel[i]].id == id {
            return true;
        }
        i = i + 1;
    }
    false
}

/// Choose which ranked candidates (best first) become rumors: first one
/// per category, best first, then, if slots remain, the best of the rest
/// not already chosen, up to `target_count`. Returns their positions in
/// the order chosen.
pub fn select_with_variety(cands: &Vec<Candidate>, target_count: usize) -> (r: Vec<usize>)
    ensures
        r@ == kept(cands@, target_count as nat),
{
    let mut selected: Vec<usize> = Vec::new();
    let mut i: usize = 0;
    while i < cands.len()
        invariant
            i <= cands@.len(),
            selected@ == variety_pass(cands@, target_count as nat, i as nat),
            forall|j: int| 0 <= j < selected@.len() ==> selected@[j] < i,
        decreases cands.len() - i,
    {
        if selected.len() < target_count && !category_taken(&cands, &selected, cands[i].category) {
            selected.push(i);
        }
        i = i + 1;
    }
    let ghost first = selected@;
    let mut k: usize = 0;
    while k < cands.len()
        invariant
            k <= cands@.len(),
            first == variety_pass(cands@, target_count as nat, cands@.len()),
            selected@ == fill_pass(cands@, target_count as nat, first, k as nat),
            forall|j: int| 0 <= j < selected@.len() ==> selected@[j] < cands@.len(),
        decreases cands.len() - k,
    {
        if selected.len() < target_count && !id_taken(&cands, &selected, cands[k].id) {
            selected.push(k);
        }
        k = k + 1;
    }
    selected
}

/// Facts about the first pass over the first `n` candidates.
proof fn lemma_variety_pass(cands: Seq<Candidate>, target: nat, n: nat)
    requires
        n <= cands.len() <= usize::MAX,
    ensures
        variety_pass(cands, target, n).len() <= target,
        forall|j: int| 0 <= j < variety_pass(cands, target, n).len() ==> (
        #[trigger] variety_pass(cands, target, n)[j]) < n,
        forall|a: int, b: int| 0 <= a < b < variety_pass(cands, target, n).len() ==> (
        #[trigger] variety_pass(cands, target, n)[a]) < (#[trigger] variety_pass(cands, target, n)[b]),
        variety_pass(cands, target, n).len() < target ==> forall|p: int| 0 <= p < n
            ==> category_used(cands, variety_pass(cands, target, n), #[trigger] cands[p].category),
    decreases n,
{
    if n > 0 {
        let m = (n - 1) as nat;
        lemma_variety_pass(cands, target, m);
        let prev = variety_pass(cands, target, m);
        let cur = variety_pass(cands, target, n);
        assert forall|c: RumorCategory| category_used(cands, prev, c) implies category_used(
            cands,
            cur,
            c,
        ) by {
            let j = choose|j: int| 0 <= j < prev.len() && cands[prev[j] as int].category == c;
            assert(cur[j] == prev[j]);
        }
        if cur.len() < target {
            assert forall|p: int| 0 <= p < n implies category_used(
                cands,
                cur,
                #[trigger] cands[p].category,
            ) by {
                if p < m {
                    assert(category_used(cands, prev, cands[p].category));
                } else if cur != prev {
                    assert(cur[prev.len() as int] == m);
                } else {
                    assert(category_used(cands, prev, cands[p].category));
                }
            }
        }
    }
}

/// Facts about the second pass, for a first pass that stays in bounds.
proof fn lemma_fill_pass(cands: Seq<Candidate>, target: nat, first: Seq<usize>, n: nat)
    requires
        n <= cands.len() <= usize::MAX,
        first.len() <= target,
        first.no_duplicates(),
        forall|j: int| 0 <= j < first.len() ==> first[j] < cands.len(),
    ensures
        fill_pass(cands, target, first, n).len() <= target,
        fill_pass(cands, target, first, n).no_duplicates(),
        forall|j: int| 0 <= j < fill_pass(cands, target, first, n).len() ==> (
        #[trigger] fill_pass(cands, target, first, n)[j]) < cands.len(),
        forall|j: int| 0 <= j < first.len() ==> fill_pass(cands, target, first, n)[j] == first[j],
        first.len() <= fill_pass(cands, target, first, n).len(),
        (forall|a: int, b: int| 0 <= a < cands.len() && 0 <= b < cands.len() && a != b ==> cands[a].id
            != cands[b].id) && fill_pass(cands, target, first, n).len() < target ==> forall|p: usize|
            p < n ==> #[trigger] fill_pass(cands, target, first, n).contains(p),
    decreases n,
{
    if n > 0 {
        let m = (n - 1) as nat;
        lemma_fill_pass(cands, target, first, m);
        let prev = fill_pass(cands, target, first, m);
        let cur = fill_pass(cands, target, first, n);
        if cur != prev {
            assert(!prev.contains(m as usize)) by {
                if prev.contains(m as usize) {
                    let j = choose|j: int| 0 <= j < prev.len() && prev[j] == m as usize;
                    assert(cands[prev[j] as int].id == cands[m as int].id);
                }
            }
            assert(cur.no_duplicates()) by {
                assert forall|a: int, b: int| 0 <= a < cur.len() && 0 <= b < cur.len() && a != b
                    implies cur[a] != cur[b] by {
                    if a < prev.len() && b < prev.len() {
                        assert(prev[a] == cur[a] && prev[b] == cur[b]);
                    } else if a < prev.len() {
                        assert(prev[a] == cur[a]);
                    } else {
                        assert(prev[b] == cur[b]);
                    }
                }
            }
        }
        assert forall|q: usize| prev.contains(q) implies cur.contains(q) by {
            let j = choose|j: int| 0 <= j < prev.len() && prev[j] == q;
            assert(cur[j] == q);
        }
        if (forall|a: int, b: int| 0 <= a < cands.len() && 0 <= b < cands.len() && a != b ==> cands[a].id
            != cands[b].id) && cur.len() < target {
            assert forall|p: usize| p < n implies #[trigger] cur.contains(p) by {
                if p < m {
                    assert(prev.contains(p));
                } else if cur != prev {
                    assert(cur[prev.len() as int] == m as usize);
                } else {
                    let j = choose|j: int| 0 <= j < prev.len() && cands[prev[j] as int].id
                        == cands[m as int].id;
                    assert(prev[j] == m as usize);
                }
            }
        }
    }
}

/// What the selection keeps: no more than asked; each candidate at most
/// once; the best candidate whenever anything is asked; every category on
/// offer when the one-per-category pass left slots free; and, when every
/// candidate has its own id, every candidate when slots are left free.
pub proof fn law_selection(cands: Seq<Candidate>, target: nat)
    requires
        cands.len() <= usize::MAX,
    ensures
        kept(cands, target).len() <= target,
        kept(cands, target).no_duplicates(),
        forall|j: int| 0 <= j < kept(cands, target).len() ==> (#[trigger] kept(cands, target)[j])
            < cands.len(),
        target > 0 && cands.len() > 0 ==> kept(cands, target)[0] == 0,
        variety_pass(cands, target, cands.len()).len() < target ==> forall|p: int| 0 <= p < cands.len()
            ==> category_used(cands, kept(cands, target), #[trigger] cands[p].category),
        (forall|a: int, b: int| 0 <= a < cands.len() && 0 <= b < cands.len() && a != b ==> cands[a].id
            != cands[b].id) && kept(cands, target).len() < target ==> forall|p: usize|
            p < cands.len() ==> #[trigger] kept(cands, target).contains(p),
{
    let n = cands.len();
    let first = variety_pass(cands, target, n);
    lemma_variety_pass(cands, target, n);
    assert(first.no_duplicates()) by {
        assert forall|a: int, b: int| 0 <= a < first.len() && 0 <= b < first.len() && a != b implies first[a]
            != first[b] by {
            if a < b {
                assert(first[a] < first[b]);
            } else {
                assert(first[b] < first[a]);
            }
        }
    }
    lemma_fill_pass(cands, target, first, n);
    let all = kept(cands, target);
    if target > 0 && n > 0 {
        lemma_first_taken(cands, target, n);
    }
    if first.len() < target {
        assert forall|p: int| 0 <= p < n implies category_used(cands, all, #[trigger] cands[p].category) by {
            assert(category_used(cands, first, cands[p].category));
            let j = choose|j: int| 0 <= j < first.len() && cands[first[j] as int].category
                == cands[p].category;
            assert(all[j] == first[j]);
        }
    }
}

/// With something asked for, the first pass takes the best candidate first.
proof fn lemma_first_taken(cands: Seq<Candidate>, target: nat, n: nat)
    requires
        0 < n <= cands.len() <= usize::MAX,
        target > 0,
    ensures
        variety_pass(cands, target, n).len() > 0,
        variety_pass(cands, target, n)[0] == 0,
    decreases n,
{
    if n == 1 {
        assert(variety_pass(cands, target, 0) =~= Seq::<usize>::empty());
    } else {
        lemma_first_taken(cands, target, (n - 1) as nat);
    }
}

/// The names of the entities, in order, each read first as a faction and
/// otherwise as a civilization; ids that name neither are left out.
pub open spec fn entity_names(
    ids: Seq<u128>,
    factions: Seq<Faction>,
    civs: Seq<Civilization>,
) -> Seq<Seq<char>>
    decreases ids.len(),
{
    if ids.len() == 0 {
        Seq::empty()
    } else {
        let prev = entity_names(ids.drop_last(), factions, civs);
        match faction_named(factions, ids.last()) {
            Some(n) => prev.push(n),
            None => match civ_named(civs, ids.last()) {
                Some(n) => prev.push(n),
                None => prev,
            },
        }
    }
}

/// The name of the first faction with this id.
pub open spec fn faction_named(factions: Seq<Faction>, id: u128) -> Option<Seq<char>>
    decreases factions.len(),
{
    if factions.len() == 0 {
        None
    } else if factions[0].id == id {
        Some(factions[0].name@)
    } else {
        faction_named(factions.drop_first(), id)
    }
}

/// The name of the first civilization with this id.
pub open spec fn civ_named(civs: Seq<Civilization>, id: u128) -> Option<Seq<char>>
    decreases civs.len(),
{
    if civs.len() == 0 {
        None
    } else if civs[0].id == id {
        Some(civs[0].name@)
    } else {
        civ_named(civs.drop_first(), id)
    }
}

fn find_faction_name(factions: &Vec<Faction>, id: u128) -> (r: Option<String>)
    ensures
        match r {
            Some(n) => faction_named(factions@, id) == Some(n@),
            None => faction_named(factions@, id) is None,
        },
{
    let mut i: usize = 0;
    assert(factions@.skip(0) =~= factions@);
    while i < factions.len()
        invariant
            i <= factions.len(),
            faction_named(factions@, id) == faction_named(factions@.skip(i as int), id),
        decreases factions.len() - i,
    {
        assert(factions@.skip(i as int).drop_first() =~= factions@.skip(i as int + 1));
        if factions[i].id == id {
            return Some(factions[i].name.clone());
        }
        i = i + 1;
    }
    None
}

fn find_civ_name(civs: &Vec<Civilization>, id: u128) -> (r: Option<String>)
    ensures
        match r {
            Some(n) => civ_named(civs@, id) == Some(n@),
            None => civ_named(civs@, id) is None,
        },
{
    let mut i: usize = 0;
    assert(civs@.skip(0) =~= civs@);
    while i < civs.len()
        invariant
            i <= civs.len(),
            civ_named(civs@, id) == civ_named(civs@.skip(i as int), id),
        decreases civs.len() - i,
    {
        assert(civs@.skip(i as int).drop_first() =~= civs@.skip(i as int + 1));
        if civs[i].id == id {
            return Some(civs[i].name.clone());
        }
        i = i + 1;
    }
    None
}

/// Turn entity ids into the names a rumor shows.
pub fn resolve_entity_names(
    ids: &Vec<u128>,
    factions: &Vec<Faction>,
    civs: &Vec<Civilization>,
) -> (r: Vec<String>)
    ensures
        crate::text::views(r@) == entity_names(ids@, factions@, civs@),
{
    let mut r: Vec<String> = Vec::new();
    let mut i: usize = 0;
    while i < ids.len()
        invariant
            i <= ids.len(),
            crate::text::views(r@) == entity_names(ids@.take(i as int), factions@, civs@),
        decreases ids.len() - i,
    {
        assert(ids@.take(i as int + 1).drop_last() =~= ids@.take(i as int));
        let ghost before = r@;
        match find_faction_name(factions, ids[i]) {
            Some(n) => {
                r.push(n);
            },
            None => match find_civ_name(civs, ids[i]) {
                Some(n) => {
                    r.push(n);
                },
                None => {},
            },
        }
        assert(crate::text::views(r@) =~= entity_names(ids@.take(i as int + 1), factions@, civs@));
        i = i + 1;
    }
    assert(ids@.take(i as int) =~= ids@);
    r
}

/// How a rumor about one of the player's open threads is worded.
pub open spec fn thread_rumor_words(description: Seq<char>, connects_here: bool) -> Seq<char> {
    "\"People are still talking about "@ + description + ". "@ + (if connects_here {
        "It happened right here."@
    } else {
        "Word travels."@
    }) + "\""@
}

/// Word a rumor about an open thread; it says whether the thread
/// touches the current system.
pub fn thread_rumor_text(description: &str, connects_here: bool) -> (r: String)
    ensures
        r@ == thread_rumor_words(description@, connects_here),
{
    let mut r = "\"People are still talking about ".to_owned();
    r.append(description);
    r.append(". ");
    if connects_here {
        r.append("It happened right here.");
    } else {
        r.append("Word travels.");
    }
    r.append("\"");
    r
}


/// What the dock crowd says about an unusual star; common stars get no
/// comment.
pub open spec fn star_remark(star: StarType) -> Option<Seq<char>> {
    match star {
        StarType::BlackHole => Some("You can't see it directly, but the lensing is unmistakable \u{2014} a dark circle eating the starfield. The station creaks when it accretes."@),
        StarType::Neutron => Some("The neutron star pulses through the viewport like a lighthouse. Instruments flicker every time it sweeps past."@),
        StarType::Pulsar => Some("The pulsar ticks like a clock you can feel in your teeth. Navigation is precise but the radiation is brutal."@),
        StarType::WolfRayet => Some("The Wolf-Rayet is shedding its skin \u{2014} luminous gas shells expanding outward. Beautiful to look at. Don't go outside."@),
        StarType::BlueSuperGiant | StarType::BlueGiant => Some("The star fills half the viewport. Blue-white and furious. Radiation warnings ping every few minutes \u{2014} you get used to it."@),
        StarType::RedGiant => Some("The red giant hangs out there like a dying ember the size of a solar system. The light makes everything look like permanent sunset."@),
        StarType::BrownDwarf => Some("It's dark here. The brown dwarf barely qualifies as a star \u{2014} more like a warm spot in the void. Station lights do the real work."@),
        StarType::Binary => Some("Two suns. The shadows never sit still. Takes a few hours before your eyes stop trying to make sense of the light."@),
        StarType::WhiteDwarf => Some("The white dwarf is small and fierce \u{2014} a tiny bright point throwing hard light across the system. Everything looks overexposed."@),
        _ => None,
    }
}

/// The remark a notable star draws, if any.
pub fn star_flavor(star: StarType) -> (r: Option<&'static str>)
    ensures
        match r {
            Some(t) => star_remark(star) == Some(t@),
            None => star_remark(star) is None,
        },
{
    match star {
        StarType::BlackHole => Some("You can't see it directly, but the lensing is unmistakable \u{2014} a dark circle eating the starfield. The station creaks when it accretes."),
        StarType::Neutron => Some("The neutron star pulses through the viewport like a lighthouse. Instruments flicker every time it sweeps past."),
        StarType::Pulsar => Some("The pulsar ticks like a clock you can feel in your teeth. Navigation is precise but the radiation is brutal."),
        StarType::WolfRayet => Some("The Wolf-Rayet is shedding its skin \u{2014} luminous gas shells expanding outward. Beautiful to look at. Don't go outside."),
        StarType::BlueSuperGiant | StarType::BlueGiant => Some("The star fills half the viewport. Blue-white and furious. Radiation warnings ping every few minutes \u{2014} you get used to it."),
        StarType::RedGiant => Some("The red giant hangs out there like a dying ember the size of a solar system. The light makes everything look like permanent sunset."),
        StarType::BrownDwarf => Some("It's dark here. The brown dwarf barely qualifies as a star \u{2014} more like a warm spot in the void. Station lights do the real work."),
        StarType::Binary => Some("Two suns. The shadows never sit still. Takes a few hours before your eyes stop trying to make sense of the light."),
        StarType::WhiteDwarf => Some("The white dwarf is small and fierce \u{2014} a tiny bright point throwing hard light across the system. Everything looks overexposed."),
        _ => None,
    }
}

/// How a port feels when one faction dominates it.
pub open spec fn atmosphere_words(c: FactionCategory) -> Seq<char> {
    match c {
        FactionCategory::Military => "Uniforms everywhere. Security checkpoints at every junction. The kind of place where you keep your ident ready."@,
        FactionCategory::Economic => "Everything here has a price tag. The concourse is all storefronts and trading terminals. Commerce never sleeps."@,
        FactionCategory::Criminal => "The kind of place where you don't ask questions and nobody asks them of you. Useful, if you know how to behave."@,
        FactionCategory::Guild => "Guild banners on the docking pylons. Engineers and pilots everywhere. The sort of station that runs well."@,
        FactionCategory::Religious => "Chanting drifts from somewhere down-corridor. Pilgrims mix with the dock crews. There's incense in the air recyclers."@,
        FactionCategory::Academic => "Research equipment stacked in every corridor. Half the people here look like they haven't slept in days. Lab coats and coffee."@,
        FactionCategory::Political => "Officials and aides everywhere, moving with purpose. Screens broadcasting policy debates. Bureaucracy in motion."@,
    }
}

/// The atmosphere line for a port a faction of this category dominates.
pub fn faction_atmosphere(c: FactionCategory) -> (r: &'static str)
    ensures
        r@ == atmosphere_words(c),
{
    match c {
        FactionCategory::Military => "Uniforms everywhere. Security checkpoints at every junction. The kind of place where you keep your ident ready.",
        FactionCategory::Economic => "Everything here has a price tag. The concourse is all storefronts and trading terminals. Commerce never sleeps.",
        FactionCategory::Criminal => "The kind of place where you don't ask questions and nobody asks them of you. Useful, if you know how to behave.",
        FactionCategory::Guild => "Guild banners on the docking pylons. Engineers and pilots everywhere. The sort of station that runs well.",
        FactionCategory::Religious => "Chanting drifts from somewhere down-corridor. Pilgrims mix with the dock crews. There's incense in the air recyclers.",
        FactionCategory::Academic => "Research equipment stacked in every corridor. Half the people here look like they haven't slept in days. Lab coats and coffee.",
        FactionCategory::Political => "Officials and aides everywhere, moving with purpose. Screens broadcasting policy debates. Bureaucracy in motion.",
    }
}


/// A galactic event worded as faction intelligence.
#[derive(Debug)]
pub struct EventIntel {
    /// The event touches a faction present here.
    pub involves_local: bool,
    /// What the player hears.
    pub display_text: String,
    /// What it means for this system.
    pub implication: String,
}

/// Some entity of the event is a faction present here.
pub open spec fn touches_local(entities: Seq<u128>, local: Seq<u128>) -> bool {
    exists|i: int| 0 <= i < entities.len() && local.contains(#[trigger] entities[i])
}

/// The implication line of an event rumor.
pub open spec fn implication_words(
    involves_local: bool,
    names: Seq<Seq<char>>,
    system: Seq<char>,
) -> Seq<char> {
    if involves_local {
        "This directly affects "@ + crate::text::joined(names, " and "@) + " presence at "@ + system
            + "."@
    } else {
        "Distant events, but the ripples may reach here."@
    }
}

fn touches(entities: &Vec<u128>, local: &Vec<u128>) -> (r: bool)
    ensures
        r == touches_local(entities@, local@),
{
    let mut i: usize = 0;
    while i < entities.len()
        invariant
            i <= entities.len(),
            forall|j: int| 0 <= j < i ==> !local@.contains(#[trigger] entities@[j]),
        decreases entities.len() - i,
    {
        if crate::simulation::galaxy::contains_id(local, entities[i]) {
            return true;
        }
        i = i + 1;
    }
    false
}

/// Word a recent galactic event as a rumor at this system. When more than
/// five events are recent, those not touching a faction present here are
/// passed over (`None`).
pub fn tick_event_intel(
    entities: &Vec<u128>,
    description: &str,
    local_faction_ids: &Vec<u128>,
    recent_event_count: usize,
    factions: &Vec<Faction>,
    civs: &Vec<Civilization>,
    system_name: &str,
) -> (r: Option<EventIntel>)
    ensures
        r is None <==> (!touches_local(entities@, local_faction_ids@) && recent_event_count > 5),
        r matches Some(e) ==> {
            &&& e.involves_local == touches_local(entities@, local_faction_ids@)
            &&& e.display_text@ == "\""@ + description@ + "\""@
            &&& e.implication@ == implication_words(
                e.involves_local,
                entity_names(entities@, factions@, civs@),
                system_name@,
            )
        },
{
    let involves_local = touches(entities, local_faction_ids);
    if !involves_local && recent_event_count > 5 {
        return None;
    }
    let mut display_text = "\"".to_owned();
    display_text.append(description);
    display_text.append("\"");
    let implication = if involves_local {
        let names = resolve_entity_names(entities, factions, civs);
        let joined = crate::text::join(&names, " and ");
        let mut t = "This directly affects ".to_owned();
        t.append(joined.as_str());
        t.append(" presence at ");
        t.append(system_name);
        t.append(".");
        t
    } else {
        "Distant events, but the ripples may reach here.".to_owned()
    };
    Some(EventIntel { involves_local, display_text, implication })
}

/// The rumor about a civilization's first internal pressure: what the
/// player hears and its summary; nothing when it has none.
pub fn pressure_intel(civ: &Civilization) -> (r: Option<(String, String)>)
    ensures
        civ.pressures@.len() == 0 ==> r is None,
        civ.pressures@.len() > 0 ==> (r matches Some((d, s)) && d@ == "\"Word is "@ + civ.name@
            + " is dealing with problems. "@ + civ.pressures@[0].description@ + "\""@ && s@
            == civ.name@ + ": "@ + civ.pressures@[0].description@),
{
    if civ.pressures.len() == 0 {
        return None;
    }
    let p = &civ.pressures[0];
    let mut d = "\"Word is ".to_owned();
    d.append(civ.name.as_str());
    d.append(" is dealing with problems. ");
    d.append(p.description.as_str());
    d.append("\"");
    let mut s = civ.name.clone();
    s.append(": ");
    s.append(p.description.as_str());
    Some((d, s))
}


/// What the contract-lead scan reads of a person. Whether they offer work
/// and the name they go by come from their disposition and acquaintance.
#[derive(Debug, Clone)]
pub struct LeadNpc {
    pub id: u128,
    pub name: String,
    pub title: String,
    /// The object pronoun ("her", "him", "them").
    pub object_pronoun: String,
    /// The name the player knows them by.
    pub display_name: String,
    pub home_system_id: u128,
    pub home_location_id: Option<u128>,
    pub alive: bool,
    pub offers_contracts: bool,
    pub met_player: bool,
    pub faction_id: Option<u128>,
}

/// A person's lead on work, before it is scored.
#[derive(Debug, Clone)]
pub struct ContractLead {
    pub npc_id: u128,
    /// The person's name, when the player has met them.
    pub npc_name: Option<String>,
    pub faction_id: Option<u128>,
    pub contract_type: String,
    pub estimated_reward: u32,
    pub display_text: String,
    pub summary: String,
}

/// The kind of job a faction category offers, how it is put, and the
/// reward it is expected to pay.
pub open spec fn lead_terms(c: Option<FactionCategory>) -> (Seq<char>, Seq<char>, u32) {
    match c {
        Some(FactionCategory::Military) => ("investigation"@, "investigate a situation"@, 280u32),
        Some(FactionCategory::Economic) => ("delivery"@, "run a shipment"@, 200u32),
        Some(FactionCategory::Guild) => ("retrieval"@, "retrieve some equipment"@, 220u32),
        Some(FactionCategory::Criminal) => ("delivery"@, "move some cargo discreetly"@, 320u32),
        Some(FactionCategory::Religious) => ("retrieval"@, "recover an artifact"@, 180u32),
        Some(FactionCategory::Academic) => ("investigation"@, "look into something"@, 240u32),
        Some(FactionCategory::Political) => ("investigation"@, "assess a situation"@, 260u32),
        None => ("delivery"@, "handle a courier job"@, 175u32),
    }
}

/// The job terms for a faction category.
pub fn lead_terms_for(c: Option<FactionCategory>) -> (r: (&'static str, &'static str, u32))
    ensures
        (r.0@, r.1@, r.2) == lead_terms(c),
{
    match c {
        Some(FactionCategory::Military) => ("investigation", "investigate a situation", 280),
        Some(FactionCategory::Economic) => ("delivery", "run a shipment", 200),
        Some(FactionCategory::Guild) => ("retrieval", "retrieve some equipment", 220),
        Some(FactionCategory::Criminal) => ("delivery", "move some cargo discreetly", 320),
        Some(FactionCategory::Religious) => ("retrieval", "recover an artifact", 180),
        Some(FactionCategory::Academic) => ("investigation", "look into something", 240),
        Some(FactionCategory::Political) => ("investigation", "assess a situation", 260),
        None => ("delivery", "handle a courier job", 175),
    }
}

/// The player already works for this person: a contract from them is
/// active or awaits payment.
pub open spec fn working_for(contracts: Seq<(u128, ContractState)>, id: u128) -> bool {
    exists|k: int|
        0 <= k < contracts.len() && (#[trigger] contracts[k]).0 == id && (contracts[k].1
            == ContractState::Active || contracts[k].1 == ContractState::ReadyToComplete)
}

/// A person gives a lead: they live at this location of this system, are
/// alive, offer work, and the player does not already work for them.
pub open spec fn gives_lead(
    n: LeadNpc,
    system: u128,
    location: u128,
    contracts: Seq<(u128, ContractState)>,
) -> bool {
    &&& n.home_system_id == system
    &&& n.alive
    &&& n.home_location_id == Some(location)
    &&& n.offers_contracts
    &&& !working_for(contracts, n.id)
}

/// The people who give leads, in order.
pub open spec fn lead_givers(
    npcs: Seq<LeadNpc>,
    system: u128,
    location: u128,
    contracts: Seq<(u128, ContractState)>,
) -> Seq<LeadNpc>
    decreases npcs.len(),
{
    if npcs.len() == 0 {
        Seq::empty()
    } else {
        let prev = lead_givers(npcs.drop_last(), system, location, contracts);
        if gives_lead(npcs.last(), system, location, contracts) {
            prev.push(npcs.last())
        } else {
            prev
        }
    }
}

/// How the lead is told: by name and title to a player who met the
/// person, by title alone otherwise.
pub open spec fn lead_display(n: LeadNpc, verb: Seq<char>) -> Seq<char> {
    if n.met_player {
        "\""@ + n.name@ + " \u{2014} "@ + n.title@ + " \u{2014} is looking for someone to "@ + verb
            + ". Talk to "@ + n.object_pronoun@ + " if you're interested.\""@
    } else {
        "\"The "@ + n.title@ + " is looking for someone to "@ + verb + ". Talk to "@
            + n.object_pronoun@ + " if you're interested.\""@
    }
}

/// The name of the person's faction, or "an independent operator".
pub open spec fn lead_faction_name(factions: Seq<Faction>, n: LeadNpc) -> Seq<char> {
    match n.faction_id {
        Some(fid) => match faction_named(factions, fid) {
            Some(name) => name,
            None => "an independent operator"@,
        },
        None => "an independent operator"@,
    }
}

/// The terms of the person's lead, by their faction's category.
pub open spec fn npc_lead_terms(factions: Seq<Faction>, n: LeadNpc) -> (Seq<char>, Seq<char>, u32) {
    lead_terms(
        match n.faction_id {
            Some(fid) => crate::contracts::category_of(factions, fid),
            None => None,
        },
    )
}

/// The lead a person gives.
pub open spec fn lead_is(l: ContractLead, n: LeadNpc, factions: Seq<Faction>) -> bool {
    let (kind, verb, reward) = npc_lead_terms(factions, n);
    &&& l.npc_id == n.id
    &&& l.npc_name == (if n.met_player { Some(n.name) } else { None })
    &&& l.faction_id == n.faction_id
    &&& l.contract_type@ == kind
    &&& l.estimated_reward == reward
    &&& l.display_text@ == lead_display(n, verb)
    &&& l.summary@ == n.display_name@ + " ("@ + lead_faction_name(factions, n) + ") wants a "@ + kind
        + " job done (~"@ + decimal(reward as nat) + " cr)"@
}

fn working_for_any(contracts: &Vec<(u128, ContractState)>, id: u128) -> (r: bool)
    ensures
        r == working_for(contracts@, id),
{
    let mut k: usize = 0;
    while k < contracts.len()
        invariant
            k <= contracts@.len(),
            forall|j: int| 0 <= j < k ==> !(#[trigger] contracts@[j].0 == id && (contracts@[j].1
                == ContractState::Active || contracts@[j].1 == ContractState::ReadyToComplete)),
        decreases contracts.len() - k,
    {
        let (issuer, state) = contracts[k];
        if issuer == id && (state == ContractState::Active || state == ContractState::ReadyToComplete) {
            assert(contracts@[k as int].0 == id);
            return true;
        }
        k = k + 1;
    }
    false
}

fn lead_of(n: &LeadNpc, factions: &Vec<Faction>) -> (l: ContractLead)
    ensures
        lead_is(l, *n, factions@),
{
    let category = match n.faction_id {
        Some(fid) => crate::contracts::find_category(factions, fid),
        None => None,
    };
    let faction_name = match n.faction_id {
        Some(fid) => match find_faction_name(factions, fid) {
            Some(name) => name,
            None => "an independent operator".to_owned(),
        },
        None => "an independent operator".to_owned(),
    };
    let (kind, verb, reward) = lead_terms_for(category);
    let mut display = if n.met_player {
        let mut d = "\"".to_owned();
        d.append(n.name.as_str());
        d.append(" \u{2014} ");
        d.append(n.title.as_str());
        d.append(" \u{2014} is looking for someone to ");
        d
    } else {
        let mut d = "\"The ".to_owned();
        d.append(n.title.as_str());
        d.append(" is looking for someone to ");
        d
    };
    display.append(verb);
    display.append(". Talk to ");
    display.append(n.object_pronoun.as_str());
    display.append(" if you're interested.\"");
    let mut summary = n.display_name.clone();
    summary.append(" (");
    summary.append(faction_name.as_str());
    summary.append(") wants a ");
    summary.append(kind);
    summary.append(" job done (~");
    summary.append(decimal_string(reward as u64).as_str());
    summary.append(" cr)");
    let npc_name = if n.met_player { Some(n.name.clone()) } else { None };
    let l = ContractLead {
        npc_id: n.id,
        npc_name,
        faction_id: n.faction_id,
        contract_type: kind.to_owned(),
        estimated_reward: reward,
        display_text: display,
        summary,
    };
    assert(l.display_text@ =~= lead_display(*n, verb@));
    assert(l.summary@ =~= n.display_name@ + " ("@ + lead_faction_name(factions@, *n) + ") wants a "@
        + kind@ + " job done (~"@ + decimal(reward as nat) + " cr)"@);
    l
}

/// The leads on work the people here give, in order, before scoring:
/// none when the player is not at a location; otherwise one per person
/// who lives at this location, is alive, offers work, and is not already
/// the issuer of an active or completed-but-unpaid contract (`contracts`
/// lists each contract's issuer and state), told by their faction's
/// category.
pub fn contract_leads(
    npcs: &Vec<LeadNpc>,
    factions: &Vec<Faction>,
    system: u128,
    location: Option<u128>,
    contracts: &Vec<(u128, ContractState)>,
) -> (r: Vec<ContractLead>)
    ensures
        location is None ==> r@.len() == 0,
        location matches Some(loc) ==> {
            let givers = lead_givers(npcs@, system, loc, contracts@);
            &&& r@.len() == givers.len()
            &&& forall|i: int| 0 <= i < r@.len() ==> lead_is(#[trigger] r@[i], givers[i], factions@)
        },
{
    let mut r: Vec<ContractLead> = Vec::new();
    let loc = match location {
        Some(l) => l,
        None => {
            return r;
        },
    };
    let mut i: usize = 0;
    while i < npcs.len()
        invariant
            i <= npcs@.len(),
            location == Some(loc),
            r@.len() == lead_givers(npcs@.take(i as int), system, loc, contracts@).len(),
            forall|k: int| 0 <= k < r@.len() ==> lead_is(#[trigger] r@[k], lead_givers(npcs@.take(i as int), system, loc, contracts@)[k], factions@),
        decreases npcs.len() - i,
    {
        assert(npcs@.take(i as int + 1).drop_last() =~= npcs@.take(i as int));
        let n = &npcs[i];
        let ghost before = lead_givers(npcs@.take(i as int), system, loc, contracts@);
        if n.home_system_id == system && n.alive && n.home_location_id == Some(loc) && n.offers_contracts
            && !working_for_any(contracts, n.id) {
            let l = lead_of(n, factions);
            r.push(l);
            assert(lead_givers(npcs@.take(i as int + 1), system, loc, contracts@) == before.push(*n));
        } else {
            assert(lead_givers(npcs@.take(i as int + 1), system, loc, contracts@) == before);
        }
        i = i + 1;
    }
    assert(npcs@.take(npcs@.len() as int) =~= npcs@);
    r
}

} // verus!
