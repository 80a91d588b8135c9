//! The rule-based parts of galaxy generation: names, keys read from the
//! template files, faction texts, wiring factions into civilizations, and
//! the random picks that fill in NPC details.

use rand::rngs::StdRng;
use vstd::prelude::*;
use vstd::string::*;

use crate::npc_interaction::{drawn_from, lookup, offered, pick_template, Pronouns, TemplatePool};
use crate::rng::{draw_below, draw_between, shuffle_positions};
use crate::simulation::galaxy::{
    CivPressure, Civilization, Faction, FactionCategory, FactionScope, FactionService, InfrastructureLevel,
    StarType,
};
use crate::simulation::templates::{blocked, lists_text, CivCompatibility};
use crate::text::{
    decimal, decimal_string, first_word, first_word_of, has_prefix, replace_all, replaced,
    same_text, strip_prefix, views,
};

verus! {

// ---------------------------------------------------------------------------
// Civilization names
// ---------------------------------------------------------------------------

/// Suffixes that read better with a leading "The".
pub open spec fn takes_article(suffix: Seq<char>) -> bool {
    ||| suffix == "Compact"@
    ||| suffix == "Collective"@
    ||| suffix == "Assembly"@
    ||| suffix == "Ascendancy"@
}

/// A civilization's full name from its cultural prefix and its suffix.
pub open spec fn civ_name(prefix: Seq<char>, suffix: Seq<char>) -> Seq<char> {
    if takes_article(suffix) {
        "The "@ + prefix + " "@ + suffix
    } else {
        prefix + " "@ + suffix
    }
}

/// Assemble a civilization name: "The Solari Collective", "Terran Hegemony".
pub fn assemble_civ_name(prefix: &str, suffix: &str) -> (r: String)
    ensures
        r@ == civ_name(prefix@, suffix@),
{
    let needs_the = same_text(suffix, "Compact") || same_text(suffix, "Collective") || same_text(
        suffix,
        "Assembly",
    ) || same_text(suffix, "Ascendancy");
    let mut r = if needs_the {
        let mut t = "The ".to_owned();
        t.append(prefix);
        t
    } else {
        prefix.to_owned()
    };
    r.append(" ");
    r.append(suffix);
    r
}

/// The cultural prefix of a civilization name: the first word after any
/// leading "The ", or that remainder itself when it has no word.
pub open spec fn cultural_prefix(name: Seq<char>) -> Seq<char> {
    let rest = if has_prefix(name, "The "@) {
        name.skip("The "@.len() as int)
    } else {
        name
    };
    match first_word(rest) {
        Some(w) => w,
        None => rest,
    }
}

/// The cultural prefix of a civilization's name, for naming its factions:
/// "Terran Hegemony" gives "Terran", "The Solari Collective" gives "Solari".
pub fn extract_civ_prefix(civ_name: &str) -> (r: &str)
    ensures
        r@ == cultural_prefix(civ_name@),
{
    let name = match strip_prefix(civ_name, "The ") {
        Some(rest) => rest,
        None => civ_name,
    };
    match first_word_of(name) {
        Some(w) => w,
        None => name,
    }
}

// ---------------------------------------------------------------------------
// Keys read from the template files
// ---------------------------------------------------------------------------

/// The service a template key names.
pub open spec fn service_for_key(s: Seq<char>) -> Option<FactionService> {
    if s == "missions"@ {
        Some(FactionService::Missions)
    } else if s == "trade"@ {
        Some(FactionService::Trade)
    } else if s == "intelligence"@ {
        Some(FactionService::Intelligence)
    } else if s == "repair"@ {
        Some(FactionService::Repair)
    } else if s == "smuggling"@ {
        Some(FactionService::Smuggling)
    } else if s == "training"@ {
        Some(FactionService::Training)
    } else if s == "shelter"@ {
        Some(FactionService::Shelter)
    } else {
        None
    }
}

/// Read a service key; unknown keys give `None`.
pub fn parse_faction_service(s: &str) -> (r: Option<FactionService>)
    ensures
        r == service_for_key(s@),
{
    if same_text(s, "missions") {
        Some(FactionService::Missions)
    } else if same_text(s, "trade") {
        Some(FactionService::Trade)
    } else if same_text(s, "intelligence") {
        Some(FactionService::Intelligence)
    } else if same_text(s, "repair") {
        Some(FactionService::Repair)
    } else if same_text(s, "smuggling") {
        Some(FactionService::Smuggling)
    } else if same_text(s, "training") {
        Some(FactionService::Training)
    } else if same_text(s, "shelter") {
        Some(FactionService::Shelter)
    } else {
        None
    }
}

/// The star type a template key names; unknown keys give a red dwarf.
pub open spec fn star_type_for_key(s: Seq<char>) -> StarType {
    if s == "yellow_dwarf"@ {
        StarType::YellowDwarf
    } else if s == "red_dwarf"@ {
        StarType::RedDwarf
    } else if s == "binary"@ {
        StarType::Binary
    } else if s == "blue_giant"@ {
        StarType::BlueGiant
    } else if s == "white_dwarf"@ {
        StarType::WhiteDwarf
    } else if s == "neutron"@ {
        StarType::Neutron
    } else if s == "black_hole"@ {
        StarType::BlackHole
    } else if s == "anomalous"@ {
        StarType::Anomalous
    } else {
        StarType::RedDwarf
    }
}

/// Read a star type key.
pub fn parse_star_type(s: &str) -> (r: StarType)
    ensures
        r == star_type_for_key(s@),
{
    if same_text(s, "yellow_dwarf") {
        StarType::YellowDwarf
    } else if same_text(s, "red_dwarf") {
        StarType::RedDwarf
    } else if same_text(s, "binary") {
        StarType::Binary
    } else if same_text(s, "blue_giant") {
        StarType::BlueGiant
    } else if same_text(s, "white_dwarf") {
        StarType::WhiteDwarf
    } else if same_text(s, "neutron") {
        StarType::Neutron
    } else if same_text(s, "black_hole") {
        StarType::BlackHole
    } else if same_text(s, "anomalous") {
        StarType::Anomalous
    } else {
        StarType::RedDwarf
    }
}

/// The roman numeral of a planet's position, 1 to 5; "VI" beyond.
pub open spec fn roman(n: usize) -> Seq<char> {
    if n == 1 {
        "I"@
    } else if n == 2 {
        "II"@
    } else if n == 3 {
        "III"@
    } else if n == 4 {
        "IV"@
    } else if n == 5 {
        "V"@
    } else {
        "VI"@
    }
}

/// The numeral naming the `n`th planet of a system.
pub fn roman_numeral(n: usize) -> (r: &'static str)
    ensures
        r@ == roman(n),
{
    match n {
        1 => "I",
        2 => "II",
        3 => "III",
        4 => "IV",
        5 => "V",
        _ => "VI",
    }
}

/// The key the people templates use for a faction category.
pub open spec fn category_key(c: FactionCategory) -> Seq<char> {
    match c {
        FactionCategory::Military => "military"@,
        FactionCategory::Economic => "economic"@,
        FactionCategory::Guild => "guild"@,
        FactionCategory::Criminal => "criminal"@,
        FactionCategory::Religious => "religious"@,
        FactionCategory::Academic => "academic"@,
        FactionCategory::Political => "political"@,
    }
}

/// The people-template key of a faction category.
pub fn faction_category_key(category: FactionCategory) -> (r: String)
    ensures
        r@ == category_key(category),
{
    let k = match category {
        FactionCategory::Military => "military",
        FactionCategory::Economic => "economic",
        FactionCategory::Guild => "guild",
        FactionCategory::Criminal => "criminal",
        FactionCategory::Religious => "religious",
        FactionCategory::Academic => "academic",
        FactionCategory::Political => "political",
    };
    k.to_owned()
}

/// The category of a faction built from a named template; unknown
/// templates build guilds.
pub open spec fn category_for_template(name: Seq<char>) -> FactionCategory {
    if name == "military"@ {
        FactionCategory::Military
    } else if name == "economic"@ {
        FactionCategory::Economic
    } else if name == "guild"@ {
        FactionCategory::Guild
    } else if name == "religious"@ {
        FactionCategory::Religious
    } else if name == "criminal_frontier"@ || name == "criminal_covert"@ {
        FactionCategory::Criminal
    } else {
        FactionCategory::Guild
    }
}

/// The category of the faction a template builds.
pub fn template_category(category_name: &str) -> (r: FactionCategory)
    ensures
        r == category_for_template(category_name@),
{
    if same_text(category_name, "military") {
        FactionCategory::Military
    } else if same_text(category_name, "economic") {
        FactionCategory::Economic
    } else if same_text(category_name, "guild") {
        FactionCategory::Guild
    } else if same_text(category_name, "religious") {
        FactionCategory::Religious
    } else if same_text(category_name, "criminal_frontier") || same_text(
        category_name,
        "criminal_covert",
    ) {
        FactionCategory::Criminal
    } else {
        FactionCategory::Guild
    }
}

/// What `str::to_lowercase` gives for a text (Unicode lower-casing).
pub uninterp spec fn lowercase(s: Seq<char>) -> Seq<char>;

/// Calls std's `str::to_lowercase`. Claimed: the result is a function of
/// the text alone, named `lowercase`; what it is for each text (Unicode's
/// case tables) is not stated.
#[verifier::external_body]
pub(crate) fn to_lower(s: &str) -> (r: String)
    ensures
        r@ == lowercase(s@),
{
    s.to_lowercase()
}

/// The infrastructure level a lower-case key names; unknown keys give none.
pub open spec fn infra_for_key(s: Seq<char>) -> InfrastructureLevel {
    if s == "outpost"@ {
        InfrastructureLevel::Outpost
    } else if s == "colony"@ {
        InfrastructureLevel::Colony
    } else if s == "established"@ {
        InfrastructureLevel::Established
    } else if s == "hub"@ {
        InfrastructureLevel::Hub
    } else if s == "capital"@ {
        InfrastructureLevel::Capital
    } else {
        InfrastructureLevel::Uninhabited
    }
}

/// Read an already lower-cased infrastructure key.
pub fn infra_level_for_key(key: &str) -> (r: InfrastructureLevel)
    ensures
        r == infra_for_key(key@),
{
    if same_text(key, "outpost") {
        InfrastructureLevel::Outpost
    } else if same_text(key, "colony") {
        InfrastructureLevel::Colony
    } else if same_text(key, "established") {
        InfrastructureLevel::Established
    } else if same_text(key, "hub") {
        InfrastructureLevel::Hub
    } else if same_text(key, "capital") {
        InfrastructureLevel::Capital
    } else {
        InfrastructureLevel::Uninhabited
    }
}

/// Read an infrastructure key in any letter case.
pub fn parse_infra_level(s: &str) -> (r: InfrastructureLevel)
    ensures
        r == infra_for_key(lowercase(s@)),
{
    let lower = to_lower(s);
    infra_level_for_key(lower.as_str())
}

/// The rank of an infrastructure level, 0 (none) to 5 (capital).
pub fn infra_level_rank(level: InfrastructureLevel) -> (r: u8)
    ensures
        r == crate::simulation::galaxy::infra_rank(level),
{
    match level {
        InfrastructureLevel::Uninhabited => 0,
        InfrastructureLevel::Outpost => 1,
        InfrastructureLevel::Colony => 2,
        InfrastructureLevel::Established => 3,
        InfrastructureLevel::Hub => 4,
        InfrastructureLevel::Capital => 5,
    }
}

// ---------------------------------------------------------------------------
// Faction texts
// ---------------------------------------------------------------------------

/// `head`, `mid` and `tail` one after another.
fn framed(head: &str, mid: &str, tail: &str) -> (r: String)
    ensures
        r@ == head@ + mid@ + tail@,
{
    let mut r = head.to_owned();
    r.append(mid);
    r.append(tail);
    r
}

/// The description a faction built from a named template carries.
pub open spec fn faction_description_text(
    category: Seq<char>,
    faction: Seq<char>,
    parent: Option<Seq<char>>,
) -> Seq<char> {
    if category == "military"@ {
        let civ = match parent {
            Some(n) => n,
            None => "its parent civilization"@,
        };
        "The enforcement and defense arm of "@ + civ + ". "@ + faction
            + " runs border patrols, military installations, and classified research programs. Known for thoroughness, institutional loyalty, and a tendency to classify everything."@
    } else if category == "economic"@ {
        "A powerful merchant network operating across the Near Reach. "@ + faction
            + " manages trade posts, negotiates tariffs, and maintains the commercial infrastructure that keeps the civilizations fed and supplied. Officially neutral in politics; practically, they lean toward whoever offers better terms."@
    } else if category == "guild"@ {
        "A loose professional union of pilots, engineers, and independent spacers. "@ + faction
            + " has no headquarters, no hierarchy worth mentioning \u{2014} just a network of mutual aid and shared expertise. The kind of organization that exists because space is hard and nobody else will help when your life support fails."@
    } else if category == "religious"@ {
        "A contemplative order that believes time distortion is evidence of something greater \u{2014} a pattern in the fabric of spacetime that rewards careful observation. "@
            + faction
            + " maintains monasteries in systems with high time factors. Quiet, patient, occasionally unsettling."@
    } else if category == "criminal_frontier"@ {
        "Frontier salvage outfit that picks over derelicts, abandoned stations, and anything the civilizations left behind. "@
            + faction
            + " operates where authority is thin. The line between salvage and piracy is a legal distinction they don't spend much time worrying about."@
    } else if category == "criminal_covert"@ {
        "An information broker network that sells intelligence to anyone who can pay. Nobody knows who runs "@
            + faction
            + ". What everyone knows is that if you need to find something out \u{2014} a shipping manifest, a classified patrol route, a person who doesn't want to be found \u{2014} they can probably help. For a price."@
    } else {
        faction + " operates in the Near Reach."@
    }
}

/// The description of a new faction, by the template it was built from;
/// a military faction names its parent civilization.
pub fn generate_faction_description(
    category_name: &str,
    faction_name: &str,
    parent_civ: Option<&Civilization>,
    _civ_prefix: &str,
) -> (r: String)
    ensures
        r@ == faction_description_text(
            category_name@,
            faction_name@,
            match parent_civ {
                Some(c) => Some(c.name@),
                None => None,
            },
        ),
{
    if same_text(category_name, "military") {
        let civ_name = match parent_civ {
            Some(c) => c.name.as_str(),
            None => "its parent civilization",
        };
        let mut r = framed("The enforcement and defense arm of ", civ_name, ". ");
        r.append(faction_name);
        r.append(
            " runs border patrols, military installations, and classified research programs. Known for thoroughness, institutional loyalty, and a tendency to classify everything.",
        );
        r
    } else if same_text(category_name, "economic") {
        framed(
            "A powerful merchant network operating across the Near Reach. ",
            faction_name,
            " manages trade posts, negotiates tariffs, and maintains the commercial infrastructure that keeps the civilizations fed and supplied. Officially neutral in politics; practically, they lean toward whoever offers better terms.",
        )
    } else if same_text(category_name, "guild") {
        framed(
            "A loose professional union of pilots, engineers, and independent spacers. ",
            faction_name,
            " has no headquarters, no hierarchy worth mentioning \u{2014} just a network of mutual aid and shared expertise. The kind of organization that exists because space is hard and nobody else will help when your life support fails.",
        )
    } else if same_text(category_name, "religious") {
        framed(
            "A contemplative order that believes time distortion is evidence of something greater \u{2014} a pattern in the fabric of spacetime that rewards careful observation. ",
            faction_name,
            " maintains monasteries in systems with high time factors. Quiet, patient, occasionally unsettling.",
        )
    } else if same_text(category_name, "criminal_frontier") {
        framed(
            "Frontier salvage outfit that picks over derelicts, abandoned stations, and anything the civilizations left behind. ",
            faction_name,
            " operates where authority is thin. The line between salvage and piracy is a legal distinction they don't spend much time worrying about.",
        )
    } else if same_text(category_name, "criminal_covert") {
        framed(
            "An information broker network that sells intelligence to anyone who can pay. Nobody knows who runs ",
            faction_name,
            ". What everyone knows is that if you need to find something out \u{2014} a shipping manifest, a classified patrol route, a person who doesn't want to be found \u{2014} they can probably help. For a price.",
        )
    } else {
        let mut r = faction_name.to_owned();
        r.append(" operates in the Near Reach.");
        r
    }
}

/// The notable assets a faction built from a named template starts with.
pub open spec fn faction_assets(category: Seq<char>, civ_prefix: Seq<char>) -> Seq<Seq<char>> {
    if category == "military"@ {
        seq![
            "Naval yards at the "@ + civ_prefix + " capital"@,
            "Classified deep-space listening posts"@,
            "Agent network in contested systems"@,
        ]
    } else if category == "economic"@ {
        seq![
            "Trade posts at major hubs"@,
            "Interstellar cargo fleet"@,
            "Trade route maps and tariff agreements"@,
        ]
    } else if category == "guild"@ {
        seq![
            "Repair yards at major ports"@,
            "Informal route intelligence network"@,
            "Emergency beacon response protocol"@,
        ]
    } else if category == "religious"@ {
        seq![
            "Monastery in distorted space"@,
            "Extensive records of time-distortion phenomena"@,
            "Meditation techniques that mitigate temporal disorientation"@,
        ]
    } else if category == "criminal_frontier"@ {
        seq![
            "Hidden depot in frontier space"@,
            "Salvage fleet \u{2014} three modified haulers"@,
            "Black market contacts across the frontier"@,
        ]
    } else if category == "criminal_covert"@ {
        seq![
            "Dead drop network across the Near Reach"@,
            "Encrypted communications infrastructure"@,
            "Dossiers on key figures in all civilizations"@,
        ]
    } else {
        Seq::empty()
    }
}

/// Three owned strings.
fn three(a: &str, b: &str, c: &str) -> (r: Vec<String>)
    ensures
        views(r@) == seq![a@, b@, c@],
{
    let r = vec![a.to_owned(), b.to_owned(), c.to_owned()];
    assert(views(r@) =~= seq![a@, b@, c@]);
    r
}

/// The notable assets of a new faction, by the template it was built from.
pub fn generate_faction_assets(category_name: &str, civ_prefix: &str) -> (r: Vec<String>)
    ensures
        views(r@) == faction_assets(category_name@, civ_prefix@),
{
    if same_text(category_name, "military") {
        let yards = framed("Naval yards at the ", civ_prefix, " capital");
        three(
            yards.as_str(),
            "Classified deep-space listening posts",
            "Agent network in contested systems",
        )
    } else if same_text(category_name, "economic") {
        three(
            "Trade posts at major hubs",
            "Interstellar cargo fleet",
            "Trade route maps and tariff agreements",
        )
    } else if same_text(category_name, "guild") {
        three(
            "Repair yards at major ports",
            "Informal route intelligence network",
            "Emergency beacon response protocol",
        )
    } else if same_text(category_name, "religious") {
        three(
            "Monastery in distorted space",
            "Extensive records of time-distortion phenomena",
            "Meditation techniques that mitigate temporal disorientation",
        )
    } else if same_text(category_name, "criminal_frontier") {
        three(
            "Hidden depot in frontier space",
            "Salvage fleet \u{2014} three modified haulers",
            "Black market contacts across the frontier",
        )
    } else if same_text(category_name, "criminal_covert") {
        three(
            "Dead drop network across the Near Reach",
            "Encrypted communications infrastructure",
            "Dossiers on key figures in all civilizations",
        )
    } else {
        let r: Vec<String> = Vec::new();
        assert(views(r@) =~= Seq::<Seq<char>>::empty());
        r
    }
}

// ---------------------------------------------------------------------------
// Wiring factions into civilizations
// ---------------------------------------------------------------------------

/// The ids of the civilizations, in order.
pub open spec fn civ_ids(civs: Seq<Civilization>) -> Seq<u128> {
    civs.map_values(|c: Civilization| c.id)
}

/// Civilization `k` is the first one listed with id `id`.
pub open spec fn first_with_id(ids: Seq<u128>, id: u128, k: int) -> bool {
    &&& 0 <= k < ids.len()
    &&& ids[k] == id
    &&& forall|j: int| 0 <= j < k ==> ids[j] != id
}

/// The civilizations a faction's scope names, in order.
pub open spec fn scope_civs(scope: FactionScope) -> Seq<u128> {
    match scope {
        FactionScope::CivInternal { civ_id } => seq![civ_id],
        FactionScope::Transnational { civ_ids } => civ_ids@,
        FactionScope::Independent => Seq::empty(),
    }
}

/// What civilization `k` receives from one faction: its id once for each
/// named civilization that resolves to `k`.
pub open spec fn joins(ids: Seq<u128>, k: int, fid: u128, named: Seq<u128>) -> Seq<u128>
    decreases named.len(),
{
    if named.len() == 0 {
        Seq::empty()
    } else {
        let prev = joins(ids, k, fid, named.drop_last());
        if first_with_id(ids, named.last(), k) {
            prev.push(fid)
        } else {
            prev
        }
    }
}

/// The faction ids civilization `k` receives from all factions, in order.
pub open spec fn wired_ids(ids: Seq<u128>, k: int, factions: Seq<Faction>) -> Seq<u128>
    decreases factions.len(),
{
    if factions.len() == 0 {
        Seq::empty()
    } else {
        let f = factions.last();
        wired_ids(ids, k, factions.drop_last()) + joins(ids, k, f.id, scope_civs(f.scope))
    }
}

/// The position of the first civilization with this id.
fn civ_position(civs: &Vec<Civilization>, id: u128) -> (r: Option<usize>)
    ensures
        match r {
            Some(k) => first_with_id(civ_ids(civs@), id, k as int),
            None => forall|k: int| 0 <= k < civs@.len() ==> !first_with_id(civ_ids(civs@), id, k),
        },
{
    let ghost ids = civ_ids(civs@);
    let mut i: usize = 0;
    while i < civs.len()
        invariant
            i <= civs.len(),
            ids == civ_ids(civs@),
            forall|j: int| 0 <= j < i ==> ids[j] != id,
        decreases civs.len() - i,
    {
        if civs[i].id == id {
            return Some(i);
        }
        i = i + 1;
    }
    None
}

/// Add a faction to the first civilization with the given id, if any.
fn join_first(civs: &mut Vec<Civilization>, civ_id: u128, fid: u128)
    ensures
        final(civs)@.len() == old(civs)@.len(),
        civ_ids(final(civs)@) == civ_ids(old(civs)@),
        forall|k: int| 0 <= k < old(civs)@.len() ==> (#[trigger] final(civs)@[k]).name@ == old(
            civs,
        )@[k].name@ && final(civs)@[k].pressures@ == old(civs)@[k].pressures@
            && final(civs)@[k].faction_ids@ == if first_with_id(
            civ_ids(old(civs)@),
            civ_id,
            k,
        ) {
            old(civs)@[k].faction_ids@.push(fid)
        } else {
            old(civs)@[k].faction_ids@
        },
{
    match civ_position(civs, civ_id) {
        Some(k) => {
            civs[k].faction_ids.push(fid);
            assert(civ_ids(civs@) =~= civ_ids(old(civs)@));
            assert forall|j: int| 0 <= j < old(civs)@.len() && j != k implies !first_with_id(
                civ_ids(old(civs)@),
                civ_id,
                j,
            ) by {}
        },
        None => {},
    }
}

/// Record each faction in the civilizations its scope names: a
/// civilization-internal faction in its parent, a transnational one in
/// every civilization it lists, an independent one nowhere. An id names
/// the first civilization listed with it; ids that name none are skipped.
pub fn wire_factions_into_civs(civs: &mut Vec<Civilization>, factions: &Vec<Faction>)
    ensures
        final(civs)@.len() == old(civs)@.len(),
        forall|k: int| #![trigger final(civs)@[k]] 0 <= k < old(civs)@.len() ==> {
            &&& final(civs)@[k].id == old(civs)@[k].id
            &&& final(civs)@[k].name@ == old(civs)@[k].name@
            &&& final(civs)@[k].pressures@ == old(civs)@[k].pressures@
            &&& final(civs)@[k].faction_ids@ == old(civs)@[k].faction_ids@ + wired_ids(
                civ_ids(old(civs)@),
                k,
                factions@,
            )
        },
{
    let ghost orig = civs@;
    let ghost ids = civ_ids(orig);
    let mut i: usize = 0;
    while i < factions.len()
        invariant
            i <= factions.len(),
            civs@.len() == orig.len(),
            ids == civ_ids(orig),
            civ_ids(civs@) == ids,
            forall|k: int| 0 <= k < orig.len() ==> (#[trigger] civs@[k]).name@ == orig[k].name@
                && civs@[k].pressures@ == orig[k].pressures@
                && civs@[k].faction_ids@ == orig[k].faction_ids@ + wired_ids(
                ids,
                k,
                factions@.take(i as int),
            ),
        decreases factions.len() - i,
    {
        assert(factions@.take(i as int + 1).drop_last() =~= factions@.take(i as int));
        let fid = factions[i].id;
        let ghost before = civs@;
        let ghost named = scope_civs(factions@[i as int].scope);
        match &factions[i].scope {
            FactionScope::CivInternal { civ_id } => {
                join_first(civs, *civ_id, fid);
                proof {
                    assert(named =~= seq![*civ_id]);
                    assert(named.drop_last() =~= Seq::<u128>::empty());
                    assert forall|k: int| 0 <= k < orig.len() implies (#[trigger] civs@[k]).faction_ids@
                        == orig[k].faction_ids@ + wired_ids(ids, k, factions@.take(i as int + 1)) by {
                        assert(civ_ids(before)[k] == before[k].id);
                        assert(wired_ids(ids, k, factions@.take(i as int + 1)) == wired_ids(
                            ids,
                            k,
                            factions@.take(i as int),
                        ) + joins(ids, k, fid, named));
                        assert(named.last() == *civ_id);
                        assert(joins(ids, k, fid, named.drop_last()) =~= Seq::<u128>::empty());
                        if first_with_id(ids, *civ_id, k) {
                            assert(joins(ids, k, fid, named) =~= seq![fid]);
                        } else {
                            assert(joins(ids, k, fid, named) =~= Seq::<u128>::empty());
                        }
                    }
                }
            },
            FactionScope::Transnational { civ_ids: listed } => {
                let mut j: usize = 0;
                while j < listed.len()
                    invariant
                        j <= listed.len(),
                        named == listed@,
                        civs@.len() == orig.len(),
                        civ_ids(civs@) == ids,
                        forall|k: int| 0 <= k < orig.len() ==> (#[trigger] civs@[k]).name@
                            == orig[k].name@ && civs@[k].pressures@ == orig[k].pressures@
                            && civs@[k].faction_ids@ == orig[k].faction_ids@
                            + wired_ids(ids, k, factions@.take(i as int)) + joins(
                            ids,
                            k,
                            fid,
                            listed@.take(j as int),
                        ),
                    decreases listed.len() - j,
                {
                    assert(listed@.take(j as int + 1).drop_last() =~= listed@.take(j as int));
                    join_first(civs, listed[j], fid);
                    j = j + 1;
                }
                proof {
                    assert(listed@.take(j as int) =~= listed@);
                    assert forall|k: int| 0 <= k < orig.len() implies (#[trigger] civs@[k]).faction_ids@
                        == orig[k].faction_ids@ + wired_ids(ids, k, factions@.take(i as int + 1)) by {
                        assert(wired_ids(ids, k, factions@.take(i as int + 1)) == wired_ids(
                            ids,
                            k,
                            factions@.take(i as int),
                        ) + joins(ids, k, fid, named));
                    }
                }
            },
            FactionScope::Independent => {
                proof {
                    assert forall|k: int| 0 <= k < orig.len() implies (#[trigger] civs@[k]).faction_ids@
                        == orig[k].faction_ids@ + wired_ids(ids, k, factions@.take(i as int + 1)) by {
                        assert(joins(ids, k, fid, named) =~= Seq::<u128>::empty());
                        assert(wired_ids(ids, k, factions@.take(i as int + 1)) =~= wired_ids(
                            ids,
                            k,
                            factions@.take(i as int),
                        ));
                    }
                }
            },
        }
        i = i + 1;
    }
    proof {
        assert(factions@.take(i as int) =~= factions@);
        assert forall|k: int| 0 <= k < orig.len() implies #[trigger] civs@[k].id == orig[k].id by {
            assert(civ_ids(civs@)[k] == civ_ids(orig)[k]);
        }
    }
}

/// One of the civilizations a faction's scope names resolves to `k`.
pub open spec fn names_civ(ids: Seq<u128>, k: int, f: Faction) -> bool {
    exists|j: int| 0 <= j < scope_civs(f.scope).len()
        && first_with_id(ids, #[trigger] scope_civs(f.scope)[j], k)
}

proof fn lemma_concat_contains(a: Seq<u128>, b: Seq<u128>, x: u128)
    ensures
        (a + b).contains(x) <==> a.contains(x) || b.contains(x),
{
    if (a + b).contains(x) {
        let i = choose|i: int| 0 <= i < (a + b).len() && (a + b)[i] == x;
        if i < a.len() {
            assert(a[i] == x);
        } else {
            assert(b[i - a.len()] == x);
        }
    }
    if a.contains(x) {
        let i = choose|i: int| 0 <= i < a.len() && a[i] == x;
        assert((a + b)[i] == x);
    }
    if b.contains(x) {
        let i = choose|i: int| 0 <= i < b.len() && b[i] == x;
        assert((a + b)[a.len() + i] == x);
    }
}

proof fn lemma_joins_contains(ids: Seq<u128>, k: int, fid: u128, named: Seq<u128>, x: u128)
    ensures
        joins(ids, k, fid, named).contains(x) <==> (x == fid && exists|j: int| 0 <= j < named.len()
            && first_with_id(ids, #[trigger] named[j], k)),
    decreases named.len(),
{
    if named.len() > 0 {
        let init = named.drop_last();
        lemma_joins_contains(ids, k, fid, init, x);
        let prev = joins(ids, k, fid, init);
        let last = named.len() - 1;
        assert(named[last] == named.last());
        if first_with_id(ids, named.last(), k) {
            assert(joins(ids, k, fid, named) == prev.push(fid));
            lemma_concat_contains(prev, seq![fid], x);
            assert(prev.push(fid) =~= prev + seq![fid]);
            if x == fid {
                assert(seq![fid][0] == x);
            }
        }
        if exists|j: int| 0 <= j < named.len() && first_with_id(ids, #[trigger] named[j], k) {
            let j = choose|j: int| 0 <= j < named.len() && first_with_id(ids, #[trigger] named[j], k);
            if j < init.len() {
                assert(init[j] == named[j]);
            }
        }
        if exists|j: int| 0 <= j < init.len() && first_with_id(ids, #[trigger] init[j], k) {
            let j = choose|j: int| 0 <= j < init.len() && first_with_id(ids, #[trigger] init[j], k);
            assert(init[j] == named[j]);
        }
    }
}

/// A civilization lists a faction after wiring exactly when the faction's
/// scope names that civilization: its parent for a civilization-internal
/// faction, any listed one for a transnational faction, and never for an
/// independent faction.
pub proof fn law_wiring_exact(ids: Seq<u128>, k: int, factions: Seq<Faction>)
    ensures
        forall|x: u128| #[trigger] wired_ids(ids, k, factions).contains(x) <==> exists|i: int|
            0 <= i < factions.len() && (#[trigger] factions[i]).id == x && names_civ(
                ids,
                k,
                factions[i],
            ),
    decreases factions.len(),
{
    if factions.len() > 0 {
        let init = factions.drop_last();
        law_wiring_exact(ids, k, init);
        let f = factions.last();
        let last = factions.len() - 1;
        assert(factions[last] == f);
        let prev = wired_ids(ids, k, init);
        let add = joins(ids, k, f.id, scope_civs(f.scope));
        assert forall|x: u128| #[trigger] wired_ids(ids, k, factions).contains(x) <==> exists|i: int|
            0 <= i < factions.len() && (#[trigger] factions[i]).id == x && names_civ(
                ids,
                k,
                factions[i],
            ) by {
            lemma_concat_contains(prev, add, x);
            lemma_joins_contains(ids, k, f.id, scope_civs(f.scope), x);
            if exists|i: int| 0 <= i < factions.len() && (#[trigger] factions[i]).id == x
                && names_civ(ids, k, factions[i]) {
                let i = choose|i: int| 0 <= i < factions.len() && (#[trigger] factions[i]).id == x
                    && names_civ(ids, k, factions[i]);
                if i < init.len() {
                    assert(init[i] == factions[i]);
                }
            }
            if prev.contains(x) {
                let i = choose|i: int| 0 <= i < init.len() && (#[trigger] init[i]).id == x
                    && names_civ(ids, k, init[i]);
                assert(factions[i] == init[i]);
            }
        }
    }
}

// ---------------------------------------------------------------------------
// Random picks
// ---------------------------------------------------------------------------

/// `r` holds items of `pool` taken at distinct positions.
pub open spec fn distinct_picks(pool: Seq<String>, r: Seq<String>) -> bool {
    exists|idx: Seq<int>| #![trigger idx.len()]
        idx.len() == r.len() && idx.no_duplicates() && forall|k: int| #![trigger idx[k]]
            0 <= k < idx.len() ==> 0 <= idx[k] < pool.len() && r[k]@ == pool[idx[k]]@
}

/// Pick between `min` and `max` items of a pool (as many as it has, if
/// fewer), each position at most once, in random order. An empty pool
/// gives nothing; otherwise `min` must not exceed `max`.
pub fn pick_items(pool: &Vec<String>, min: usize, max: usize, rng: &mut StdRng) -> (r: Vec<String>)
    requires
        pool@.len() > 0 ==> min <= max,
    ensures
        pool@.len() == 0 ==> r@.len() == 0,
        pool@.len() > 0 ==> {
            &&& (if min < pool@.len() { min as int } else { pool@.len() as int }) <= r@.len()
            &&& r@.len() <= (if max < pool@.len() { max as int } else { pool@.len() as int })
        },
        distinct_picks(pool@, r@),
{
    let n = pool.len();
    if n == 0 {
        let r: Vec<String> = Vec::new();
        assert(distinct_picks(pool@, r@)) by {
            let idx = Seq::<int>::empty();
            assert(idx.len() == r@.len());
        }
        return r;
    }
    let drawn = draw_between(rng, min, max);
    let count = if drawn < n { drawn } else { n };
    let mut indices: Vec<usize> = Vec::new();
    let mut k: usize = 0;
    while k < n
        invariant
            k <= n,
            indices@.len() == k,
            forall|m: int| 0 <= m < k ==> indices@[m] == m,
        decreases n - k,
    {
        indices.push(k);
        k = k + 1;
    }
    // Fisher-Yates, stopped after `count` positions.
    let mut i: usize = 0;
    while i < count
        invariant
            count <= n,
            i <= count,
            indices@.len() == n,
            indices@.no_duplicates(),
            forall|m: int| 0 <= m < n ==> indices@[m] < n,
        decreases count - i,
    {
        let j = draw_below(rng, i, n);
        let a = indices[i];
        let b = indices[j];
        indices.set(i, b);
        indices.set(j, a);
        i = i + 1;
    }
    let mut r: Vec<String> = Vec::new();
    let mut m: usize = 0;
    while m < count
        invariant
            count <= n,
            m <= count,
            n == pool@.len(),
            indices@.len() == n,
            indices@.no_duplicates(),
            forall|q: int| 0 <= q < n ==> indices@[q] < n,
            r@.len() == m,
            forall|q: int| 0 <= q < m ==> r@[q]@ == pool@[indices@[q] as int]@,
        decreases count - m,
    {
        r.push(pool[indices[m]].clone());
        m = m + 1;
    }
    assert(distinct_picks(pool@, r@)) by {
        let idx = Seq::new(count as nat, |q: int| indices@[q] as int);
        assert(idx.len() == r@.len());
        assert forall|k: int| 0 <= k < idx.len() implies 0 <= #[trigger] idx[k] < pool@.len()
            && r@[k]@ == pool@[idx[k]]@ by {}
        assert(idx.no_duplicates()) by {
            assert forall|a: int, b: int| 0 <= a < idx.len() && 0 <= b < idx.len() && a != b implies idx[a]
                != idx[b] by {
                assert(indices@[a] != indices@[b]);
            }
        }
    }
    r
}

/// A generated name for a system the templates could not name:
/// "System <position>-<three digits>".
pub open spec fn fallback_system_name(index: usize, serial: int) -> Seq<char> {
    "System "@ + decimal((index + 1) as nat) + "-"@ + decimal(serial as nat)
}

/// Name the `index`th system (counting from zero) when no template name is
/// left, with a random serial from 100 to 998.
pub fn fallback_name(rng: &mut StdRng, index: usize) -> (r: String)
    requires
        index < u64::MAX,
    ensures
        exists|serial: int| 100 <= serial < 999 && r@ == fallback_system_name(index, serial),
{
    let serial = draw_below(rng, 100, 999);
    let mut r = "System ".to_owned();
    let position = decimal_string(index as u64 + 1);
    r.append(position.as_str());
    r.append("-");
    let digits = decimal_string(serial as u64);
    r.append(digits.as_str());
    assert(r@ == fallback_system_name(index, serial as int));
    r
}

/// The bio templates for a species: those under its key when present,
/// otherwise the human ones, otherwise none.
pub open spec fn bio_pool(pool: TemplatePool, species_key: Seq<char>) -> Seq<String> {
    match lookup(pool.entries@, species_key) {
        Some(t) => t,
        None => offered(pool, "human"@),
    }
}

/// A bio template with its placeholders filled in.
pub open spec fn bio_filled(t: Seq<char>, system: Seq<char>, note: Seq<char>, p: Pronouns) -> Seq<
    char,
> {
    let a = replaced(t, "{system}"@, system);
    let b = replaced(a, "{personality_note}"@, note);
    let c = replaced(b, "{pronoun.subject}"@, p.subject@);
    let d = replaced(c, "{pronoun.object}"@, p.object@);
    let e = replaced(d, "{pronoun.possessive}"@, p.possessive@);
    replaced(e, "{pronoun.subject_cap}"@, p.subject_cap@)
}

/// The bio used when no template fits.
pub open spec fn plain_bio(system: Seq<char>, note: Seq<char>) -> Seq<char> {
    "Posted at "@ + system + ". "@ + note + "."@
}

/// Fill a bio template's placeholders.
fn fill_bio(template: &str, system_name: &str, personality_note: &str, pronouns: &Pronouns) -> (r:
    String)
    ensures
        r@ == bio_filled(template@, system_name@, personality_note@, *pronouns),
{
    proof {
        reveal_strlit("{system}");
        reveal_strlit("{personality_note}");
        reveal_strlit("{pronoun.subject}");
        reveal_strlit("{pronoun.object}");
        reveal_strlit("{pronoun.possessive}");
        reveal_strlit("{pronoun.subject_cap}");
    }
    let a = replace_all(template, "{system}", system_name);
    let b = replace_all(a.as_str(), "{personality_note}", personality_note);
    let c = replace_all(b.as_str(), "{pronoun.subject}", pronouns.subject.as_str());
    let d = replace_all(c.as_str(), "{pronoun.object}", pronouns.object.as_str());
    let e = replace_all(d.as_str(), "{pronoun.possessive}", pronouns.possessive.as_str());
    replace_all(e.as_str(), "{pronoun.subject_cap}", pronouns.subject_cap.as_str())
}

/// Pick a bio template for the species (falling back to the human ones)
/// and fill in the system, the personality note and the pronouns; with no
/// template, a plain "Posted at ..." line.
pub fn pick_bio(
    bio_templates: &TemplatePool,
    species_key: &str,
    system_name: &str,
    personality_note: &str,
    pronouns: &Pronouns,
    rng: &mut StdRng,
) -> (r: String)
    ensures
        drawn_from(
            bio_pool(*bio_templates, species_key@),
            |t: Seq<char>| bio_filled(t, system_name@, personality_note@, *pronouns),
            plain_bio(system_name@, personality_note@),
            r@,
        ),
{
    let templates = match bio_templates.get(species_key) {
        Some(t) => Some(t),
        None => bio_templates.get("human"),
    };
    let chosen = match templates {
        Some(t) => pick_template(t, rng),
        None => None,
    };
    match chosen {
        Some(t) => fill_bio(t.as_str(), system_name, personality_note, pronouns),
        None => {
            let mut r = "Posted at ".to_owned();
            r.append(system_name);
            r.append(". ");
            r.append(personality_note);
            r.append(".");
            r
        },
    }
}

// ---------------------------------------------------------------------------
// Pressures
// ---------------------------------------------------------------------------

/// The id of the first faction of a category, if any.
pub open spec fn first_of_category(factions: Seq<Faction>, c: FactionCategory) -> Option<u128>
    decreases factions.len(),
{
    if factions.len() == 0 {
        None
    } else if factions[0].category == c {
        Some(factions[0].id)
    } else {
        first_of_category(factions.drop_first(), c)
    }
}

fn find_category(factions: &Vec<Faction>, c: FactionCategory) -> (r: Option<u128>)
    ensures
        r == first_of_category(factions@, c),
{
    let mut i: usize = 0;
    assert(factions@.skip(0) =~= factions@);
    while i < factions.len()
        invariant
            i <= factions.len(),
            first_of_category(factions@, c) == first_of_category(factions@.skip(i as int), c),
        decreases factions.len() - i,
    {
        assert(factions@.skip(i as int).drop_first() =~= factions@.skip(i as int + 1));
        if factions[i].category == c {
            return Some(factions[i].id);
        }
        i = i + 1;
    }
    None
}

/// The faction behind a pressure, judged from its lower-cased description:
/// military talk points to the military faction, trade talk to the
/// economic one, religious talk to the religious one; otherwise the
/// source stays as it was.
pub open spec fn pressure_source(
    lower: Seq<char>,
    military: Option<u128>,
    economic: Option<u128>,
    religious: Option<u128>,
    current: Option<u128>,
) -> Option<u128> {
    if crate::text::contains_text(lower, "military"@) || crate::text::contains_text(lower, "defense"@)
        || crate::text::contains_text(lower, "hawks"@) {
        military
    } else if crate::text::contains_text(lower, "trade"@) || crate::text::contains_text(
        lower,
        "tariff"@,
    ) || crate::text::contains_text(lower, "commercial"@) {
        economic
    } else if crate::text::contains_text(lower, "religious"@) || crate::text::contains_text(
        lower,
        "cultural oversight"@,
    ) {
        religious
    } else {
        current
    }
}

/// The faction an already lower-cased pressure description speaks of:
/// the military one for military, defense or hawks, the economic one for
/// trade, tariffs or commerce, the religious one for religion or cultural
/// oversight, and otherwise the source it already has.
pub fn pressure_source_for_key(
    lower: &str,
    military: Option<u128>,
    economic: Option<u128>,
    religious: Option<u128>,
    current: Option<u128>,
) -> (r: Option<u128>)
    ensures
        r == pressure_source(lower@, military, economic, religious, current),
{
    let d = lower;
    if crate::text::contains(d, "military") || crate::text::contains(d, "defense")
        || crate::text::contains(d, "hawks") {
        military
    } else if crate::text::contains(d, "trade") || crate::text::contains(d, "tariff")
        || crate::text::contains(d, "commercial") {
        economic
    } else if crate::text::contains(d, "religious") || crate::text::contains(d, "cultural oversight") {
        religious
    } else {
        current
    }
}

fn source_for(
    description: &str,
    military: Option<u128>,
    economic: Option<u128>,
    religious: Option<u128>,
    current: Option<u128>,
) -> (r: Option<u128>)
    ensures
        r == pressure_source(lowercase(description@), military, economic, religious, current),
{
    let lower = to_lower(description);
    pressure_source_for_key(lower.as_str(), military, economic, religious, current)
}

/// Link each civilization's pressures to the faction they speak of: the
/// first military, economic or religious faction listed.
pub fn wire_pressure_sources(civs: &mut Vec<Civilization>, factions: &Vec<Faction>)
    ensures
        final(civs)@.len() == old(civs)@.len(),
        forall|k: int| #![trigger final(civs)@[k]] 0 <= k < old(civs)@.len() ==> {
            &&& final(civs)@[k].id == old(civs)@[k].id
            &&& final(civs)@[k].name@ == old(civs)@[k].name@
            &&& final(civs)@[k].faction_ids@ == old(civs)@[k].faction_ids@
            &&& final(civs)@[k].pressures@.len() == old(civs)@[k].pressures@.len()
            &&& forall|p: int| #![trigger final(civs)@[k].pressures@[p]]
                0 <= p < old(civs)@[k].pressures@.len() ==> {
                    let before = old(civs)@[k].pressures@[p];
                    let after = final(civs)@[k].pressures@[p];
                    &&& after.description@ == before.description@
                    &&& after.source_faction == pressure_source(
                        lowercase(before.description@),
                        first_of_category(factions@, FactionCategory::Military),
                        first_of_category(factions@, FactionCategory::Economic),
                        first_of_category(factions@, FactionCategory::Religious),
                        before.source_faction,
                    )
                }
        },
{
    let military = find_category(factions, FactionCategory::Military);
    let economic = find_category(factions, FactionCategory::Economic);
    let religious = find_category(factions, FactionCategory::Religious);
    let ghost orig = civs@;
    let mut k: usize = 0;
    while k < civs.len()
        invariant
            k <= civs@.len(),
            civs@.len() == orig.len(),
            military == first_of_category(factions@, FactionCategory::Military),
            economic == first_of_category(factions@, FactionCategory::Economic),
            religious == first_of_category(factions@, FactionCategory::Religious),
            forall|q: int| k <= q < orig.len() ==> #[trigger] civs@[q] == orig[q],
            forall|q: int| #![trigger civs@[q]] 0 <= q < k ==> {
                &&& civs@[q].id == orig[q].id
                &&& civs@[q].name@ == orig[q].name@
                &&& civs@[q].faction_ids@ == orig[q].faction_ids@
                &&& civs@[q].pressures@.len() == orig[q].pressures@.len()
                &&& forall|p: int| #![trigger civs@[q].pressures@[p]]
                    0 <= p < orig[q].pressures@.len() ==> {
                        &&& civs@[q].pressures@[p].description@ == orig[q].pressures@[p].description@
                        &&& civs@[q].pressures@[p].source_faction == pressure_source(
                            lowercase(orig[q].pressures@[p].description@),
                            military,
                            economic,
                            religious,
                            orig[q].pressures@[p].source_faction,
                        )
                    }
            },
        decreases civs@.len() - k,
    {
        let n = civs[k].pressures.len();
        let ghost start = civs@;
        let mut p: usize = 0;
        while p < n
            invariant
                k < civs@.len(),
                civs@.len() == orig.len(),
                n == orig[k as int].pressures@.len(),
                p <= n,
                forall|q: int| 0 <= q < orig.len() && q != k ==> #[trigger] civs@[q] == start[q],
                civs@[k as int].id == orig[k as int].id,
                civs@[k as int].name@ == orig[k as int].name@,
                civs@[k as int].faction_ids@ == orig[k as int].faction_ids@,
                civs@[k as int].pressures@.len() == n,
                forall|t: int| p <= t < n ==> #[trigger] civs@[k as int].pressures@[t]
                    == orig[k as int].pressures@[t],
                forall|t: int| #![trigger civs@[k as int].pressures@[t]] 0 <= t < p ==> {
                    &&& civs@[k as int].pressures@[t].description@
                        == orig[k as int].pressures@[t].description@
                    &&& civs@[k as int].pressures@[t].source_faction == pressure_source(
                        lowercase(orig[k as int].pressures@[t].description@),
                        military,
                        economic,
                        religious,
                        orig[k as int].pressures@[t].source_faction,
                    )
                },
            decreases n - p,
        {
            let current = civs[k].pressures[p].source_faction;
            let updated = source_for(
                civs[k].pressures[p].description.as_str(),
                military,
                economic,
                religious,
                current,
            );
            civs[k].pressures[p].source_faction = updated;
            p = p + 1;
        }
        k = k + 1;
    }
}

/// The faction found for a category is one of the listed factions, and
/// of that category.
proof fn lemma_first_of_category(factions: Seq<Faction>, c: FactionCategory)
    ensures
        first_of_category(factions, c) matches Some(id) ==> exists|i: int| 0 <= i < factions.len()
            && factions[i].id == id && factions[i].category == c,
    decreases factions.len(),
{
    if factions.len() > 0 && factions[0].category != c {
        lemma_first_of_category(factions.drop_first(), c);
        if first_of_category(factions, c) is Some {
            let id = first_of_category(factions, c)->0;
            let i = choose|i: int| 0 <= i < factions.drop_first().len()
                && factions.drop_first()[i].id == id && factions.drop_first()[i].category == c;
            assert(factions[i + 1] == factions.drop_first()[i]);
        }
    }
}

/// Wiring only ever links a pressure to a listed faction of the matching
/// kind, clears it when no such faction exists, or leaves it as it was: a
/// military-sounding pressure goes to the first military faction, a
/// trade-sounding one to the first economic faction, a religious-sounding
/// one to the first religious faction.
pub proof fn law_pressure_sources_valid(lower: Seq<char>, factions: Seq<Faction>, current: Option<u128>)
    ensures
        ({
            let r = pressure_source(
                lower,
                first_of_category(factions, FactionCategory::Military),
                first_of_category(factions, FactionCategory::Economic),
                first_of_category(factions, FactionCategory::Religious),
                current,
            );
            r == current || r is None || exists|i: int| 0 <= i < factions.len() && r == Some(
                factions[i].id,
            ) && (factions[i].category == FactionCategory::Military || factions[i].category
                == FactionCategory::Economic || factions[i].category == FactionCategory::Religious)
        }),
{
    let mil = first_of_category(factions, FactionCategory::Military);
    let eco = first_of_category(factions, FactionCategory::Economic);
    let rel = first_of_category(factions, FactionCategory::Religious);
    let r = pressure_source(lower, mil, eco, rel, current);
    lemma_first_of_category(factions, FactionCategory::Military);
    lemma_first_of_category(factions, FactionCategory::Economic);
    lemma_first_of_category(factions, FactionCategory::Religious);
    if r != current && r is Some {
        if r == mil {
            let i = choose|i: int| 0 <= i < factions.len() && factions[i].id == mil->0
                && factions[i].category == FactionCategory::Military;
            assert(r == Some(factions[i].id));
        } else if r == eco {
            let i = choose|i: int| 0 <= i < factions.len() && factions[i].id == eco->0
                && factions[i].category == FactionCategory::Economic;
            assert(r == Some(factions[i].id));
        } else {
            assert(r == rel);
            let i = choose|i: int| 0 <= i < factions.len() && factions[i].id == rel->0
                && factions[i].category == FactionCategory::Religious;
            assert(r == Some(factions[i].id));
        }
    }
}

/// The pressures a civilization's temperament can give rise to, in order.
pub open spec fn pressure_pool() -> Seq<Seq<char>> {
    seq![
        "Military factions push for increased defense spending along the frontier"@,
        "Expansionist elements lobby for new colony charters in unclaimed space"@,
        "Border-closure advocates gain popular support in the inner systems"@,
        "Trade guilds pressure the government for reduced tariffs"@,
        "Religious authorities demand greater cultural oversight"@,
        "Tension between communal ideals and growing commercial interests"@,
        "Hawks and diplomats clash over foreign policy direction"@,
        "Technocratic elite face populist pushback from outer colonies"@,
        "Stagnation concerns \u{2014} neither expanding nor consolidating"@,
        "Outer colony autonomy movements gaining support"@,
    ]
}

/// The pressure used when none of the pool applies.
pub open spec fn quiet_pressure() -> Seq<char> {
    "Shifting demographics reshape the political landscape"@
}

fn pool_entry(i: usize) -> (r: &'static str)
    requires
        i < 10,
    ensures
        r@ == pressure_pool()[i as int],
{
    match i {
        0 => "Military factions push for increased defense spending along the frontier",
        1 => "Expansionist elements lobby for new colony charters in unclaimed space",
        2 => "Border-closure advocates gain popular support in the inner systems",
        3 => "Trade guilds pressure the government for reduced tariffs",
        4 => "Religious authorities demand greater cultural oversight",
        5 => "Tension between communal ideals and growing commercial interests",
        6 => "Hawks and diplomats clash over foreign policy direction",
        7 => "Technocratic elite face populist pushback from outer colonies",
        8 => "Stagnation concerns \u{2014} neither expanding nor consolidating",
        _ => "Outer colony autonomy movements gaining support",
    }
}

/// The first `n` pool entries whose condition holds, in pool order.
pub open spec fn applicable(applies: Seq<bool>, n: nat) -> Seq<Seq<char>>
    decreases n,
{
    if n == 0 {
        Seq::empty()
    } else {
        let prev = applicable(applies, (n - 1) as nat);
        if n - 1 < applies.len() && applies[n - 1] {
            prev.push(pressure_pool()[n - 1])
        } else {
            prev
        }
    }
}

/// The pool entries whose condition holds, in pool order; the quiet
/// pressure alone when none does.
pub open spec fn eligible_pressures(applies: Seq<bool>) -> Seq<Seq<char>> {
    if applicable(applies, 10).len() == 0 {
        seq![quiet_pressure()]
    } else {
        applicable(applies, 10)
    }
}

/// The positions `0..n` in order.
fn positions(n: usize) -> (r: Vec<usize>)
    ensures
        r@.len() == n,
        forall|m: int| 0 <= m < n ==> r@[m] == m,
{
    let mut r: Vec<usize> = Vec::new();
    let mut k: usize = 0;
    while k < n
        invariant
            k <= n,
            r@.len() == k,
            forall|m: int| 0 <= m < k ==> r@[m] == m,
        decreases n - k,
    {
        r.push(k);
        k = k + 1;
    }
    r
}

/// A shuffled list of positions `0..n` holds each position once.
proof fn lemma_shuffled_positions(before: Seq<usize>, after: Seq<usize>, n: nat)
    requires
        before.len() == n,
        forall|m: int| 0 <= m < n ==> before[m] == m,
        after.to_multiset() == before.to_multiset(),
    ensures
        after.len() == n,
        after.no_duplicates(),
        forall|m: int| 0 <= m < after.len() ==> after[m] < n,
{
    broadcast use vstd::seq_lib::group_to_multiset_ensures;

    assert(after.len() == after.to_multiset().len());
    assert(before.len() == before.to_multiset().len());
    assert(before.no_duplicates());
    before.lemma_multiset_has_no_duplicates();
    after.lemma_multiset_has_no_duplicates_conv();
    assert forall|m: int| 0 <= m < after.len() implies after[m] < n by {
        assert(after.contains(after[m]));
        assert(after.to_multiset().count(after[m]) > 0);
        assert(before.to_multiset().count(after[m]) > 0);
        assert(before.contains(after[m]));
    }
}

/// Draw a civilization's starting pressures: between one and three of the
/// eligible ones (as many as there are, if fewer), each at most once, in
/// random order, none yet tied to a faction. `applies[i]` says whether the
/// civilization's temperament calls for the `i`th pool entry.
pub fn select_pressures(applies: &Vec<bool>, rng: &mut StdRng) -> (r: Vec<CivPressure>)
    ensures
        1 <= r@.len() <= 3,
        r@.len() <= eligible_pressures(applies@).len(),
        exists|idx: Seq<int>| #![trigger idx.len()]
            idx.len() == r@.len() && idx.no_duplicates() && forall|k: int| #![trigger idx[k]]
                0 <= k < idx.len() ==> 0 <= idx[k] < eligible_pressures(applies@).len()
                    && r@[k].description@ == eligible_pressures(applies@)[idx[k]]
                    && r@[k].source_faction is None,
{
    let mut eligible: Vec<&str> = Vec::new();
    let mut i: usize = 0;
    while i < 10
        invariant
            i <= 10,
            eligible@.len() == applicable(applies@, i as nat).len(),
            forall|m: int| 0 <= m < eligible@.len() ==> eligible@[m]@ == #[trigger] applicable(
                applies@,
                i as nat,
            )[m],
        decreases 10 - i,
    {
        if i < applies.len() && applies[i] {
            eligible.push(pool_entry(i));
        }
        i = i + 1;
    }
    if eligible.len() == 0 {
        eligible.push("Shifting demographics reshape the political landscape");
    }
    assert(eligible@.len() == eligible_pressures(applies@).len());
    assert(forall|m: int| 0 <= m < eligible@.len() ==> eligible@[m]@ == #[trigger] eligible_pressures(
        applies@,
    )[m]);
    let n = eligible.len();
    let most = if n < 3 { n } else { 3 };
    let count = draw_between(rng, 1, most);
    let mut order = positions(n);
    let ghost before = order@;
    shuffle_positions(&mut order, rng);
    proof {
        lemma_shuffled_positions(before, order@, n as nat);
    }
    let mut r: Vec<CivPressure> = Vec::new();
    let mut m: usize = 0;
    while m < count
        invariant
            count <= n,
            m <= count,
            n == eligible@.len(),
            order@.len() == n,
            order@.no_duplicates(),
            forall|q: int| 0 <= q < n ==> order@[q] < n,
            r@.len() == m,
            forall|q: int| 0 <= q < m ==> r@[q].description@ == eligible@[order@[q] as int]@
                && r@[q].source_faction is None,
        decreases count - m,
    {
        r.push(CivPressure { description: eligible[order[m]].to_owned(), source_faction: None });
        m = m + 1;
    }
    proof {
        let idx = Seq::new(count as nat, |q: int| order@[q] as int);
        assert(idx.len() == r@.len());
        assert forall|k: int| 0 <= k < idx.len() implies 0 <= #[trigger] idx[k]
            < eligible_pressures(applies@).len() && r@[k].description@ == eligible_pressures(
            applies@,
        )[idx[k]] && r@[k].source_faction is None by {
            assert(eligible@[idx[k]]@ == eligible_pressures(applies@)[idx[k]]);
        }
        assert forall|a: int, b: int| 0 <= a < idx.len() && 0 <= b < idx.len() && a != b implies idx[a]
            != idx[b] by {
            assert(order@[a] != order@[b]);
        }
    }
    r
}

// ---------------------------------------------------------------------------
// Name parts still available
// ---------------------------------------------------------------------------

/// Positions among the first `n` suffixes whose name is not used yet.
pub open spec fn unused_positions(names: Seq<String>, used: Seq<String>, n: nat) -> Seq<usize>
    decreases n,
{
    if n == 0 {
        Seq::empty()
    } else {
        let prev = unused_positions(names, used, (n - 1) as nat);
        if !lists_text(used, names[n - 1]@) {
            prev.push((n - 1) as usize)
        } else {
            prev
        }
    }
}

pub(crate) fn lists(names: &Vec<String>, t: &str) -> (r: bool)
    ensures
        r == lists_text(names@, t@),
{
    let mut i: usize = 0;
    while i < names.len()
        invariant
            i <= names.len(),
            forall|q: int| 0 <= q < i ==> names@[q]@ != t@,
        decreases names.len() - i,
    {
        if same_text(names[i].as_str(), t) {
            return true;
        }
        i = i + 1;
    }
    false
}

/// The positions of the suffixes no civilization uses yet, in order.
pub fn unused_suffix_positions(suffix_names: &Vec<String>, used: &Vec<String>) -> (r: Vec<usize>)
    ensures
        r@ == unused_positions(suffix_names@, used@, suffix_names@.len()),
{
    let mut r: Vec<usize> = Vec::new();
    let mut i: usize = 0;
    while i < suffix_names.len()
        invariant
            i <= suffix_names.len(),
            r@ == unused_positions(suffix_names@, used@, i as nat),
        decreases suffix_names.len() - i,
    {
        if !lists(used, suffix_names[i].as_str()) {
            r.push(i);
        }
        i = i + 1;
    }
    r
}

/// Positions among the first `n` prefixes that may be combined with the
/// suffix.
pub open spec fn compatible_positions(
    names: Seq<String>,
    pairs: Seq<(String, Vec<String>)>,
    suffix: Seq<char>,
    n: nat,
) -> Seq<usize>
    decreases n,
{
    if n == 0 {
        Seq::empty()
    } else {
        let prev = compatible_positions(names, pairs, suffix, (n - 1) as nat);
        if !blocked(pairs, names[n - 1]@, suffix) {
            prev.push((n - 1) as usize)
        } else {
            prev
        }
    }
}

/// The positions of the prefixes the compatibility table allows with the
/// suffix, in order.
pub fn compatible_prefix_positions(
    prefix_names: &Vec<String>,
    compatibility: &CivCompatibility,
    suffix: &str,
) -> (r: Vec<usize>)
    ensures
        r@ == compatible_positions(
            prefix_names@,
            compatibility.blocked_pairs@,
            suffix@,
            prefix_names@.len(),
        ),
{
    let mut r: Vec<usize> = Vec::new();
    let mut i: usize = 0;
    while i < prefix_names.len()
        invariant
            i <= prefix_names.len(),
            r@ == compatible_positions(
                prefix_names@,
                compatibility.blocked_pairs@,
                suffix@,
                i as nat,
            ),
        decreases prefix_names.len() - i,
    {
        if !compatibility.is_blocked(prefix_names[i].as_str(), suffix) {
            r.push(i);
        }
        i = i + 1;
    }
    r
}

} // verus!
