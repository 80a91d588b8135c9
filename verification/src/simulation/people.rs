//! Naming the people of the galaxy: which culture's names a person draws
//! from, and the name drawn for each kind of person.

use rand::rngs::StdRng;
use vstd::prelude::*;

use crate::rng::{draw_below, draw_ratio};
use crate::simulation::galaxy::{infra_rank, InfrastructureLevel};
use crate::simulation::generate::{
    infra_for_key, infra_level_rank, lists, lowercase, parse_infra_level, to_lower,
};
use crate::simulation::templates::lists_text;
use crate::text::{contains, contains_text, first_word, first_word_of};

verus! {

#[derive(Debug, Clone, Copy, PartialEq, Eq, Structural)]
pub enum BiologicalSex {
    Male,
    Female,
}

/// What kind of person someone is, as far as naming goes.
#[derive(Debug, Clone)]
pub enum Species {
    Human { sex: BiologicalSex },
    Synthetic { chassis: String },
    Alien { kind: String },
}

/// Given names by sex, and family names.
#[derive(Debug, Clone)]
pub struct NameSet {
    pub given_male: Vec<String>,
    pub given_female: Vec<String>,
    pub family: Vec<String>,
}

/// Human names: sets tagged with the culture they belong to, in the order
/// they are tried, and the set used when no culture matches.
#[derive(Debug, Clone)]
pub struct HumanNamePools {
    pub by_culture_tag: Vec<(String, NameSet)>,
    pub default: NameSet,
}

/// Names synthetics go by: names they adopted, and designations.
#[derive(Debug, Clone)]
pub struct SyntheticNamePools {
    pub chassis_types: Vec<String>,
    pub adopted_names: Vec<String>,
    pub designations: Vec<String>,
}

#[derive(Debug, Clone)]
pub struct NamePools {
    pub human: HumanNamePools,
    pub synthetic: SyntheticNamePools,
}

/// The first word of a lower-cased civilization name, lower-cased again
/// (empty text when the name has no word).
pub open spec fn civ_word(lower: Seq<char>) -> Seq<char> {
    lowercase(
        match first_word(lower) {
            Some(w) => w,
            None => Seq::empty(),
        },
    )
}

/// A culture tag matches a lower-cased civilization name when the name
/// contains the tag or the tag contains the name's (lower-cased) first
/// word.
pub open spec fn tag_matches(tag: Seq<char>, lower: Seq<char>, word: Seq<char>) -> bool {
    contains_text(lower, tag) || contains_text(tag, word)
}

/// The first culture from position `i` on whose tag matches.
pub open spec fn culture_from(
    tags: Seq<(String, NameSet)>,
    lower: Seq<char>,
    word: Seq<char>,
    i: nat,
) -> Option<int>
    decreases tags.len() - i,
{
    if i >= tags.len() {
        None
    } else if tag_matches(tags[i as int].0@, lower, word) {
        Some(i as int)
    } else {
        culture_from(tags, lower, word, i + 1)
    }
}

/// The names a human draws from under the given civilization: those of
/// the first culture whose tag matches its name, else the default set.
pub open spec fn culture_set(pools: HumanNamePools, civ_name: Option<Seq<char>>) -> NameSet {
    match civ_name {
        Some(c) => match culture_from(pools.by_culture_tag@, lowercase(c), civ_word(lowercase(c)), 0) {
            Some(k) => pools.by_culture_tag@[k].1,
            None => pools.default,
        },
        None => pools.default,
    }
}

/// The given names for a sex.
pub open spec fn given_names(set: NameSet, sex: BiologicalSex) -> Seq<String> {
    match sex {
        BiologicalSex::Male => set.given_male@,
        BiologicalSex::Female => set.given_female@,
    }
}

/// A set can name a person of this sex: it has given and family names.
pub open spec fn can_name(set: NameSet, sex: BiologicalSex) -> bool {
    given_names(set, sex).len() > 0 && set.family@.len() > 0
}

/// `r` is a given name of the set followed by one of its family names.
pub open spec fn name_from(set: NameSet, sex: BiologicalSex, r: Seq<char>) -> bool {
    exists|i: int, j: int|
        0 <= i < given_names(set, sex).len() && 0 <= j < set.family@.len() && r == (
        #[trigger] given_names(set, sex)[i])@ + " "@ + (#[trigger] set.family@[j])@
}

/// The names drawn for a human, in order, follow the retry rule: each is
/// a name of the set; every draw but the last found its name already
/// taken; and the last, when it is one of the first ten draws, is free.
/// (After ten taken names one more is drawn and kept, taken or not.)
pub open spec fn name_tries_ok(
    set: NameSet,
    sex: BiologicalSex,
    used: Seq<String>,
    tries: Seq<Seq<char>>,
) -> bool {
    &&& 1 <= tries.len() <= 11
    &&& forall|k: int| 0 <= k < tries.len() ==> name_from(set, sex, #[trigger] tries[k])
    &&& forall|k: int| 0 <= k < tries.len() - 1 ==> lists_text(used, #[trigger] tries[k])
    &&& tries.len() <= 10 ==> !lists_text(used, tries.last())
}

/// What a person may be called: a human the name kept by the retry rule
/// from their culture's set (so a free name whenever one of ten draws
/// finds one); a synthetic an adopted name or a designation, or "Unit"
/// when there are no designations; an alien the envoy of its kind.
pub open spec fn npc_name_ok(
    pools: NamePools,
    species: Species,
    civ_name: Option<Seq<char>>,
    used: Seq<String>,
    r: Seq<char>,
) -> bool {
    match species {
        Species::Human { sex } => exists|tries: Seq<Seq<char>>|
            #![trigger name_tries_ok(culture_set(pools.human, civ_name), sex, used, tries)]
            name_tries_ok(culture_set(pools.human, civ_name), sex, used, tries) && r == tries.last(),
        Species::Synthetic { .. } => {
            let s = pools.synthetic;
            ||| exists|i: int| 0 <= i < s.adopted_names@.len() && r == (#[trigger] s.adopted_names@[i])@
            ||| exists|i: int| 0 <= i < s.designations@.len() && r == (#[trigger] s.designations@[i])@
            ||| (s.designations@.len() == 0 && r == "Unit"@)
        },
        Species::Alien { kind } => r == kind@ + " envoy"@,
    }
}

/// The name set a human draws from under the given civilization: the
/// first culture whose tag matches the civilization's name, else the
/// default set.
pub fn culture_names<'a>(pools: &'a HumanNamePools, civ_name: Option<&str>) -> (r: &'a NameSet)
    ensures
        *r == culture_set(
            *pools,
            match civ_name {
                Some(c) => Some(c@),
                None => None,
            },
        ),
{
    let civ = match civ_name {
        Some(c) => c,
        None => {
            return &pools.default;
        },
    };
    let lower = to_lower(civ);
    let word = match first_word_of(lower.as_str()) {
        Some(w) => w,
        None => {
            proof {
                reveal_strlit("");
                assert(""@ =~= Seq::<char>::empty());
            }
            ""
        },
    };
    let word_lower = to_lower(word);
    assert(word_lower@ == civ_word(lower@));
    match first_matching_culture(&pools.by_culture_tag, lower.as_str(), word_lower.as_str()) {
        Some(k) => &pools.by_culture_tag[k].1,
        None => &pools.default,
    }
}

/// The position of the first culture whose tag matches an already
/// lower-cased civilization name, given its lower-cased first word.
pub fn first_matching_culture(tags: &Vec<(String, NameSet)>, lower: &str, word: &str) -> (r: Option<
    usize,
>)
    ensures
        match r {
            Some(k) => k < tags@.len() && culture_from(tags@, lower@, word@, 0) == Some(k as int),
            None => culture_from(tags@, lower@, word@, 0) is None,
        },
{
    let mut k: usize = 0;
    while k < tags.len()
        invariant
            k <= tags@.len(),
            culture_from(tags@, lower@, word@, 0) == culture_from(tags@, lower@, word@, k as nat),
        decreases tags.len() - k,
    {
        let tag = tags[k].0.as_str();
        if contains(lower, tag) || contains(tag, word) {
            return Some(k);
        }
        k = k + 1;
    }
    None
}

/// A given name and a family name drawn from a set.
fn draw_full_name(set: &NameSet, sex: BiologicalSex, rng: &mut StdRng) -> (r: String)
    requires
        can_name(*set, sex),
    ensures
        name_from(*set, sex, r@),
{
    let given = match sex {
        BiologicalSex::Male => &set.given_male,
        BiologicalSex::Female => &set.given_female,
    };
    let i = draw_below(rng, 0, given.len());
    let j = draw_below(rng, 0, set.family.len());
    let mut full = given[i].clone();
    full.append(" ");
    full.append(set.family[j].as_str());
    assert(full@ == given_names(*set, sex)[i as int]@ + " "@ + set.family@[j as int]@);
    full
}

/// Name a person: a human gets a given and a family name from their
/// culture's set, trying up to ten times for a name nobody has yet; a
/// synthetic an adopted name (on an even chance, when there are any) or
/// else a designation, or "Unit" when there are none; an alien is its
/// kind's envoy. A human's culture set must have names for their sex.
pub fn pick_npc_name(
    pools: &NamePools,
    species: &Species,
    civ_name: Option<&str>,
    used_names: &Vec<String>,
    rng: &mut StdRng,
) -> (r: String)
    requires
        *species matches Species::Human { sex } ==> can_name(
            culture_set(
                pools.human,
                match civ_name {
                    Some(c) => Some(c@),
                    None => None,
                },
            ),
            sex,
        ),
    ensures
        npc_name_ok(
            *pools,
            *species,
            match civ_name {
                Some(c) => Some(c@),
                None => None,
            },
            used_names@,
            r@,
        ),
{
    match species {
        Species::Human { sex } => {
            let set = culture_names(&pools.human, civ_name);
            let ghost mut tries: Seq<Seq<char>> = Seq::empty();
            let mut attempt: usize = 0;
            while attempt < 10
                invariant
                    can_name(*set, *sex),
                    tries.len() == attempt <= 10,
                    forall|k: int| 0 <= k < tries.len() ==> name_from(*set, *sex, #[trigger] tries[k]),
                    forall|k: int| 0 <= k < tries.len() ==> lists_text(used_names@, #[trigger] tries[k]),
                    *species == (Species::Human { sex: *sex }),
                    *set == culture_set(
                        pools.human,
                        match civ_name {
                            Some(c) => Some(c@),
                            None => None,
                        },
                    ),
                decreases 10 - attempt,
            {
                let full = draw_full_name(set, *sex, rng);
                if !lists(used_names, full.as_str()) {
                    proof {
                        let t = tries.push(full@);
                        assert(t.last() == full@);
                        assert(forall|k: int| 0 <= k < t.len() - 1 ==> t[k] == tries[k]);
                        assert(name_tries_ok(*set, *sex, used_names@, t));
                    }
                    return full;
                }
                proof {
                    tries = tries.push(full@);
                }
                attempt = attempt + 1;
            }
            let last = draw_full_name(set, *sex, rng);
            proof {
                let t = tries.push(last@);
                assert(t.last() == last@);
                assert(forall|k: int| 0 <= k < t.len() - 1 ==> t[k] == tries[k]);
                assert(name_tries_ok(*set, *sex, used_names@, t));
            }
            last
        },
        Species::Synthetic { .. } => {
            let s = &pools.synthetic;
            let coin = draw_ratio(rng, 1, 2);
            if coin && s.adopted_names.len() > 0 {
                let i = draw_below(rng, 0, s.adopted_names.len());
                let r = s.adopted_names[i].clone();
                assert(r@ == s.adopted_names@[i as int]@);
                r
            } else if s.designations.len() > 0 {
                let i = draw_below(rng, 0, s.designations.len());
                let r = s.designations[i].clone();
                assert(r@ == s.designations@[i as int]@);
                r
            } else {
                "Unit".to_owned()
            }
        },
        Species::Alien { kind } => {
            let mut r = kind.clone();
            r.append(" envoy");
            r
        },
    }
}

/// Name a person when their culture's set can name them, as
/// `pick_npc_name`; `None`, drawing nothing, when it cannot.
pub fn try_pick_npc_name(
    pools: &NamePools,
    species: &Species,
    civ_name: Option<&str>,
    used_names: &Vec<String>,
    rng: &mut StdRng,
) -> (r: Option<String>)
    ensures
        match r {
            Some(name) => npc_name_ok(
                *pools,
                *species,
                match civ_name {
                    Some(c) => Some(c@),
                        None => None,
                },
                used_names@,
                name@,
            ),
            None => *species matches Species::Human { sex } && !can_name(
                culture_set(
                    pools.human,
                    match civ_name {
                        Some(c) => Some(c@),
                        None => None,
                    },
                ),
                sex,
            ),
        },
{
    if let Species::Human { sex } = species {
        let set = culture_names(&pools.human, civ_name);
        let given = match sex {
            BiologicalSex::Male => &set.given_male,
            BiologicalSex::Female => &set.given_female,
        };
        if given.len() == 0 || set.family.len() == 0 {
            return None;
        }
    }
    Some(pick_npc_name(pools, species, civ_name, used_names, rng))
}


/// How two people know each other.
#[derive(Debug, Clone, Copy, PartialEq, Eq, Structural)]
pub enum NpcRelationType {
    Colleague,
    Rival,
    OldFriend,
    Acquaintance,
    KnowsOf,
}

/// What the connections between people depend on: where they live, whom
/// they work for, and whether they are warm (warmth above one half).
#[derive(Debug, Clone, Copy)]
pub struct NpcSeed {
    pub id: u128,
    pub home_system: u128,
    pub faction: Option<u128>,
    pub warm: bool,
}

/// One side of a connection: who the other person is and how they relate.
#[derive(Debug, Clone, Copy, PartialEq, Eq, Structural)]
pub struct NpcLink {
    pub other: u128,
    pub relationship: NpcRelationType,
}

/// How two people are connected. Neighbours in the same faction are
/// rivals when their boldness lies far apart, old friends when both are
/// warm, colleagues otherwise; neighbours across factions are
/// acquaintances when either is warm and otherwise merely know of each
/// other; faction members in different systems are colleagues when the
/// chance comes up; anyone else is unconnected.
pub open spec fn pair_relation(a: NpcSeed, b: NpcSeed, bold_apart: bool, chance: bool) -> Option<
    NpcRelationType,
> {
    let same_system = a.home_system == b.home_system;
    let same_faction = a.faction is Some && a.faction == b.faction;
    if same_system && same_faction {
        Some(
            if bold_apart {
                NpcRelationType::Rival
            } else if a.warm && b.warm {
                NpcRelationType::OldFriend
            } else {
                NpcRelationType::Colleague
            },
        )
    } else if same_system {
        Some(
            if a.warm || b.warm {
                NpcRelationType::Acquaintance
            } else {
                NpcRelationType::KnowsOf
            },
        )
    } else if same_faction && chance {
        Some(NpcRelationType::Colleague)
    } else {
        None
    }
}

/// Position `(i, j)` comes before `(k, l)` in the order pairs are met.
pub open spec fn pair_before(i: int, j: int, k: int, l: int) -> bool {
    i < k || (i == k && j < l)
}

/// The connected pairs, in the order met, fit the people: each is a pair
/// of distinct positions with a relation the rules allow (whichever way
/// the chance came up), no pair occurs twice, and every pair whose
/// connection does not depend on chance is there.
pub open spec fn valid_pairs(
    pairs: Seq<(usize, usize, NpcRelationType)>,
    seeds: Seq<NpcSeed>,
    apart: Seq<Vec<bool>>,
) -> bool {
    &&& forall|p: int| #![trigger pairs[p]] 0 <= p < pairs.len() ==> {
        let (i, j, r) = pairs[p];
        &&& i < j < seeds.len()
        &&& (pair_relation(seeds[i as int], seeds[j as int], apart[i as int]@[j as int], true) == Some(r)
            || pair_relation(seeds[i as int], seeds[j as int], apart[i as int]@[j as int], false)
            == Some(r))
    }
    &&& forall|p: int, q: int|
        #![trigger pairs[p], pairs[q]]
        0 <= p < q < pairs.len() ==> pair_before(
            pairs[p].0 as int,
            pairs[p].1 as int,
            pairs[q].0 as int,
            pairs[q].1 as int,
        )
    &&& forall|i: int, j: int|
        0 <= i < j < seeds.len() && (#[trigger] pair_relation(seeds[i], seeds[j], apart[i]@[j], false))
            is Some ==> exists|p: int|
            0 <= p < pairs.len() && #[trigger] pairs[p] == (i as usize, j as usize, pair_relation(
                seeds[i],
                seeds[j],
                apart[i]@[j],
                false,
            )->0)
}

/// The connections of the person at position `a`, in the order their
/// pairs were met.
pub open spec fn links_from(pairs: Seq<(usize, usize, NpcRelationType)>, ids: Seq<u128>, a: int) -> Seq<
    NpcLink,
>
    decreases pairs.len(),
{
    if pairs.len() == 0 {
        Seq::empty()
    } else {
        let prev = links_from(pairs.drop_last(), ids, a);
        let (i, j, r) = pairs.last();
        if i as int == a {
            prev.push(NpcLink { other: ids[j as int], relationship: r })
        } else if j as int == a {
            prev.push(NpcLink { other: ids[i as int], relationship: r })
        } else {
            prev
        }
    }
}

/// The ids of the people, in order.
pub open spec fn seed_ids(seeds: Seq<NpcSeed>) -> Seq<u128> {
    seeds.map_values(|s: NpcSeed| s.id)
}

/// Work out who knows whom: every pair of people in order, with the
/// chance drawn only for faction members in different systems.
/// `bold_apart[i][j]` says whether the boldness of the people at `i` and
/// `j` differs by more than 0.4.
fn connected_pairs(seeds: &Vec<NpcSeed>, bold_apart: &Vec<Vec<bool>>, rng: &mut StdRng) -> (pairs: Vec<
    (usize, usize, NpcRelationType),
>)
    requires
        bold_apart@.len() == seeds@.len(),
        forall|i: int| 0 <= i < seeds@.len() ==> (#[trigger] bold_apart@[i])@.len() == seeds@.len(),
    ensures
        valid_pairs(pairs@, seeds@, bold_apart@),
{
    let n = seeds.len();
    let mut pairs: Vec<(usize, usize, NpcRelationType)> = Vec::new();
    let mut i: usize = 0;
    while i < n
        invariant
            n == seeds@.len(),
            bold_apart@.len() == n,
            forall|q: int| 0 <= q < n ==> (#[trigger] bold_apart@[q])@.len() == n,
            i <= n,
            forall|p: int| #![trigger pairs@[p]] 0 <= p < pairs@.len() ==> {
                let (a, b, r) = pairs@[p];
                &&& a < b < n
                &&& (a as int) < i
                &&& (pair_relation(seeds@[a as int], seeds@[b as int], bold_apart@[a as int]@[b as int], true)
                    == Some(r) || pair_relation(seeds@[a as int], seeds@[b as int], bold_apart@[a as int]@[
                    b as int], false) == Some(r))
            },
            forall|p: int, q: int|
                #![trigger pairs@[p], pairs@[q]]
                0 <= p < q < pairs@.len() ==> pair_before(
                    pairs@[p].0 as int,
                    pairs@[p].1 as int,
                    pairs@[q].0 as int,
                    pairs@[q].1 as int,
                ),
            forall|a: int, b: int|
                0 <= a < b < n && a < i && (#[trigger] pair_relation(seeds@[a], seeds@[b], bold_apart@[a]@[b], false))
                    is Some ==> exists|p: int|
                    0 <= p < pairs@.len() && #[trigger] pairs@[p] == (a as usize, b as usize,
                    pair_relation(seeds@[a], seeds@[b], bold_apart@[a]@[b], false)->0),
        decreases n - i,
    {
        let mut j: usize = i + 1;
        while j < n
            invariant
                n == seeds@.len(),
                bold_apart@.len() == n,
                forall|q: int| 0 <= q < n ==> (#[trigger] bold_apart@[q])@.len() == n,
                i < n,
                i < j <= n,
                forall|p: int| #![trigger pairs@[p]] 0 <= p < pairs@.len() ==> {
                    let (a, b, r) = pairs@[p];
                    &&& a < b < n
                    &&& pair_before(a as int, b as int, i as int, j as int)
                    &&& (pair_relation(seeds@[a as int], seeds@[b as int], bold_apart@[a as int]@[b as int], true)
                        == Some(r) || pair_relation(seeds@[a as int], seeds@[b as int], bold_apart@[a as int]@[
                        b as int], false) == Some(r))
                },
                forall|p: int, q: int|
                    #![trigger pairs@[p], pairs@[q]]
                    0 <= p < q < pairs@.len() ==> pair_before(
                        pairs@[p].0 as int,
                        pairs@[p].1 as int,
                        pairs@[q].0 as int,
                        pairs@[q].1 as int,
                    ),
                forall|a: int, b: int|
                    0 <= a < b < n && pair_before(a, b, i as int, j as int) && (#[trigger] pair_relation(
                        seeds@[a],
                        seeds@[b],
                        bold_apart@[a]@[b],
                        false,
                    )) is Some ==> exists|p: int|
                        0 <= p < pairs@.len() && #[trigger] pairs@[p] == (a as usize, b as usize,
                        pair_relation(seeds@[a], seeds@[b], bold_apart@[a]@[b], false)->0),
            decreases n - j,
        {
            let a = seeds[i];
            let b = seeds[j];
            let apart = bold_apart[i][j];
            let same_system = a.home_system == b.home_system;
            let same_faction = match (a.faction, b.faction) {
                (Some(x), Some(y)) => x == y,
                _ => false,
            };
            let relation = if same_system && same_faction {
                Some(
                    if apart {
                        NpcRelationType::Rival
                    } else if a.warm && b.warm {
                        NpcRelationType::OldFriend
                    } else {
                        NpcRelationType::Colleague
                    },
                )
            } else if same_system {
                Some(
                    if a.warm || b.warm {
                        NpcRelationType::Acquaintance
                    } else {
                        NpcRelationType::KnowsOf
                    },
                )
            } else if same_faction {
                if draw_ratio(rng, 3, 10) {
                    Some(NpcRelationType::Colleague)
                } else {
                    None
                }
            } else {
                None
            };
            let ghost fixed = pair_relation(a, b, apart, false);
            assert(relation == pair_relation(a, b, apart, true) || relation == fixed);
            assert(fixed is Some ==> relation == fixed);
            match relation {
                Some(r) => {
                    let ghost before = pairs@;
                    pairs.push((i, j, r));
                    proof {
                        assert(pairs@[before.len() as int] == (i, j, r));
                        assert forall|x: int, y: int|
                            0 <= x < y < n && pair_before(x, y, i as int, j as int + 1) && (
                            #[trigger] pair_relation(seeds@[x], seeds@[y], bold_apart@[x]@[y], false))
                                is Some implies exists|p: int|
                                0 <= p < pairs@.len() && #[trigger] pairs@[p] == (x as usize, y as usize,
                                pair_relation(seeds@[x], seeds@[y], bold_apart@[x]@[y], false)->0) by {
                            if x == i && y == j {
                                assert(pairs@[before.len() as int] == (x as usize, y as usize,
                                    pair_relation(seeds@[x], seeds@[y], bold_apart@[x]@[y], false)->0));
                            } else {
                                let p = choose|p: int|
                                    0 <= p < before.len() && #[trigger] before[p] == (x as usize, y as usize,
                                    pair_relation(seeds@[x], seeds@[y], bold_apart@[x]@[y], false)->0);
                                assert(pairs@[p] == before[p]);
                            }
                        }
                    }
                },
                None => {
                    proof {
                        assert forall|x: int, y: int|
                            0 <= x < y < n && pair_before(x, y, i as int, j as int + 1) && (
                            #[trigger] pair_relation(seeds@[x], seeds@[y], bold_apart@[x]@[y], false))
                                is Some implies exists|p: int|
                                0 <= p < pairs@.len() && #[trigger] pairs@[p] == (x as usize, y as usize,
                                pair_relation(seeds@[x], seeds@[y], bold_apart@[x]@[y], false)->0) by {
                            if x == i && y == j {
                                assert(false);
                            }
                        }
                    }
                },
            }
            j = j + 1;
        }
        i = i + 1;
    }
    pairs
}

/// Record each connected pair on both people, in the order the pairs come.
fn links_of_pairs(pairs: &Vec<(usize, usize, NpcRelationType)>, seeds: &Vec<NpcSeed>) -> (links: Vec<
    Vec<NpcLink>,
>)
    requires
        forall|p: int| #![trigger pairs@[p]] 0 <= p < pairs@.len() ==> pairs@[p].0 < pairs@[p].1
            < seeds@.len(),
    ensures
        links@.len() == seeds@.len(),
        forall|a: int| 0 <= a < seeds@.len() ==> (#[trigger] links@[a])@ == links_from(
            pairs@,
            seed_ids(seeds@),
            a,
        ),
{
    let n = seeds.len();
    let ghost ids = seed_ids(seeds@);
    let mut links: Vec<Vec<NpcLink>> = Vec::new();
    let mut k: usize = 0;
    while k < n
        invariant
            k <= n == seeds@.len(),
            links@.len() == k,
            forall|a: int| 0 <= a < k ==> (#[trigger] links@[a])@ == Seq::<NpcLink>::empty(),
        decreases n - k,
    {
        links.push(Vec::new());
        k = k + 1;
    }
    assert(pairs@.take(0) =~= Seq::<(usize, usize, NpcRelationType)>::empty());
    let mut p: usize = 0;
    while p < pairs.len()
        invariant
            n == seeds@.len(),
            ids == seed_ids(seeds@),
            links@.len() == n,
            p <= pairs@.len(),
            forall|q: int| #![trigger pairs@[q]] 0 <= q < pairs@.len() ==> pairs@[q].0 < pairs@[q].1 < n,
            forall|a: int| 0 <= a < n ==> (#[trigger] links@[a])@ == links_from(pairs@.take(p as int), ids, a),
        decreases pairs.len() - p,
    {
        let (i, j, r) = pairs[p];
        assert(pairs@.take(p as int + 1).drop_last() =~= pairs@.take(p as int));
        let ghost old_links = links@;
        let to_j = NpcLink { other: seeds[j].id, relationship: r };
        let to_i = NpcLink { other: seeds[i].id, relationship: r };
        links[i].push(to_j);
        links[j].push(to_i);
        proof {
            assert forall|a: int| 0 <= a < n implies (#[trigger] links@[a])@ == links_from(
                pairs@.take(p as int + 1),
                ids,
                a,
            ) by {
                assert(pairs@.take(p as int + 1).last() == (i, j, r));
                if a == i as int {
                    assert(links@[a]@ == old_links[a]@.push(to_j));
                } else if a == j as int {
                    assert(links@[a]@ == old_links[a]@.push(to_i));
                } else {
                    assert(links@[a] == old_links[a]);
                }
            }
        }
        p = p + 1;
    }
    assert(pairs@.take(pairs@.len() as int) =~= pairs@);
    links
}

/// Every connection listed for `a` comes from a pair that `a` is part of.
proof fn lemma_link_origin(pairs: Seq<(usize, usize, NpcRelationType)>, ids: Seq<u128>, a: int, k: int)
    requires
        0 <= k < links_from(pairs, ids, a).len(),
    ensures
        exists|p: int|
            #![trigger pairs[p]]
            0 <= p < pairs.len() && ((pairs[p].0 as int == a && links_from(pairs, ids, a)[k] == NpcLink {
                other: ids[pairs[p].1 as int],
                relationship: pairs[p].2,
            }) || (pairs[p].1 as int == a && links_from(pairs, ids, a)[k] == NpcLink {
                other: ids[pairs[p].0 as int],
                relationship: pairs[p].2,
            })),
    decreases pairs.len(),
{
    let prev = links_from(pairs.drop_last(), ids, a);
    let last = pairs.len() - 1;
    if k < prev.len() {
        lemma_link_origin(pairs.drop_last(), ids, a, k);
        let p = choose|p: int|
            #![trigger pairs.drop_last()[p]]
            0 <= p < pairs.drop_last().len() && ((pairs.drop_last()[p].0 as int == a && prev[k]
                == NpcLink { other: ids[pairs.drop_last()[p].1 as int], relationship: pairs.drop_last()[p].2 })
                || (pairs.drop_last()[p].1 as int == a && prev[k] == NpcLink {
                other: ids[pairs.drop_last()[p].0 as int],
                relationship: pairs.drop_last()[p].2,
            }));
        assert(pairs[p] == pairs.drop_last()[p]);
    } else {
        assert(pairs[last] == pairs.last());
    }
}

/// A pair puts each of its people on the other's list.
proof fn lemma_link_present(pairs: Seq<(usize, usize, NpcRelationType)>, ids: Seq<u128>, p: int)
    requires
        0 <= p < pairs.len(),
        pairs[p].0 != pairs[p].1,
    ensures
        links_from(pairs, ids, pairs[p].0 as int).contains(
            NpcLink { other: ids[pairs[p].1 as int], relationship: pairs[p].2 },
        ),
        links_from(pairs, ids, pairs[p].1 as int).contains(
            NpcLink { other: ids[pairs[p].0 as int], relationship: pairs[p].2 },
        ),
    decreases pairs.len(),
{
    let (i, j, r) = pairs[p];
    let li = NpcLink { other: ids[j as int], relationship: r };
    let lj = NpcLink { other: ids[i as int], relationship: r };
    if p == pairs.len() - 1 {
        let a = links_from(pairs, ids, i as int);
        let b = links_from(pairs, ids, j as int);
        assert(a[a.len() - 1] == li);
        assert(b[b.len() - 1] == lj);
    } else {
        let d = pairs.drop_last();
        assert(d[p] == pairs[p]);
        lemma_link_present(d, ids, p);
        let ai = links_from(d, ids, i as int);
        let aj = links_from(d, ids, j as int);
        let wi = choose|x: int| 0 <= x < ai.len() && ai[x] == li;
        let wj = choose|x: int| 0 <= x < aj.len() && aj[x] == lj;
        assert(links_from(pairs, ids, i as int)[wi] == li);
        assert(links_from(pairs, ids, j as int)[wj] == lj);
    }
}

/// Connections are mutual: whoever a person lists, lists them back with
/// the same relationship.
pub proof fn law_connections_mutual(
    pairs: Seq<(usize, usize, NpcRelationType)>,
    seeds: Seq<NpcSeed>,
    apart: Seq<Vec<bool>>,
    a: int,
    k: int,
)
    requires
        valid_pairs(pairs, seeds, apart),
        0 <= a < seeds.len(),
        0 <= k < links_from(pairs, seed_ids(seeds), a).len(),
    ensures
        exists|b: int|
            0 <= b < seeds.len() && b != a && links_from(pairs, seed_ids(seeds), a)[k].other == seeds[b].id
                && #[trigger] links_from(pairs, seed_ids(seeds), b).contains(
                NpcLink {
                    other: seeds[a].id,
                    relationship: links_from(pairs, seed_ids(seeds), a)[k].relationship,
                },
            ),
{
    let ids = seed_ids(seeds);
    lemma_link_origin(pairs, ids, a, k);
    let p = choose|p: int|
        #![trigger pairs[p]]
        0 <= p < pairs.len() && ((pairs[p].0 as int == a && links_from(pairs, ids, a)[k] == NpcLink {
            other: ids[pairs[p].1 as int],
            relationship: pairs[p].2,
        }) || (pairs[p].1 as int == a && links_from(pairs, ids, a)[k] == NpcLink {
            other: ids[pairs[p].0 as int],
            relationship: pairs[p].2,
        }));
    lemma_link_present(pairs, ids, p);
    let (i, j, r) = pairs[p];
    if i as int == a {
        assert(ids[a] == seeds[a].id);
        assert(ids[j as int] == seeds[j as int].id);
        assert(links_from(pairs, ids, j as int).contains(NpcLink { other: seeds[a].id, relationship: r }));
    } else {
        assert(ids[a] == seeds[a].id);
        assert(ids[i as int] == seeds[i as int].id);
        assert(links_from(pairs, ids, i as int).contains(NpcLink { other: seeds[a].id, relationship: r }));
    }
}

/// Connect the people with each other: for each person, whom they know
/// and how, as `links_from` lays it out for some valid set of connected
/// pairs. `bold_apart[i][j]` says whether the boldness of the people at
/// `i` and `j` differs by more than 0.4.
pub fn generate_npc_connections(seeds: &Vec<NpcSeed>, bold_apart: &Vec<Vec<bool>>, rng: &mut StdRng) -> (links:
    Vec<Vec<NpcLink>>)
    requires
        bold_apart@.len() == seeds@.len(),
        forall|i: int| 0 <= i < seeds@.len() ==> (#[trigger] bold_apart@[i])@.len() == seeds@.len(),
    ensures
        links@.len() == seeds@.len(),
        exists|pairs: Seq<(usize, usize, NpcRelationType)>|
            #![trigger valid_pairs(pairs, seeds@, bold_apart@)]
            valid_pairs(pairs, seeds@, bold_apart@) && forall|a: int|
                0 <= a < seeds@.len() ==> (#[trigger] links@[a])@ == links_from(pairs, seed_ids(seeds@), a),
{
    let pairs = connected_pairs(seeds, bold_apart, rng);
    let links = links_of_pairs(&pairs, seeds);
    assert(valid_pairs(pairs@, seeds@, bold_apart@));
    links
}

/// A title a role may carry, and the least developed kind of place it
/// is found in (an infrastructure key in any letter case).
#[derive(Debug, Clone)]
pub struct TitleOption {
    pub title: String,
    pub min_infra: String,
}

/// The title may be held in a place of this development.
pub open spec fn title_allowed(t: TitleOption, infra: InfrastructureLevel) -> bool {
    infra_rank(infra) >= infra_rank(infra_for_key(lowercase(t.min_infra@)))
}

/// The positions, among the first `n`, of the titles allowed here, in order.
pub open spec fn eligible_positions(titles: Seq<TitleOption>, infra: InfrastructureLevel, n: nat) -> Seq<
    usize,
>
    decreases n,
{
    if n == 0 {
        Seq::empty()
    } else {
        let prev = eligible_positions(titles, infra, (n - 1) as nat);
        if title_allowed(titles[n - 1], infra) {
            prev.push((n - 1) as usize)
        } else {
            prev
        }
    }
}

/// The positions of the titles a role may carry in a place of this
/// development, in order.
pub fn eligible_titles(titles: &Vec<TitleOption>, infra: InfrastructureLevel) -> (r: Vec<usize>)
    ensures
        r@ == eligible_positions(titles@, infra, titles@.len()),
{
    let rank = infra_level_rank(infra);
    let mut r: Vec<usize> = Vec::new();
    let mut i: usize = 0;
    while i < titles.len()
        invariant
            i <= titles@.len(),
            rank == infra_rank(infra),
            r@ == eligible_positions(titles@, infra, i as nat),
        decreases titles.len() - i,
    {
        let min = parse_infra_level(titles[i].min_infra.as_str());
        if rank >= infra_level_rank(min) {
            r.push(i);
        }
        i = i + 1;
    }
    r
}

/// The title used when none is allowed: the role's first, or
/// "Representative" when it has none.
pub fn fallback_title(titles: &Vec<TitleOption>) -> (r: String)
    ensures
        r@ == (if titles@.len() > 0 {
            titles@[0].title@
        } else {
            "Representative"@
        }),
{
    if titles.len() > 0 {
        titles[0].title.clone()
    } else {
        "Representative".to_owned()
    }
}

} // verus!
