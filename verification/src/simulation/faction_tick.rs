//! Faction spread: where a faction may seed a new presence, what it offers
//! when it arrives, and how its arrivals and retreats are reported.

use rand::rngs::StdRng;
use vstd::prelude::*;

use crate::rng::draw_below;
use crate::simulation::galaxy::{
    contains_id, Connection, FactionCategory, FactionScope, FactionService,
};

verus! {

/// A faction strong at `from` may spread along a route to `to`: `to`
/// holds no presence of it yet and was not already chosen.
pub open spec fn can_spread(
    sources: Seq<u128>,
    present: Seq<u128>,
    found: Seq<u128>,
    from: u128,
    to: u128,
) -> bool {
    sources.contains(from) && !present.contains(to) && !found.contains(to)
}

/// The expansion targets, in route order: for each route, its far end if
/// the near end is a source, else its near end if the far end is one.
pub open spec fn expansion_targets(
    sources: Seq<u128>,
    present: Seq<u128>,
    connections: Seq<Connection>,
) -> Seq<u128>
    decreases connections.len(),
{
    if connections.len() == 0 {
        Seq::empty()
    } else {
        let prev = expansion_targets(sources, present, connections.drop_last());
        let c = connections.last();
        if can_spread(sources, present, prev, c.system_a, c.system_b) {
            prev.push(c.system_b)
        } else if can_spread(sources, present, prev, c.system_b, c.system_a) {
            prev.push(c.system_a)
        } else {
            prev
        }
    }
}

/// Systems one route away from where the faction is strong and where it
/// is not present yet, each listed once.
pub fn find_expansion_targets(
    source_ids: &Vec<u128>,
    present_ids: &Vec<u128>,
    connections: &Vec<Connection>,
) -> (r: Vec<u128>)
    ensures
        r@ == expansion_targets(source_ids@, present_ids@, connections@),
{
    let mut targets: Vec<u128> = Vec::new();
    let mut i: usize = 0;
    while i < connections.len()
        invariant
            i <= connections.len(),
            targets@ == expansion_targets(source_ids@, present_ids@, connections@.take(i as int)),
        decreases connections.len() - i,
    {
        assert(connections@.take(i as int + 1).drop_last() =~= connections@.take(i as int));
        let a = connections[i].system_a;
        let b = connections[i].system_b;
        if contains_id(source_ids, a) && !contains_id(present_ids, b) && !contains_id(&targets, b) {
            targets.push(b);
        } else if contains_id(source_ids, b) && !contains_id(present_ids, a) && !contains_id(
            &targets,
            a,
        ) {
            targets.push(a);
        }
        i = i + 1;
    }
    assert(connections@.take(i as int) =~= connections@);
    targets
}

/// Route `c` leads from a source system to `x`.
pub open spec fn spreads_to(sources: Seq<u128>, c: Connection, x: u128) -> bool {
    ||| (sources.contains(c.system_a) && c.system_b == x)
    ||| (sources.contains(c.system_b) && c.system_a == x)
}

/// Every expansion target is listed once, holds no presence of the
/// faction, and lies one route from a source. When every source is a
/// place where the faction is present (as sources are where it is
/// strong), the targets are exactly those systems.
pub proof fn law_expansion_targets(
    sources: Seq<u128>,
    present: Seq<u128>,
    connections: Seq<Connection>,
)
    ensures
        expansion_targets(sources, present, connections).no_duplicates(),
        forall|x: u128| #[trigger] expansion_targets(sources, present, connections).contains(x)
            ==> !present.contains(x) && exists|i: int| 0 <= i < connections.len()
                && spreads_to(sources, #[trigger] connections[i], x),
        (forall|s: u128| sources.contains(s) ==> present.contains(s)) ==> forall|x: u128|
            (!present.contains(x) && exists|i: int| 0 <= i < connections.len()
                && spreads_to(sources, #[trigger] connections[i], x))
            ==> #[trigger] expansion_targets(sources, present, connections).contains(x),
    decreases connections.len(),
{
    if connections.len() > 0 {
        let init = connections.drop_last();
        law_expansion_targets(sources, present, init);
        let prev = expansion_targets(sources, present, init);
        let r = expansion_targets(sources, present, connections);
        let c = connections.last();
        let last = connections.len() - 1;
        assert(connections[last] == c);
        assert forall|i: int| 0 <= i < init.len() implies init[i] == connections[i] by {}
        // What the last route adds, if anything.
        let added = r.len() > prev.len();
        assert(r.len() == prev.len() || r.len() == prev.len() + 1);
        assert forall|j: int| 0 <= j < prev.len() implies r[j] == prev[j] by {}
        assert forall|x: u128| r.contains(x) <==> (prev.contains(x) || (added && r[prev.len() as int] == x)) by {
            if r.contains(x) {
                let j = choose|j: int| 0 <= j < r.len() && r[j] == x;
                if j < prev.len() {
                    assert(prev[j] == x);
                }
            }
            if prev.contains(x) {
                let j = choose|j: int| 0 <= j < prev.len() && prev[j] == x;
                assert(r[j] == x);
            }
            if added && r[prev.len() as int] == x {
                assert(r.contains(x));
            }
        }
        assert(r.no_duplicates()) by {
            if added {
                assert(!prev.contains(r[prev.len() as int]));
                assert forall|i: int, j: int| 0 <= i < r.len() && 0 <= j < r.len() && i != j
                    implies r[i] != r[j] by {
                    if i < prev.len() && j < prev.len() {
                        assert(prev[i] == r[i] && prev[j] == r[j]);
                    } else if i < prev.len() {
                        assert(prev[i] == r[i]);
                    } else {
                        assert(prev[j] == r[j]);
                    }
                }
            } else {
                assert(r == prev);
            }
        }
        assert forall|x: u128| #[trigger] r.contains(x) implies !present.contains(x) && exists|
            i: int,
        | 0 <= i < connections.len() && spreads_to(sources, #[trigger] connections[i], x) by {
            if prev.contains(x) {
                let i = choose|i: int| 0 <= i < init.len() && spreads_to(sources, #[trigger] init[i], x);
                assert(connections[i] == init[i]);
            } else {
                assert(spreads_to(sources, connections[last], x));
            }
        }
        if forall|s: u128| sources.contains(s) ==> present.contains(s) {
            assert forall|x: u128|
                (!present.contains(x) && exists|i: int| 0 <= i < connections.len()
                    && spreads_to(sources, #[trigger] connections[i], x)) implies #[trigger] r.contains(
                x,
            ) by {
                let i = choose|i: int| 0 <= i < connections.len()
                    && spreads_to(sources, #[trigger] connections[i], x);
                if i < init.len() {
                    assert(spreads_to(sources, init[i], x));
                    assert(prev.contains(x));
                } else {
                    assert(i == last);
                    if !prev.contains(x) {
                        if sources.contains(c.system_a) && c.system_b == x {
                            assert(can_spread(sources, present, prev, c.system_a, c.system_b));
                            assert(r[prev.len() as int] == x);
                        } else {
                            assert(sources.contains(c.system_b) && c.system_a == x);
                            assert(present.contains(c.system_b));
                            assert(!can_spread(sources, present, prev, c.system_a, c.system_b));
                            assert(r[prev.len() as int] == x);
                        }
                    }
                }
            }
        }
    }
}

/// Draw the system a faction spreads to. There must be a target.
pub fn pick_expansion_target(targets: &Vec<u128>, rng: &mut StdRng) -> (r: u128)
    requires
        targets@.len() > 0,
    ensures
        targets@.contains(r),
{
    let k = draw_below(rng, 0, targets.len());
    assert(targets@[k as int] == targets@[k as int]);
    targets[k]
}

/// What a faction offers when it first appears at a system.
pub open spec fn services_on_arrival(category: FactionCategory, scope: FactionScope) -> Seq<
    FactionService,
> {
    match category {
        FactionCategory::Military => seq![FactionService::Intelligence, FactionService::Missions],
        FactionCategory::Economic => seq![FactionService::Trade, FactionService::Missions],
        FactionCategory::Guild => seq![FactionService::Repair, FactionService::Trade],
        FactionCategory::Religious => seq![FactionService::Shelter, FactionService::Intelligence],
        FactionCategory::Political => seq![FactionService::Missions, FactionService::Intelligence],
        FactionCategory::Academic => seq![FactionService::Intelligence, FactionService::Training],
        FactionCategory::Criminal => match scope {
            FactionScope::Independent => seq![FactionService::Smuggling, FactionService::Repair],
            _ => seq![FactionService::Intelligence, FactionService::Smuggling],
        },
    }
}

/// The services a newly arrived faction offers.
pub fn default_services(category: &FactionCategory, scope: &FactionScope) -> (r: Vec<FactionService>)
    ensures
        r@ == services_on_arrival(*category, *scope),
{
    let r = match category {
        FactionCategory::Military => vec![FactionService::Intelligence, FactionService::Missions],
        FactionCategory::Economic => vec![FactionService::Trade, FactionService::Missions],
        FactionCategory::Guild => vec![FactionService::Repair, FactionService::Trade],
        FactionCategory::Religious => vec![FactionService::Shelter, FactionService::Intelligence],
        FactionCategory::Political => vec![FactionService::Missions, FactionService::Intelligence],
        FactionCategory::Academic => vec![FactionService::Intelligence, FactionService::Training],
        FactionCategory::Criminal => match scope {
            FactionScope::Independent => vec![FactionService::Smuggling, FactionService::Repair],
            _ => vec![FactionService::Intelligence, FactionService::Smuggling],
        },
    };
    assert(r@ =~= services_on_arrival(*category, *scope));
    r
}

/// The report of a faction arriving at a system.
pub open spec fn arrival_text(faction: Seq<char>, category: FactionCategory, system: Seq<char>) -> Seq<
    char,
> {
    match category {
        FactionCategory::Military => faction + " deployed observers to "@ + system + "."@,
        FactionCategory::Economic => faction + " opened a trade office at "@ + system + "."@,
        FactionCategory::Guild => faction + " established a chapter house at "@ + system + "."@,
        FactionCategory::Religious => faction + " pilgrims were seen arriving at "@ + system + "."@,
        FactionCategory::Political => faction + " opened an administrative office at "@ + system
            + "."@,
        FactionCategory::Academic => faction + " established a research outpost at "@ + system
            + "."@,
        FactionCategory::Criminal => "Rumors suggest "@ + faction + " has moved into "@ + system
            + "."@,
    }
}

/// The report of a faction leaving a system.
pub open spec fn retreat_text(faction: Seq<char>, category: FactionCategory, system: Seq<char>) -> Seq<
    char,
> {
    match category {
        FactionCategory::Military => faction + " withdrew its personnel from "@ + system + "."@,
        FactionCategory::Economic => faction + " closed its operations at "@ + system + "."@,
        FactionCategory::Guild => faction + " shuttered its chapter house at "@ + system + "."@,
        FactionCategory::Religious => faction + " pilgrims quietly departed "@ + system + "."@,
        FactionCategory::Political => faction + " recalled its administrators from "@ + system
            + "."@,
        FactionCategory::Academic => faction + " closed its research station at "@ + system
            + "."@,
        FactionCategory::Criminal => faction + " is no longer seen at "@ + system + "."@,
    }
}

/// `head`, then `name`, then `middle`, then `place`, then a full stop.
fn sentence(head: &str, name: &str, middle: &str, place: &str) -> (r: String)
    ensures
        r@ == head@ + name@ + middle@ + place@ + "."@,
{
    let mut s = head.to_owned();
    s.append(name);
    s.append(middle);
    s.append(place);
    s.append(".");
    s
}

/// Describe a faction arriving at a system.
pub fn expansion_description(faction_name: &str, category: &FactionCategory, system_name: &str) -> (r:
    String)
    ensures
        r@ == arrival_text(faction_name@, *category, system_name@),
{
    proof {
        reveal_strlit("");
    }
    let r = match category {
        FactionCategory::Military => sentence("", faction_name, " deployed observers to ", system_name),
        FactionCategory::Economic => sentence("", faction_name, " opened a trade office at ", system_name),
        FactionCategory::Guild => sentence("", faction_name, " established a chapter house at ", system_name),
        FactionCategory::Religious => sentence("", faction_name, " pilgrims were seen arriving at ", system_name),
        FactionCategory::Political => sentence("", faction_name, " opened an administrative office at ", system_name),
        FactionCategory::Academic => sentence("", faction_name, " established a research outpost at ", system_name),
        FactionCategory::Criminal => sentence("Rumors suggest ", faction_name, " has moved into ", system_name),
    };
    assert(Seq::<char>::empty() + faction_name@ =~= faction_name@);
    r
}

/// Describe a faction leaving a system.
pub fn retreat_description(faction_name: &str, category: &FactionCategory, system_name: &str) -> (r:
    String)
    ensures
        r@ == retreat_text(faction_name@, *category, system_name@),
{
    proof {
        reveal_strlit("");
    }
    let r = match category {
        FactionCategory::Military => sentence("", faction_name, " withdrew its personnel from ", system_name),
        FactionCategory::Economic => sentence("", faction_name, " closed its operations at ", system_name),
        FactionCategory::Guild => sentence("", faction_name, " shuttered its chapter house at ", system_name),
        FactionCategory::Religious => sentence("", faction_name, " pilgrims quietly departed ", system_name),
        FactionCategory::Political => sentence("", faction_name, " recalled its administrators from ", system_name),
        FactionCategory::Academic => sentence("", faction_name, " closed its research station at ", system_name),
        FactionCategory::Criminal => sentence("", faction_name, " is no longer seen at ", system_name),
    };
    assert(Seq::<char>::empty() + faction_name@ =~= faction_name@);
    r
}

} // verus!
