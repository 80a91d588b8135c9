//! Crew conversation bookkeeping: where topics come from, the order in
//! which they are offered, and concerns a conversation puts to rest.

use vstd::prelude::*;

use crate::simulation::templates::lists_text;
use crate::text::views;

verus! {

/// Where a conversation topic originated.
#[derive(Debug, Clone)]
pub enum TopicSource {
    /// From one of the crew member's core personality drives.
    Drive(String),
    /// From their active concerns.
    Concern,
    /// From ship or resource state.
    ShipState,
    /// From a recent event in the log.
    RecentEvent,
    /// From an active narrative thread.
    ThreadReaction,
    /// From the trust relationship with the captain.
    TrustDynamic,
    /// From their current stress level.
    StressResponse,
}

/// Two sources are the same (drives compare by name).
pub open spec fn same_source(a: TopicSource, b: TopicSource) -> bool {
    match (a, b) {
        (TopicSource::Drive(x), TopicSource::Drive(y)) => x@ == y@,
        (TopicSource::Concern, TopicSource::Concern) => true,
        (TopicSource::ShipState, TopicSource::ShipState) => true,
        (TopicSource::RecentEvent, TopicSource::RecentEvent) => true,
        (TopicSource::ThreadReaction, TopicSource::ThreadReaction) => true,
        (TopicSource::TrustDynamic, TopicSource::TrustDynamic) => true,
        (TopicSource::StressResponse, TopicSource::StressResponse) => true,
        _ => false,
    }
}

/// Whether two topic sources are the same.
pub fn source_eq(a: &TopicSource, b: &TopicSource) -> (r: bool)
    ensures
        r == same_source(*a, *b),
{
    match (a, b) {
        (TopicSource::Drive(x), TopicSource::Drive(y)) => *x == *y,
        (TopicSource::Concern, TopicSource::Concern) => true,
        (TopicSource::ShipState, TopicSource::ShipState) => true,
        (TopicSource::RecentEvent, TopicSource::RecentEvent) => true,
        (TopicSource::ThreadReaction, TopicSource::ThreadReaction) => true,
        (TopicSource::TrustDynamic, TopicSource::TrustDynamic) => true,
        (TopicSource::StressResponse, TopicSource::StressResponse) => true,
        _ => false,
    }
}

/// Topic `k` (from the fourth on) is the first whose source differs from
/// the top topic's.
pub open spec fn first_diverse(sources: Seq<TopicSource>, k: int) -> bool {
    &&& 3 <= k < sources.len()
    &&& !same_source(sources[k], sources[0])
    &&& forall|j: int| 3 <= j < k ==> same_source(sources[j], sources[0])
}

/// Of topics ranked by urgency, the first one (from the fourth on) whose
/// source differs from the top topic's, when the top three share a source.
pub open spec fn diverse_pick(sources: Seq<TopicSource>) -> Option<int> {
    if sources.len() >= 3 && same_source(sources[0], sources[1])
        && same_source(sources[1], sources[2])
        && exists|k: int| 3 <= k < sources.len() && !same_source(sources[k], sources[0]) {
        Some(choose|k: int| first_diverse(sources, k))
    } else {
        None
    }
}

/// The ranking after the diversity pass: the picked topic moves to third
/// place, the rest keep their order.
pub open spec fn diversified<T>(topics: Seq<T>, pick: Option<int>) -> Seq<T> {
    match pick {
        Some(k) => topics.remove(k).insert(2, topics[k]),
        None => topics,
    }
}

/// The diversity pass over topics ranked by urgency: if the top three all
/// come from the same source, the highest-ranked topic from another source
/// is moved up to third place. `sources[i]` is the source of `topics[i]`;
/// both are reordered alike.
pub fn diversify_topics<T>(topics: &mut Vec<T>, sources: &mut Vec<TopicSource>)
    requires
        old(topics)@.len() == old(sources)@.len(),
    ensures
        final(topics)@ == diversified(old(topics)@, diverse_pick(old(sources)@)),
        final(sources)@ == diversified(old(sources)@, diverse_pick(old(sources)@)),
{
    let n = sources.len();
    if n < 3 || !source_eq(&sources[0], &sources[1]) || !source_eq(&sources[1], &sources[2]) {
        return;
    }
    let mut k: usize = 3;
    while k < n
        invariant
            n == sources@.len(),
            n == topics@.len(),
            3 <= k <= n,
            sources@ == old(sources)@,
            topics@ == old(topics)@,
            same_source(sources@[0], sources@[1]),
            same_source(sources@[1], sources@[2]),
            forall|j: int| 3 <= j < k ==> same_source(sources@[j], sources@[0]),
        decreases n - k,
    {
        if !source_eq(&sources[k], &sources[0]) {
            let ghost kk = k as int;
            assert(first_diverse(old(sources)@, kk));
            let ghost picked = diverse_pick(old(sources)@);
            assert(picked == Some(kk)) by {
                assert(3 <= kk < old(sources)@.len() && !same_source(old(sources)@[kk], old(sources)@[0]));
                let c = choose|c: int| first_diverse(old(sources)@, c);
                if c < kk {
                    assert(same_source(old(sources)@[c], old(sources)@[0]));
                } else if c > kk {
                    assert(same_source(old(sources)@[kk], old(sources)@[0]));
                }
            }
            let t = topics.remove(k);
            topics.insert(2, t);
            let s = sources.remove(k);
            sources.insert(2, s);
            return;
        }
        k = k + 1;
    }
    assert(diverse_pick(old(sources)@) is None);
}

/// Concerns that remain when every one matching a removal is dropped,
/// in the order they were held.
pub open spec fn remaining_concerns(concerns: Seq<Seq<char>>, removals: Seq<Seq<char>>) -> Seq<Seq<char>>
    decreases concerns.len(),
{
    if concerns.len() == 0 {
        Seq::empty()
    } else {
        let rest = remaining_concerns(concerns.drop_last(), removals);
        if removals.contains(concerns.last()) {
            rest
        } else {
            rest.push(concerns.last())
        }
    }
}

fn is_listed(list: &Vec<String>, item: &String) -> (r: bool)
    ensures
        r == views(list@).contains(item@),
{
    let mut i: usize = 0;
    while i < list.len()
        invariant
            i <= list.len(),
            forall|j: int| 0 <= j < i ==> list@[j]@ != item@,
        decreases list.len() - i,
    {
        if list[i] == *item {
            assert(views(list@)[i as int] == item@);
            return true;
        }
        i = i + 1;
    }
    assert forall|j: int| 0 <= j < views(list@).len() implies views(list@)[j] != item@ by {
        assert(views(list@)[j] == list@[j]@);
    }
    false
}

/// Drop the concerns a conversation resolved. `removals` are the texts of
/// the conversation's concern-removing effects, in order; every concern
/// equal to one of them goes, the others keep their order.
pub fn apply_concern_removals(concerns: &mut Vec<String>, removals: &Vec<String>)
    ensures
        views(final(concerns)@) == remaining_concerns(views(old(concerns)@), views(removals@)),
{
    let mut kept: Vec<String> = Vec::new();
    let mut i: usize = 0;
    while i < concerns.len()
        invariant
            i <= concerns.len(),
            concerns@ == old(concerns)@,
            views(kept@) == remaining_concerns(views(concerns@).take(i as int), views(removals@)),
        decreases concerns.len() - i,
    {
        assert(views(concerns@).take(i as int + 1).drop_last() =~= views(concerns@).take(i as int));
        if !is_listed(removals, &concerns[i]) {
            let c = concerns[i].clone();
            kept.push(c);
            assert(views(kept@) =~= remaining_concerns(views(concerns@).take(i as int + 1), views(removals@)));
        }
        i = i + 1;
    }
    assert(views(concerns@).take(i as int) =~= views(concerns@));
    *concerns = kept;
}

proof fn lemma_first_diverse_exists(sources: Seq<TopicSource>, w: int)
    requires
        3 <= w < sources.len(),
        !same_source(sources[w], sources[0]),
    ensures
        exists|c: int| first_diverse(sources, c),
    decreases w,
{
    if forall|j: int| 3 <= j < w ==> same_source(sources[j], sources[0]) {
        assert(first_diverse(sources, w));
    } else {
        let j = choose|j: int| 3 <= j < w && !same_source(sources[j], sources[0]);
        lemma_first_diverse_exists(sources, j);
    }
}

/// After the diversity pass the ranking keeps its length and its top two
/// topics; and when the top three shared a source while another source was
/// on offer, third place now goes to the best topic of another source.
pub proof fn law_diversity_pass(sources: Seq<TopicSource>)
    ensures
        diversified(sources, diverse_pick(sources)).len() == sources.len(),
        sources.len() >= 2 ==> diversified(sources, diverse_pick(sources))[0] == sources[0]
            && diversified(sources, diverse_pick(sources))[1] == sources[1],
        diverse_pick(sources) matches Some(k) ==> {
            &&& diversified(sources, diverse_pick(sources))[2] == sources[k]
            &&& !same_source(diversified(sources, diverse_pick(sources))[2], sources[0])
        },
{
    if let Some(k) = diverse_pick(sources) {
        let w = choose|w: int| 3 <= w < sources.len() && !same_source(sources[w], sources[0]);
        lemma_first_diverse_exists(sources, w);
        assert(first_diverse(sources, k));
    }
}

/// After resolving concerns, none of the removed concerns remains, and
/// every remaining concern was already there.
pub proof fn law_removed_concerns_gone(concerns: Seq<Seq<char>>, removals: Seq<Seq<char>>)
    ensures
        forall|i: int| 0 <= i < remaining_concerns(concerns, removals).len() ==> {
            &&& !removals.contains(#[trigger] remaining_concerns(concerns, removals)[i])
            &&& concerns.contains(remaining_concerns(concerns, removals)[i])
        },
    decreases concerns.len(),
{
    if concerns.len() > 0 {
        law_removed_concerns_gone(concerns.drop_last(), removals);
        let rest = remaining_concerns(concerns.drop_last(), removals);
        assert forall|i: int| 0 <= i < remaining_concerns(concerns, removals).len() implies {
            &&& !removals.contains(#[trigger] remaining_concerns(concerns, removals)[i])
            &&& concerns.contains(remaining_concerns(concerns, removals)[i])
        } by {
            if i < rest.len() {
                assert(rest[i] == remaining_concerns(concerns, removals)[i]);
                let j = choose|j: int| 0 <= j < concerns.drop_last().len()
                    && concerns.drop_last()[j] == rest[i];
                assert(concerns[j] == rest[i]);
            } else {
                assert(concerns[concerns.len() - 1] == concerns.last());
            }
        }
    }
}


/// The items whose id was not discussed recently, in order; `ids[i]` is
/// the id of `items[i]`.
pub open spec fn fresh<T>(items: Seq<T>, ids: Seq<String>, recent: Seq<String>) -> Seq<T>
    decreases items.len(),
{
    if items.len() == 0 || ids.len() == 0 {
        Seq::empty()
    } else {
        let prev = fresh(items.drop_last(), ids.drop_last(), recent);
        if lists_text(recent, ids.last()@) {
            prev
        } else {
            prev.push(items.last())
        }
    }
}

fn discussed(recent: &Vec<String>, id: &String) -> (r: bool)
    ensures
        r == lists_text(recent@, id@),
{
    let mut i: usize = 0;
    while i < recent.len()
        invariant
            i <= recent.len(),
            forall|q: int| 0 <= q < i ==> recent@[q]@ != id@,
        decreases recent.len() - i,
    {
        if recent[i] == *id {
            return true;
        }
        i = i + 1;
    }
    false
}

/// Drop the topics discussed recently: a topic goes when its id is in
/// `recently_discussed`. `ids[i]` is the id of `topics[i]`; both lists are
/// filtered alike.
pub fn drop_recent_topics<T>(topics: &mut Vec<T>, ids: &mut Vec<String>, recently_discussed: &Vec<String>)
    requires
        old(topics)@.len() == old(ids)@.len(),
    ensures
        final(topics)@ == fresh(old(topics)@, old(ids)@, recently_discussed@),
        final(ids)@ == fresh(old(ids)@, old(ids)@, recently_discussed@),
{
    let ghost orig_t = topics@;
    let ghost orig_i = ids@;
    let n = topics.len();
    let mut rest_t: Vec<T> = Vec::new();
    let mut rest_i: Vec<String> = Vec::new();
    std::mem::swap(topics, &mut rest_t);
    std::mem::swap(ids, &mut rest_i);
    let mut k: usize = 0;
    while k < n
        invariant
            n == orig_t.len(),
            n == orig_i.len(),
            k <= n,
            rest_t@ == orig_t.skip(k as int),
            rest_i@ == orig_i.skip(k as int),
            topics@ == fresh(orig_t.take(k as int), orig_i.take(k as int), recently_discussed@),
            ids@ == fresh(orig_i.take(k as int), orig_i.take(k as int), recently_discussed@),
        decreases n - k,
    {
        assert(orig_t.take(k as int + 1).drop_last() =~= orig_t.take(k as int));
        assert(orig_i.take(k as int + 1).drop_last() =~= orig_i.take(k as int));
        let t = rest_t.remove(0);
        let id = rest_i.remove(0);
        assert(rest_t@ =~= orig_t.skip(k as int + 1));
        assert(rest_i@ =~= orig_i.skip(k as int + 1));
        if !discussed(recently_discussed, &id) {
            topics.push(t);
            ids.push(id);
        }
        k = k + 1;
    }
    assert(orig_t.take(n as int) =~= orig_t);
    assert(orig_i.take(n as int) =~= orig_i);
}

} // verus!
