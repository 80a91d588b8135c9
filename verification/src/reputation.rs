//! Reputation bookkeeping: the domains skill checks fall into and the
//! bounded history of player actions.

use vstd::prelude::*;

verus! {

/// What domain a skill check falls into, for reputation matching.
#[derive(Debug, Clone, Copy, PartialEq, Eq, Structural)]
pub enum ReputationDomain {
    /// Navigation, scanning, exploration.
    Exploration,
    /// Combat, intimidation, tactical.
    Combat,
    /// Trade, negotiation, diplomacy.
    Social,
    /// Engineering, repair, technical.
    Technical,
    /// Stealth, subterfuge, information.
    Covert,
    /// No specific domain.
    General,
}

/// Most actions the history keeps; older ones are pruned first.
pub const MAX_HISTORY: usize = 200;

/// The history after recording an action: the new action goes last, and
/// the oldest entries go when there would be more than `MAX_HISTORY`.
pub open spec fn history_after<T>(history: Seq<T>, record: T) -> Seq<T> {
    let added = history.push(record);
    if added.len() > MAX_HISTORY {
        added.skip(added.len() - MAX_HISTORY)
    } else {
        added
    }
}

/// Append an action to the history, pruning the oldest entries beyond
/// the limit.
pub fn record_in_history<T>(history: &mut Vec<T>, record: T)
    ensures
        final(history)@ == history_after(old(history)@, record),
{
    history.push(record);
    if history.len() > MAX_HISTORY {
        let excess = history.len() - MAX_HISTORY;
        let ghost added = history@;
        let mut k: usize = 0;
        while k < excess
            invariant
                k <= excess,
                excess == added.len() - MAX_HISTORY,
                history@ == added.skip(k as int),
            decreases excess - k,
        {
            history.remove(0);
            assert(history@ =~= added.skip(k as int + 1));
            k = k + 1;
        }
    }
}

/// The history never holds more than `MAX_HISTORY` actions, and the
/// action just recorded is always its newest entry.
pub proof fn law_history_bounded<T>(history: Seq<T>, record: T)
    requires
        history.len() <= MAX_HISTORY,
    ensures
        history_after(history, record).len() <= MAX_HISTORY,
        history_after(history, record).last() == record,
        history_after(history, record).drop_last() == (if history.len() == MAX_HISTORY {
            history.drop_first()
        } else {
            history
        }),
{
    let added = history.push(record);
    if history.len() == MAX_HISTORY {
        assert(added.skip(1).drop_last() =~= history.drop_first());
    } else {
        assert(added.drop_last() =~= history);
    }
}

} // verus!
