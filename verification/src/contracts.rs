//! Contract progress: when the player reaches a contract's destination,
//! the contract's objective is checked and cargo is delivered or retrieved.

use vstd::prelude::*;
use vstd::string::*;

use crate::cargo::{held, lemma_held_after_set, lemma_held_after_remove, lemma_total_update, lemma_total_remove, lemma_total_push, lemma_set_keeps_distinct, lemma_remove_keeps_distinct, names_distinct, has_name, index_of_name, lemma_entry_le_total, remove_name, set_quantity, total, CargoHold, HoldView};
use crate::npc_interaction::Npc;
use crate::simulation::faction_ai::infrastructure_rank;
use crate::simulation::galaxy::{
    find_system, infra_rank, system_with_id, Connection, Faction, FactionCategory, Location,
    StarSystem,
};
use crate::simulation::travel::{destination_id, far_end};
use crate::text::{decimal, decimal_string};

verus! {

/// What a contract asks of the player.
#[derive(Debug, Clone, Copy, PartialEq, Eq, Structural)]
pub enum ContractType {
    /// Carry goods to the destination.
    Delivery,
    /// Pick goods up at the destination.
    Retrieval,
    /// Visit the destination and look around.
    Investigation,
}

/// Where a contract stands.
#[derive(Debug, Clone, Copy, PartialEq, Eq, Structural)]
pub enum ContractState {
    /// Accepted; the objective is not met yet.
    Active,
    /// The objective is met; the issuer has not paid yet.
    ReadyToComplete,
    /// Paid out and closed.
    Completed,
}

/// A contract held by the player, with the fields progress checks read.
#[derive(Debug)]
pub struct Contract {
    pub id: u128,
    pub title: String,
    pub contract_type: ContractType,
    pub state: ContractState,
    pub destination_system_id: u128,
    /// A specific location within the destination system, if any.
    pub destination_location_id: Option<u128>,
    /// Goods to deliver or retrieve: name and quantity.
    pub cargo_required: Option<(String, u32)>,
}

/// The same contract in another state.
pub open spec fn with_state(c: Contract, s: ContractState) -> Contract {
    Contract { state: s, ..c }
}

/// The player stands where the contract's objective lies.
pub open spec fn at_destination(c: Contract, system: u128, location: Option<u128>) -> bool {
    &&& c.destination_system_id == system
    &&& (c.destination_location_id matches Some(d) ==> location == Some(d))
}

pub open spec fn delivered_message(title: Seq<char>, cargo: Seq<char>, qty: u32) -> Seq<char> {
    "Contract objective complete: "@ + title + ". Delivered "@ + cargo + " x"@ + decimal(qty as nat)
        + ". Return to the contract issuer to collect payment."@
}

pub open spec fn hold_full_message(title: Seq<char>, cargo: Seq<char>, qty: u32) -> Seq<char> {
    "You've located the "@ + cargo + " for contract: "@ + title
        + ", but your cargo hold is too full to take it. Free up "@ + decimal(qty as nat)
        + " units of cargo space."@
}

pub open spec fn retrieved_message(title: Seq<char>, cargo: Seq<char>, qty: u32) -> Seq<char> {
    "Contract objective complete: "@ + title + ". Retrieved "@ + cargo + " x"@ + decimal(qty as nat)
        + ". Return to the contract issuer to collect payment."@
}

pub open spec fn objective_message(title: Seq<char>) -> Seq<char> {
    "Contract objective complete: "@ + title + ". Return to the contract issuer to collect payment."@
}

pub open spec fn investigation_message(title: Seq<char>) -> Seq<char> {
    "Investigation complete: "@ + title
        + ". You've seen enough. Return to the contract issuer to report your findings."@
}

/// One contract's progress check: its new state, the hold afterwards,
/// and the message shown, if any.
pub open spec fn progress_step(
    c: Contract,
    hold: HoldView,
    capacity: u32,
    system: u128,
    location: Option<u128>,
) -> (ContractState, HoldView, Option<Seq<char>>) {
    if c.state != ContractState::Active || !at_destination(c, system, location) {
        (c.state, hold, None)
    } else {
        match c.contract_type {
            ContractType::Delivery => match c.cargo_required {
                Some((name, qty)) => {
                    let have = held(hold, name@);
                    if have >= qty {
                        let remaining = (have - qty) as nat;
                        let after = if remaining == 0 {
                            remove_name(hold, name@)
                        } else {
                            set_quantity(hold, name@, remaining as u32)
                        };
                        (ContractState::ReadyToComplete, after,
                            Some(delivered_message(c.title@, name@, qty)))
                    } else {
                        (c.state, hold, None)
                    }
                },
                None => (c.state, hold, None),
            },
            ContractType::Retrieval => match c.cargo_required {
                Some((name, qty)) => {
                    if total(hold) + qty > capacity {
                        (c.state, hold, Some(hold_full_message(c.title@, name@, qty)))
                    } else {
                        (ContractState::ReadyToComplete,
                            set_quantity(hold, name@, (held(hold, name@) + qty) as u32),
                            Some(retrieved_message(c.title@, name@, qty)))
                    }
                },
                None => (ContractState::ReadyToComplete, hold,
                    Some(objective_message(c.title@))),
            },
            ContractType::Investigation => (ContractState::ReadyToComplete, hold,
                Some(investigation_message(c.title@))),
        }
    }
}

/// Progress checks over contracts in order, each seeing the hold the
/// previous ones left: the new states, the final hold, the messages.
pub open spec fn progress_all(
    cs: Seq<Contract>,
    hold: HoldView,
    capacity: u32,
    system: u128,
    location: Option<u128>,
) -> (Seq<ContractState>, HoldView, Seq<Seq<char>>)
    decreases cs.len(),
{
    if cs.len() == 0 {
        (seq![], hold, seq![])
    } else {
        let prev = progress_all(cs.drop_last(), hold, capacity, system, location);
        let step = progress_step(cs.last(), prev.1, capacity, system, location);
        (prev.0.push(step.0), step.1, match step.2 {
            Some(m) => prev.2.push(m),
            None => prev.2,
        })
    }
}

/// One new state per contract.
pub proof fn lemma_progress_len(
    cs: Seq<Contract>,
    hold: HoldView,
    capacity: u32,
    system: u128,
    location: Option<u128>,
)
    ensures
        progress_all(cs, hold, capacity, system, location).0.len() == cs.len(),
    decreases cs.len(),
{
    if cs.len() > 0 {
        lemma_progress_len(cs.drop_last(), hold, capacity, system, location);
    }
}

/// A progress check never takes a contract backwards: each contract either
/// keeps its state or goes from `Active` to `ReadyToComplete`, and only
/// when the player stands at its destination.
pub proof fn law_progress_only_advances(
    cs: Seq<Contract>,
    hold: HoldView,
    capacity: u32,
    system: u128,
    location: Option<u128>,
)
    ensures
        forall|i: int| 0 <= i < cs.len() ==> {
            let s = #[trigger] progress_all(cs, hold, capacity, system, location).0[i];
            s == cs[i].state || (cs[i].state == ContractState::Active
                && s == ContractState::ReadyToComplete && at_destination(cs[i], system, location))
        },
    decreases cs.len(),
{
    lemma_progress_len(cs, hold, capacity, system, location);
    if cs.len() > 0 {
        law_progress_only_advances(cs.drop_last(), hold, capacity, system, location);
        lemma_progress_len(cs.drop_last(), hold, capacity, system, location);
        assert forall|i: int| 0 <= i < cs.len() implies {
            let s = #[trigger] progress_all(cs, hold, capacity, system, location).0[i];
            s == cs[i].state || (cs[i].state == ContractState::Active
                && s == ContractState::ReadyToComplete && at_destination(cs[i], system, location))
        } by {
            if i < cs.len() - 1 {
                assert(cs.drop_last()[i] == cs[i]);
            }
        }
    }
}

/// A contract's check has something to say: the contract advanced, or it
/// is a retrieval at its destination that stayed active.
pub open spec fn reports(c: Contract, s: ContractState, system: u128, location: Option<u128>) -> bool {
    ||| s != c.state
    ||| (c.state == ContractState::Active && at_destination(c, system, location)
        && c.contract_type == ContractType::Retrieval && c.cargo_required is Some)
}

/// How many of the contracts have something to say, given their new states.
pub open spec fn report_count(
    cs: Seq<Contract>,
    states: Seq<ContractState>,
    system: u128,
    location: Option<u128>,
) -> nat
    decreases cs.len(),
{
    if cs.len() == 0 {
        0
    } else {
        report_count(cs.drop_last(), states.drop_last(), system, location) + if reports(
            cs.last(),
            states.last(),
            system,
            location,
        ) {
            1nat
        } else {
            0nat
        }
    }
}

/// A progress check gives exactly one message for each contract that
/// advanced and for each retrieval refused for want of hold space, and
/// none for any other contract.
pub proof fn law_progress_messages(
    cs: Seq<Contract>,
    hold: HoldView,
    capacity: u32,
    system: u128,
    location: Option<u128>,
)
    ensures
        ({
            let r = progress_all(cs, hold, capacity, system, location);
            r.2.len() == report_count(cs, r.0, system, location)
        }),
    decreases cs.len(),
{
    if cs.len() > 0 {
        law_progress_messages(cs.drop_last(), hold, capacity, system, location);
        let prev = progress_all(cs.drop_last(), hold, capacity, system, location);
        let r = progress_all(cs, hold, capacity, system, location);
        assert(r.0.drop_last() =~= prev.0);
    }
}

/// A delivery checked at its destination takes exactly the goods it asks
/// for: with enough on board it is fulfilled, the hold carries exactly
/// `qty` fewer of the good and the same of every other good; without
/// enough it stays active, the hold is untouched and nothing is said.
pub proof fn law_delivery_takes_exactly(
    c: Contract,
    name: String,
    qty: u32,
    hold: HoldView,
    capacity: u32,
    system: u128,
    location: Option<u128>,
)
    requires
        names_distinct(hold),
        c.state == ContractState::Active,
        c.destination_system_id == system,
        c.destination_location_id matches Some(d) ==> location == Some(d),
        c.contract_type == ContractType::Delivery,
        c.cargo_required == Some((name, qty)),
    ensures
        ({
            let r = progress_step(c, hold, capacity, system, location);
            &&& held(hold, name@) >= qty ==> {
                &&& r.0 == ContractState::ReadyToComplete
                &&& held(r.1, name@) + qty == held(hold, name@)
                &&& forall|g: Seq<char>| g != name@ ==> #[trigger] held(r.1, g) == held(hold, g)
                &&& r.2 is Some
            }
            &&& held(hold, name@) < qty ==> {
                &&& r.0 == ContractState::Active
                &&& r.1 == hold
                &&& r.2 is None
            }
        }),
{
    let have = held(hold, name@);
    if have >= qty {
        let remaining = (have - qty) as nat;
        if has_name(hold, name@) {
            let k = index_of_name(hold, name@);
            assert(hold[k].1 as nat == have);
        }
        assert forall|g: Seq<char>| g != name@ implies #[trigger] held(
            progress_step(c, hold, capacity, system, location).1,
            g,
        ) == held(hold, g) by {
            lemma_held_after_remove(hold, name@, g);
            lemma_held_after_set(hold, name@, remaining as u32, g);
        }
        lemma_held_after_remove(hold, name@, name@);
        lemma_held_after_set(hold, name@, remaining as u32, name@);
    }
}

/// A retrieval checked at its destination adds exactly the goods it asks
/// for when they fit: it is fulfilled, the hold carries exactly `qty` more
/// of the good and the same of every other good. When they do not fit it
/// stays active, the hold is untouched, and the player is told.
pub proof fn law_retrieval_adds_exactly(
    c: Contract,
    name: String,
    qty: u32,
    hold: HoldView,
    capacity: u32,
    system: u128,
    location: Option<u128>,
)
    requires
        names_distinct(hold),
        total(hold) <= capacity,
        c.state == ContractState::Active,
        c.destination_system_id == system,
        c.destination_location_id matches Some(d) ==> location == Some(d),
        c.contract_type == ContractType::Retrieval,
        c.cargo_required == Some((name, qty)),
    ensures
        ({
            let r = progress_step(c, hold, capacity, system, location);
            &&& total(hold) + qty <= capacity ==> {
                &&& r.0 == ContractState::ReadyToComplete
                &&& held(r.1, name@) == held(hold, name@) + qty
                &&& forall|g: Seq<char>| g != name@ ==> #[trigger] held(r.1, g) == held(hold, g)
                &&& r.2 is Some
            }
            &&& total(hold) + qty > capacity ==> {
                &&& r.0 == ContractState::Active
                &&& r.1 == hold
                &&& r.2 is Some
            }
        }),
{
    if total(hold) + qty <= capacity {
        let have = held(hold, name@);
        if has_name(hold, name@) {
            let k = index_of_name(hold, name@);
            lemma_entry_le_total(hold, k);
        }
        assert(have + qty <= u32::MAX);
        assert forall|g: Seq<char>| g != name@ implies #[trigger] held(
            progress_step(c, hold, capacity, system, location).1,
            g,
        ) == held(hold, g) by {
            lemma_held_after_set(hold, name@, (have + qty) as u32, g);
        }
        lemma_held_after_set(hold, name@, (have + qty) as u32, name@);
    }
}

/// The hold never ends up over capacity: if the goods on board fit before
/// a progress check, they fit after it.
pub proof fn law_progress_respects_capacity(
    cs: Seq<Contract>,
    hold: HoldView,
    capacity: u32,
    system: u128,
    location: Option<u128>,
)
    requires
        names_distinct(hold),
        total(hold) <= capacity,
    ensures
        total(progress_all(cs, hold, capacity, system, location).1) <= capacity,
        names_distinct(progress_all(cs, hold, capacity, system, location).1),
    decreases cs.len(),
{
    if cs.len() > 0 {
        law_progress_respects_capacity(cs.drop_last(), hold, capacity, system, location);
        let h = progress_all(cs.drop_last(), hold, capacity, system, location).1;
        lemma_step_respects_capacity(cs.last(), h, capacity, system, location);
    }
}

proof fn lemma_step_respects_capacity(
    c: Contract,
    hold: HoldView,
    capacity: u32,
    system: u128,
    location: Option<u128>,
)
    requires
        names_distinct(hold),
        total(hold) <= capacity,
    ensures
        total(progress_step(c, hold, capacity, system, location).1) <= capacity,
        names_distinct(progress_step(c, hold, capacity, system, location).1),
{
    if c.state == ContractState::Active && at_destination(c, system, location) {
        match c.cargo_required {
            Some((name, qty)) => {
                let n = name@;
                if has_name(hold, n) {
                    let k = index_of_name(hold, n);
                    lemma_total_update(hold, k, (n, (held(hold, n) + qty) as u32));
                    if held(hold, n) >= qty {
                        lemma_total_update(hold, k, (n, (held(hold, n) - qty) as u32));
                        lemma_total_remove(hold, k);
                    }
                    lemma_set_keeps_distinct(hold, n, (held(hold, n) + qty) as u32);
                    if held(hold, n) >= qty {
                        lemma_set_keeps_distinct(hold, n, (held(hold, n) - qty) as u32);
                    }
                    lemma_remove_keeps_distinct(hold, n);
                } else {
                    lemma_total_push(hold, (n, qty));
                    lemma_set_keeps_distinct(hold, n, qty);
                }
            },
            None => {},
        }
    }
}

fn location_matches(dest: Option<u128>, current: Option<u128>) -> (r: bool)
    ensures
        r == (dest matches Some(d) ==> current == Some(d)),
{
    match dest {
        None => true,
        Some(d) => match current {
            Some(c) => c == d,
            None => false,
        },
    }
}

/// Check whether any active contracts have been fulfilled at the player's
/// current location. Fulfilled contracts move to `ReadyToComplete`;
/// deliveries take their goods out of the hold, retrievals put theirs in
/// when there is room.
///
/// Returns the progress messages for display, in contract order.
pub fn check_contract_progress(
    contracts: &mut Vec<Contract>,
    hold: &mut CargoHold,
    current_system: u128,
    current_location: Option<u128>,
) -> (messages: Vec<String>)
    requires
        old(hold).wf(),
    ensures
        ({
            let r = progress_all(old(contracts)@, old(hold)@, old(hold).capacity,
                current_system, current_location);
            &&& final(contracts)@.len() == old(contracts)@.len()
            &&& forall|i: int| 0 <= i < old(contracts)@.len() ==>
                #[trigger] final(contracts)@[i] == with_state(old(contracts)@[i], r.0[i])
            &&& final(hold)@ == r.1
            &&& messages@.map_values(|m: String| m@) == r.2
        }),
        final(hold).wf(),
        final(hold).capacity == old(hold).capacity,
{
    let mut messages: Vec<String> = Vec::new();
    let ghost cs0 = contracts@;
    let ghost h0 = hold@;
    let mut i: usize = 0;
    while i < contracts.len()
        invariant
            hold.wf(),
            hold.capacity == old(hold).capacity,
            contracts@.len() == cs0.len(),
            0 <= i <= cs0.len(),
            ({
                let r = progress_all(cs0.take(i as int), h0, hold.capacity,
                    current_system, current_location);
                &&& forall|j: int| 0 <= j < i ==>
                    #[trigger] contracts@[j] == with_state(cs0[j], r.0[j])
                &&& hold@ == r.1
                &&& messages@.map_values(|m: String| m@) == r.2
            }),
            forall|j: int| i <= j < cs0.len() ==> #[trigger] contracts@[j] == cs0[j],
        decreases cs0.len() - i,
    {
        assert(cs0.take(i as int + 1).drop_last() =~= cs0.take(i as int));
        proof {
            lemma_progress_len(cs0.take(i as int), h0, hold.capacity, current_system, current_location);
            lemma_progress_len(cs0.take(i as int + 1), h0, hold.capacity, current_system, current_location);
        }
        let ghost before_hold = hold@;
        let ghost before_msgs = messages@;
        let c = &contracts[i];
        let active = c.state == ContractState::Active;
        let here = c.destination_system_id == current_system
            && location_matches(c.destination_location_id, current_location);
        let mut new_state = c.state;
        if active && here {
            match c.contract_type {
                ContractType::Delivery => {
                    match &c.cargo_required {
                        Some((name, qty)) => {
                            let have = hold.get(name);
                            if have >= *qty {
                                let remaining = have - *qty;
                                if remaining == 0 {
                                    hold.remove(name);
                                } else {
                                    hold.set(name, remaining);
                                }
                                new_state = ContractState::ReadyToComplete;
                                let mut m = "Contract objective complete: ".to_owned();
                                m.append(c.title.as_str());
                                m.append(". Delivered ");
                                m.append(name.as_str());
                                m.append(" x");
                                let q = decimal_string(*qty as u64);
                                m.append(q.as_str());
                                m.append(". Return to the contract issuer to collect payment.");
                                messages.push(m);
                            }
                        },
                        None => {},
                    }
                },
                ContractType::Retrieval => {
                    match &c.cargo_required {
                        Some((name, qty)) => {
                            let total_units = hold.total_units();
                            let too_full = match total_units.checked_add(*qty as u128) {
                                Some(needed) => needed > hold.capacity as u128,
                                None => true,
                            };
                            if too_full {
                                let mut m = "You've located the ".to_owned();
                                m.append(name.as_str());
                                m.append(" for contract: ");
                                m.append(c.title.as_str());
                                m.append(", but your cargo hold is too full to take it. Free up ");
                                let q = decimal_string(*qty as u64);
                                m.append(q.as_str());
                                m.append(" units of cargo space.");
                                messages.push(m);
                            } else {
                                let current = hold.get(name);
                                proof {
                                    if has_name(hold@, name@) {
                                        lemma_entry_le_total(hold@, index_of_name(hold@, name@));
                                    }
                                }
                                hold.set(name, current + *qty);
                                new_state = ContractState::ReadyToComplete;
                                let mut m = "Contract objective complete: ".to_owned();
                                m.append(c.title.as_str());
                                m.append(". Retrieved ");
                                m.append(name.as_str());
                                m.append(" x");
                                let q = decimal_string(*qty as u64);
                                m.append(q.as_str());
                                m.append(". Return to the contract issuer to collect payment.");
                                messages.push(m);
                            }
                        },
                        None => {
                            new_state = ContractState::ReadyToComplete;
                            let mut m = "Contract objective complete: ".to_owned();
                            m.append(c.title.as_str());
                            m.append(". Return to the contract issuer to collect payment.");
                            messages.push(m);
                        },
                    }
                },
                ContractType::Investigation => {
                    new_state = ContractState::ReadyToComplete;
                    let mut m = "Investigation complete: ".to_owned();
                    m.append(c.title.as_str());
                    m.append(". You've seen enough. Return to the contract issuer to report your findings.");
                    messages.push(m);
                },
            }
        }
        let ghost step = progress_step(cs0[i as int], before_hold, hold.capacity,
            current_system, current_location);
        assert(new_state == step.0);
        assert(hold@ == step.1);
        assert(messages@.map_values(|m: String| m@) =~= (match step.2 {
            Some(m) => before_msgs.map_values(|m: String| m@).push(m),
            None => before_msgs.map_values(|m: String| m@),
        }));
        contracts[i].state = new_state;
        i = i + 1;
    }
    assert(cs0.take(cs0.len() as int) =~= cs0);
    proof {
        lemma_progress_len(cs0, h0, hold.capacity, current_system, current_location);
    }
    messages
}

/// The terms an offer of the given type index makes, for the issuer's
/// faction category, the destination's docking location name and system
/// name: title, briefing, cargo to carry, and reward in credits.
pub open spec fn offer_terms(
    kind: usize,
    c: Option<FactionCategory>,
    loc: Seq<char>,
    sys: Seq<char>,
) -> (Seq<char>, Seq<char>, Option<(Seq<char>, u32)>, u32) {
    if kind == 0 {
    match c {
        Some(FactionCategory::Guild) => (
            "Deliver repair components to "@ + loc,
            "\"We've got a maintenance backlog at "@ + loc + ". Standard repair components \u{2014} nothing exotic, but they need them yesterday. Deliver, get the dock master to sign off, and come back for your pay.\""@,
            Some(("Repair components"@, 8u32)),
            200u32,
        ),
        Some(FactionCategory::Military) => (
            "Transport sealed cargo to "@ + loc,
            "\"Military business. Sealed containers, don't ask what's inside. Take them to "@ + loc + " garrison, hand them over, bring back the receipt. Standard courier rate.\""@,
            Some(("Sealed military cargo"@, 5u32)),
            250u32,
        ),
        Some(FactionCategory::Economic) => (
            "Supply run to "@ + loc,
            "\"The market at "@ + loc + " is running short on manufactured goods. We've got a shipment ready to go. Deliver it, collect payment on delivery, and bring back our cut.\""@,
            Some(("Manufactured goods"@, 12u32)),
            180u32,
        ),
        Some(FactionCategory::Criminal) => (
            "Discreet delivery to "@ + sys,
            "\"I've got a package. It needs to get to "@ + sys + " without anyone asking questions. No manifests, no declarations. You handle it clean, I make it worth your while.\""@,
            Some(("Unmarked cargo"@, 3u32)),
            300u32,
        ),
        _ => (
            "Courier run to "@ + loc,
            "\"Standard job. Take this cargo to "@ + loc + ", hand it off, come back with confirmation. Simple work, fair pay.\""@,
            Some(("General cargo"@, 6u32)),
            175u32,
        ),
    }
    } else if kind == 1 {
    match c {
        Some(FactionCategory::Guild) => (
            "Retrieve salvaged parts from "@ + loc,
            "\"There's a set of reclaimed drive components at "@ + loc + ". Paid for, just need someone to pick them up and bring them back here. Should be straightforward.\""@,
            Some(("Reclaimed drive parts"@, 6u32)),
            220u32,
        ),
        Some(FactionCategory::Religious) => (
            "Recover relics from "@ + loc,
            "\"An artifact of the Order was left at "@ + loc + " during the last evacuation. We need it returned. You'll know it when you see it \u{2014} it resonates.\""@,
            Some(("Order relics"@, 2u32)),
            200u32,
        ),
        Some(FactionCategory::Economic) => (
            "Collect payment from "@ + loc,
            "\"We have an outstanding balance at "@ + loc + ". They've got our goods sitting in their hold. Go collect \u{2014} here's the manifest.\""@,
            Some(("Collected goods"@, 8u32)),
            190u32,
        ),
        Some(FactionCategory::Academic) => (
            "Retrieve research samples from "@ + loc,
            "\"Our field team at "@ + loc + " has samples ready for analysis. Delicate materials \u{2014} keep them sealed. The data is more valuable than the containers.\""@,
            Some(("Research samples"@, 3u32)),
            250u32,
        ),
        _ => (
            "Pick up cargo from "@ + loc,
            "\"There's a shipment waiting for us at "@ + loc + ". Go get it, bring it back. I'll make it worth your time.\""@,
            Some(("Retrieved cargo"@, 5u32)),
            185u32,
        ),
    }
    } else {
    match c {
        Some(FactionCategory::Military) => (
            "Investigate activity near "@ + sys,
            "\"We've had reports of unusual activity in the "@ + sys + " system. Go there, assess the situation, and report back. Don't engage \u{2014} just observe and document.\""@,
            None,
            280u32,
        ),
        Some(FactionCategory::Academic) => (
            "Survey anomalous readings at "@ + sys,
            "\"Our instruments have been picking up unusual readings from the "@ + sys + " system. We need someone on-site to confirm and characterize the source. Standard survey protocol.\""@,
            None,
            260u32,
        ),
        Some(FactionCategory::Criminal) => (
            "Scout "@ + sys + " for opportunities"@,
            "\"I need eyes at "@ + sys + ". Security patterns, docking schedules, who's coming and going. Routine business intelligence. Just look around and tell me what you see.\""@,
            None,
            300u32,
        ),
        Some(FactionCategory::Political) => (
            "Assess the political situation at "@ + sys,
            "\"There's been a shift in the local power balance at "@ + sys + ". I need an outside perspective \u{2014} someone without ties. Go there, talk to people, and report back what you find.\""@,
            None,
            260u32,
        ),
        Some(FactionCategory::Religious) => (
            "Investigate temporal readings near "@ + sys,
            "\"The Order has detected temporal anomalies in the "@ + sys + " region. We need someone to visit and document what they experience. Pay attention to how time feels there.\""@,
            None,
            220u32,
        ),
        _ => (
            "Check on situation at "@ + sys,
            "\"I need someone to swing by "@ + sys + " and see what's going on. Nothing dangerous \u{2014} just take a look around and let me know.\""@,
            None,
            200u32,
        ),
    }
    }
}

/// Write the terms of an offer.
fn offer_terms_text(
    kind: usize,
    c: Option<FactionCategory>,
    loc_name: &str,
    sys_name: &str,
) -> (r: (String, String, Option<(String, u32)>, u32))
    ensures
        r.0@ == offer_terms(kind, c, loc_name@, sys_name@).0,
        r.1@ == offer_terms(kind, c, loc_name@, sys_name@).1,
        match r.2 {
            Some((n, q)) => offer_terms(kind, c, loc_name@, sys_name@).2 == Some((n@, q)),
            None => offer_terms(kind, c, loc_name@, sys_name@).2 is None,
        },
        r.3 == offer_terms(kind, c, loc_name@, sys_name@).3,
{
    if kind == 0 {
    match c {
        Some(FactionCategory::Guild) => (
            prefixed("Deliver repair components to ", loc_name),
            framed("\"We've got a maintenance backlog at ", loc_name, ". Standard repair components \u{2014} nothing exotic, but they need them yesterday. Deliver, get the dock master to sign off, and come back for your pay.\""),
            Some(("Repair components".to_owned(), 8u32)),
            200u32,
        ),
        Some(FactionCategory::Military) => (
            prefixed("Transport sealed cargo to ", loc_name),
            framed("\"Military business. Sealed containers, don't ask what's inside. Take them to ", loc_name, " garrison, hand them over, bring back the receipt. Standard courier rate.\""),
            Some(("Sealed military cargo".to_owned(), 5u32)),
            250u32,
        ),
        Some(FactionCategory::Economic) => (
            prefixed("Supply run to ", loc_name),
            framed("\"The market at ", loc_name, " is running short on manufactured goods. We've got a shipment ready to go. Deliver it, collect payment on delivery, and bring back our cut.\""),
            Some(("Manufactured goods".to_owned(), 12u32)),
            180u32,
        ),
        Some(FactionCategory::Criminal) => (
            prefixed("Discreet delivery to ", sys_name),
            framed("\"I've got a package. It needs to get to ", sys_name, " without anyone asking questions. No manifests, no declarations. You handle it clean, I make it worth your while.\""),
            Some(("Unmarked cargo".to_owned(), 3u32)),
            300u32,
        ),
        _ => (
            prefixed("Courier run to ", loc_name),
            framed("\"Standard job. Take this cargo to ", loc_name, ", hand it off, come back with confirmation. Simple work, fair pay.\""),
            Some(("General cargo".to_owned(), 6u32)),
            175u32,
        ),
    }
    } else if kind == 1 {
    match c {
        Some(FactionCategory::Guild) => (
            prefixed("Retrieve salvaged parts from ", loc_name),
            framed("\"There's a set of reclaimed drive components at ", loc_name, ". Paid for, just need someone to pick them up and bring them back here. Should be straightforward.\""),
            Some(("Reclaimed drive parts".to_owned(), 6u32)),
            220u32,
        ),
        Some(FactionCategory::Religious) => (
            prefixed("Recover relics from ", loc_name),
            framed("\"An artifact of the Order was left at ", loc_name, " during the last evacuation. We need it returned. You'll know it when you see it \u{2014} it resonates.\""),
            Some(("Order relics".to_owned(), 2u32)),
            200u32,
        ),
        Some(FactionCategory::Economic) => (
            prefixed("Collect payment from ", loc_name),
            framed("\"We have an outstanding balance at ", loc_name, ". They've got our goods sitting in their hold. Go collect \u{2014} here's the manifest.\""),
            Some(("Collected goods".to_owned(), 8u32)),
            190u32,
        ),
        Some(FactionCategory::Academic) => (
            prefixed("Retrieve research samples from ", loc_name),
            framed("\"Our field team at ", loc_name, " has samples ready for analysis. Delicate materials \u{2014} keep them sealed. The data is more valuable than the containers.\""),
            Some(("Research samples".to_owned(), 3u32)),
            250u32,
        ),
        _ => (
            prefixed("Pick up cargo from ", loc_name),
            framed("\"There's a shipment waiting for us at ", loc_name, ". Go get it, bring it back. I'll make it worth your time.\""),
            Some(("Retrieved cargo".to_owned(), 5u32)),
            185u32,
        ),
    }
    } else {
    match c {
        Some(FactionCategory::Military) => (
            prefixed("Investigate activity near ", sys_name),
            framed("\"We've had reports of unusual activity in the ", sys_name, " system. Go there, assess the situation, and report back. Don't engage \u{2014} just observe and document.\""),
            None,
            280u32,
        ),
        Some(FactionCategory::Academic) => (
            prefixed("Survey anomalous readings at ", sys_name),
            framed("\"Our instruments have been picking up unusual readings from the ", sys_name, " system. We need someone on-site to confirm and characterize the source. Standard survey protocol.\""),
            None,
            260u32,
        ),
        Some(FactionCategory::Criminal) => (
            framed("Scout ", sys_name, " for opportunities"),
            framed("\"I need eyes at ", sys_name, ". Security patterns, docking schedules, who's coming and going. Routine business intelligence. Just look around and tell me what you see.\""),
            None,
            300u32,
        ),
        Some(FactionCategory::Political) => (
            prefixed("Assess the political situation at ", sys_name),
            framed("\"There's been a shift in the local power balance at ", sys_name, ". I need an outside perspective \u{2014} someone without ties. Go there, talk to people, and report back what you find.\""),
            None,
            260u32,
        ),
        Some(FactionCategory::Religious) => (
            prefixed("Investigate temporal readings near ", sys_name),
            framed("\"The Order has detected temporal anomalies in the ", sys_name, " region. We need someone to visit and document what they experience. Pay attention to how time feels there.\""),
            None,
            220u32,
        ),
        _ => (
            prefixed("Check on situation at ", sys_name),
            framed("\"I need someone to swing by ", sys_name, " and see what's going on. Nothing dangerous \u{2014} just take a look around and let me know.\""),
            None,
            200u32,
        ),
    }
    }
}

/// `head` then `mid` then `tail`.
fn framed(head: &str, mid: &str, tail: &str) -> (r: String)
    ensures
        r@ == head@ + mid@ + tail@,
{
    let mut r = head.to_owned();
    r.append(mid);
    r.append(tail);
    r
}

/// `head` then `tail`.
fn prefixed(head: &str, tail: &str) -> (r: String)
    ensures
        r@ == head@ + tail@,
{
    let mut r = head.to_owned();
    r.append(tail);
    r
}

/// The routes touching a system, in order.
pub open spec fn routes_touching(connections: Seq<Connection>, home: u128) -> Seq<Connection>
    decreases connections.len(),
{
    if connections.len() == 0 {
        Seq::empty()
    } else {
        let prev = routes_touching(connections.drop_last(), home);
        let c = connections.last();
        if c.system_a == home || c.system_b == home {
            prev.push(c)
        } else {
            prev
        }
    }
}

/// Among the first `n` locations, the docking one with the most
/// infrastructure (the last such on a tie).
pub open spec fn best_dock(locs: Seq<Location>, n: nat) -> Option<int>
    decreases n,
{
    if n == 0 {
        None
    } else {
        let prev = best_dock(locs, (n - 1) as nat);
        let l = locs[n - 1];
        if l.docking && match prev {
            None => true,
            Some(b) => infra_rank(locs[b].infrastructure) <= infra_rank(l.infrastructure),
        } {
            Some(n - 1)
        } else {
            prev
        }
    }
}

/// The category of the first faction with this id.
pub open spec fn category_of(factions: Seq<Faction>, id: u128) -> Option<FactionCategory>
    decreases factions.len(),
{
    if factions.len() == 0 {
        None
    } else if factions[0].id == id {
        Some(factions[0].category)
    } else {
        category_of(factions.drop_first(), id)
    }
}

/// The contract types a faction category hands out, with repeats for
/// weight: 0 delivery, 1 retrieval, 2 investigation.
pub open spec fn type_options(c: Option<FactionCategory>) -> Seq<usize> {
    match c {
        Some(FactionCategory::Guild) => seq![0usize, 0, 1, 1, 2],
        Some(FactionCategory::Military) => seq![0usize, 2, 2, 2],
        Some(FactionCategory::Economic) => seq![0usize, 0, 0, 1],
        Some(FactionCategory::Criminal) => seq![0usize, 0, 2],
        Some(FactionCategory::Religious) => seq![1usize, 1, 2],
        Some(FactionCategory::Academic) => seq![2usize, 2, 1],
        Some(FactionCategory::Political) => seq![2usize, 2, 0],
        None => seq![0usize, 0, 1],
    }
}

/// The contract type a type index stands for.
pub open spec fn type_for_index(kind: usize) -> ContractType {
    if kind == 0 {
        ContractType::Delivery
    } else if kind == 1 {
        ContractType::Retrieval
    } else {
        ContractType::Investigation
    }
}

/// A contract an NPC offers, before it is accepted.
#[derive(Debug)]
pub struct ContractOffer {
    pub contract_type: ContractType,
    pub issuer_npc_id: u128,
    pub issuer_faction_id: Option<u128>,
    pub title: String,
    pub description: String,
    pub origin_system_id: u128,
    pub destination_system_id: u128,
    pub destination_location_id: Option<u128>,
    pub cargo_required: Option<(String, u32)>,
    /// Payment on completion, in credits.
    pub reward: u32,
}

/// The offer an NPC makes, by the rules: the route is picked by the NPC's
/// id among the routes from its home; the destination's best docking
/// location is named when there is one; the type is picked by the NPC's
/// id plus the 30-day window among its faction's options; the terms
/// follow from type and faction.
pub open spec fn offer_matches(
    o: ContractOffer,
    npc: Npc,
    systems: Seq<StarSystem>,
    connections: Seq<Connection>,
    factions: Seq<Faction>,
    day_window: u128,
) -> bool {
    let routes = routes_touching(connections, npc.home_system_id);
    let route = routes[(npc.id as usize) as int % routes.len() as int];
    let dest = far_end(route, npc.home_system_id);
    let dest_sys = system_with_id(systems, dest);
    let sys_name = match dest_sys {
        Some(s) => s.name@,
        None => "Unknown"@,
    };
    let dock = match dest_sys {
        Some(s) => match best_dock(s.locations@, s.locations@.len()) {
            Some(k) => Some(s.locations@[k]),
            None => None,
        },
        None => None,
    };
    let loc_name = match dock {
        Some(l) => l.name@,
        None => sys_name,
    };
    let category = match npc.faction_id {
        Some(fid) => category_of(factions, fid),
        None => None,
    };
    let seed = vstd::wrapping::u128_specs::wrapping_add(npc.id, day_window);
    let options = type_options(category);
    let kind = options[(seed as usize) as int % options.len() as int];
    let terms = offer_terms(kind, category, loc_name, sys_name);
    &&& o.contract_type == type_for_index(kind)
    &&& o.issuer_npc_id == npc.id
    &&& o.issuer_faction_id == npc.faction_id
    &&& o.title@ == terms.0
    &&& o.description@ == terms.1
    &&& o.origin_system_id == npc.home_system_id
    &&& o.destination_system_id == dest
    &&& o.destination_location_id == match dock {
        Some(l) => Some(l.id),
        None => None,
    }
    &&& match o.cargo_required {
        Some((n, q)) => terms.2 == Some((n@, q)),
        None => terms.2 is None,
    }
    &&& o.reward == terms.3
}

fn routes_from(connections: &Vec<Connection>, home: u128) -> (r: Vec<Connection>)
    ensures
        r@ == routes_touching(connections@, home),
{
    let mut r: Vec<Connection> = Vec::new();
    let mut i: usize = 0;
    while i < connections.len()
        invariant
            i <= connections.len(),
            r@ == routes_touching(connections@.take(i as int), home),
        decreases connections.len() - i,
    {
        assert(connections@.take(i as int + 1).drop_last() =~= connections@.take(i as int));
        let c = connections[i];
        if c.system_a == home || c.system_b == home {
            r.push(c);
        }
        i = i + 1;
    }
    assert(connections@.take(i as int) =~= connections@);
    r
}

fn find_dock(locs: &Vec<Location>) -> (r: Option<usize>)
    ensures
        match r {
            Some(k) => best_dock(locs@, locs@.len()) == Some(k as int) && k < locs@.len(),
            None => best_dock(locs@, locs@.len()) is None,
        },
{
    let mut best: Option<usize> = None;
    let mut i: usize = 0;
    while i < locs.len()
        invariant
            i <= locs.len(),
            match best {
                Some(k) => best_dock(locs@, i as nat) == Some(k as int) && k < i,
                None => best_dock(locs@, i as nat) is None,
            },
        decreases locs.len() - i,
    {
        if locs[i].docking {
            let better = match best {
                None => true,
                Some(b) => infrastructure_rank(locs[b].infrastructure) <= infrastructure_rank(
                    locs[i].infrastructure,
                ),
            };
            if better {
                best = Some(i);
            }
        }
        i = i + 1;
    }
    best
}

pub(crate) fn find_category(factions: &Vec<Faction>, id: u128) -> (r: Option<FactionCategory>)
    ensures
        r == category_of(factions@, id),
{
    let mut i: usize = 0;
    assert(factions@.skip(0) =~= factions@);
    while i < factions.len()
        invariant
            i <= factions.len(),
            category_of(factions@, id) == category_of(factions@.skip(i as int), id),
        decreases factions.len() - i,
    {
        assert(factions@.skip(i as int).drop_first() =~= factions@.skip(i as int + 1));
        if factions[i].id == id {
            return Some(factions[i].category);
        }
        i = i + 1;
    }
    None
}

fn options_for(c: Option<FactionCategory>) -> (r: Vec<usize>)
    ensures
        r@ == type_options(c),
{
    let r = match c {
        Some(FactionCategory::Guild) => vec![0usize, 0, 1, 1, 2],
        Some(FactionCategory::Military) => vec![0usize, 2, 2, 2],
        Some(FactionCategory::Economic) => vec![0usize, 0, 0, 1],
        Some(FactionCategory::Criminal) => vec![0usize, 0, 2],
        Some(FactionCategory::Religious) => vec![1usize, 1, 2],
        Some(FactionCategory::Academic) => vec![2usize, 2, 1],
        Some(FactionCategory::Political) => vec![2usize, 2, 0],
        None => vec![0usize, 0, 1],
    };
    assert(r@ =~= type_options(c));
    r
}

/// Draw up the contract an NPC offers. `day_window` is the number of whole
/// 30-day periods of galactic time elapsed. No offer when no route leaves
/// the NPC's home system.
pub fn generate_contract(
    npc: &Npc,
    systems: &Vec<StarSystem>,
    connections: &Vec<Connection>,
    factions: &Vec<Faction>,
    day_window: u128,
) -> (r: Option<ContractOffer>)
    ensures
        r is None <==> routes_touching(connections@, npc.home_system_id).len() == 0,
        r matches Some(o) ==> offer_matches(o, *npc, systems@, connections@, factions@, day_window),
{
    let home_id = npc.home_system_id;
    let routes = routes_from(connections, home_id);
    if routes.len() == 0 {
        return None;
    }
    let id_bits = (#[verifier::truncate] (npc.id as usize));
    let conn = routes[id_bits % routes.len()];
    let dest_sys_id = destination_id(&conn, home_id);
    let dest_system = find_system(systems, dest_sys_id);
    let dest_sys_name: &str = match dest_system {
        Some(s) => s.name.as_str(),
        None => "Unknown",
    };
    let dock: Option<&Location> = match dest_system {
        Some(s) => match find_dock(&s.locations) {
            Some(k) => Some(&s.locations[k]),
            None => None,
        },
        None => None,
    };
    let dest_loc_id = match dock {
        Some(l) => Some(l.id),
        None => None,
    };
    let dest_loc_name: &str = match dock {
        Some(l) => l.name.as_str(),
        None => dest_sys_name,
    };
    let category = match npc.faction_id {
        Some(fid) => find_category(factions, fid),
        None => None,
    };
    let type_seed = npc.id.wrapping_add(day_window);
    let options = options_for(category);
    let seed_bits = (#[verifier::truncate] (type_seed as usize));
    let kind = options[seed_bits % options.len()];
    let (title, description, cargo_required, reward) = offer_terms_text(
        kind,
        category,
        dest_loc_name,
        dest_sys_name,
    );
    let contract_type = if kind == 0 {
        ContractType::Delivery
    } else if kind == 1 {
        ContractType::Retrieval
    } else {
        ContractType::Investigation
    };
    Some(
        ContractOffer {
            contract_type,
            issuer_npc_id: npc.id,
            issuer_faction_id: npc.faction_id,
            title,
            description,
            origin_system_id: home_id,
            destination_system_id: dest_sys_id,
            destination_location_id: dest_loc_id,
            cargo_required,
            reward,
        },
    )
}


/// Offers are deterministic: the same NPC, galaxy and 30-day window always
/// give the same offer.
pub proof fn law_offer_deterministic(
    a: ContractOffer,
    b: ContractOffer,
    npc: Npc,
    systems: Seq<StarSystem>,
    connections: Seq<Connection>,
    factions: Seq<Faction>,
    day_window: u128,
)
    requires
        offer_matches(a, npc, systems, connections, factions, day_window),
        offer_matches(b, npc, systems, connections, factions, day_window),
    ensures
        a.contract_type == b.contract_type,
        a.issuer_npc_id == b.issuer_npc_id,
        a.issuer_faction_id == b.issuer_faction_id,
        a.title@ == b.title@,
        a.description@ == b.description@,
        a.origin_system_id == b.origin_system_id,
        a.destination_system_id == b.destination_system_id,
        a.destination_location_id == b.destination_location_id,
        a.reward == b.reward,
        match (a.cargo_required, b.cargo_required) {
            (Some((n, q)), Some((m, p))) => n@ == m@ && q == p,
            (None, None) => true,
            _ => false,
        },
{
}

proof fn lemma_routes_touching(connections: Seq<Connection>, home: u128, i: int)
    requires
        0 <= i < routes_touching(connections, home).len(),
    ensures
        connections.contains(routes_touching(connections, home)[i]),
        routes_touching(connections, home)[i].system_a == home || routes_touching(
            connections,
            home,
        )[i].system_b == home,
    decreases connections.len(),
{
    let init = connections.drop_last();
    let prev = routes_touching(init, home);
    if i < prev.len() {
        lemma_routes_touching(init, home, i);
        let j = choose|j: int| 0 <= j < init.len() && init[j] == prev[i];
        assert(connections[j] == init[j]);
    } else {
        assert(connections[connections.len() - 1] == connections.last());
    }
}

/// An offer always sends the player one route away from the NPC's home:
/// some listed route joins the home system and the destination.
pub proof fn law_offer_destination_adjacent(
    o: ContractOffer,
    npc: Npc,
    systems: Seq<StarSystem>,
    connections: Seq<Connection>,
    factions: Seq<Faction>,
    day_window: u128,
)
    requires
        routes_touching(connections, npc.home_system_id).len() > 0,
        offer_matches(o, npc, systems, connections, factions, day_window),
    ensures
        exists|c: Connection| #[trigger] connections.contains(c) && ((c.system_a == npc.home_system_id
            && c.system_b == o.destination_system_id) || (c.system_b == npc.home_system_id
            && c.system_a == o.destination_system_id)),
{
    let routes = routes_touching(connections, npc.home_system_id);
    let i = (npc.id as usize) as int % routes.len() as int;
    lemma_routes_touching(connections, npc.home_system_id, i);
    let c = routes[i];
    assert(connections.contains(c));
}

} // verus!
