//! The ship's cargo hold: named goods with quantities, and a capacity.
//!
//! Each good appears at most once in the hold. The order of entries is
//! the order in which goods were first loaded.

use vstd::prelude::*;

verus! {

/// One kind of good in the hold.
#[derive(Debug, Clone)]
pub struct CargoEntry {
    pub name: String,
    pub quantity: u32,
}

/// The abstract hold: a sequence of (name, quantity) pairs.
pub type HoldView = Seq<(Seq<char>, u32)>;

/// The names of the goods, in hold order.
pub open spec fn hold_names(s: HoldView) -> Seq<Seq<char>> {
    Seq::new(s.len(), |i: int| s[i].0)
}

/// No name occurs twice.
pub open spec fn names_distinct(s: HoldView) -> bool {
    forall|i: int, j: int| 0 <= i < j < s.len() ==> s[i].0 != s[j].0
}

/// Whether a good with this name is in the hold.
pub open spec fn has_name(s: HoldView, name: Seq<char>) -> bool {
    exists|i: int| 0 <= i < s.len() && s[i].0 == name
}

/// The index of the entry with this name (meaningful when `has_name`).
pub open spec fn index_of_name(s: HoldView, name: Seq<char>) -> int {
    choose|i: int| 0 <= i < s.len() && s[i].0 == name
}

/// How many units of a good the hold carries (zero when absent).
pub open spec fn held(s: HoldView, name: Seq<char>) -> nat {
    if has_name(s, name) {
        s[index_of_name(s, name)].1 as nat
    } else {
        0
    }
}

/// The total number of units in the hold.
pub open spec fn total(s: HoldView) -> nat
    decreases s.len(),
{
    if s.len() == 0 {
        0
    } else {
        total(s.drop_last()) + s.last().1 as nat
    }
}

/// The hold after setting the quantity of `name` (adding the good at the
/// end when it was absent).
pub open spec fn set_quantity(s: HoldView, name: Seq<char>, q: u32) -> HoldView {
    if has_name(s, name) {
        s.update(index_of_name(s, name), (name, q))
    } else {
        s.push((name, q))
    }
}

/// The hold after taking out every unit of `name`.
pub open spec fn remove_name(s: HoldView, name: Seq<char>) -> HoldView {
    if has_name(s, name) {
        s.remove(index_of_name(s, name))
    } else {
        s
    }
}

/// In a hold without duplicate names, an index that carries the name is
/// the one `index_of_name` picks.
pub proof fn lemma_index_unique(s: HoldView, name: Seq<char>, k: int)
    requires
        names_distinct(s),
        0 <= k < s.len(),
        s[k].0 == name,
    ensures
        has_name(s, name),
        index_of_name(s, name) == k,
        held(s, name) == s[k].1,
{
    assert(has_name(s, name));
    let j = index_of_name(s, name);
    if j != k {
        if j < k {
            assert(s[j].0 != s[k].0);
        } else {
            assert(s[k].0 != s[j].0);
        }
    }
}

/// Every single entry counts toward the total.
pub proof fn lemma_entry_le_total(s: HoldView, k: int)
    requires
        0 <= k < s.len(),
    ensures
        s[k].1 as nat <= total(s),
    decreases s.len(),
{
    if k < s.len() - 1 {
        lemma_entry_le_total(s.drop_last(), k);
    }
}

/// Replacing one entry's quantity changes the total by the difference.
pub proof fn lemma_total_update(s: HoldView, k: int, e: (Seq<char>, u32))
    requires
        0 <= k < s.len(),
    ensures
        total(s.update(k, e)) + s[k].1 as nat == total(s) + e.1 as nat,
    decreases s.len(),
{
    if k == s.len() - 1 {
        assert(s.update(k, e).drop_last() =~= s.drop_last());
    } else {
        assert(s.update(k, e).drop_last() =~= s.drop_last().update(k, e));
        lemma_total_update(s.drop_last(), k, e);
    }
}

/// Removing one entry lowers the total by its quantity.
pub proof fn lemma_total_remove(s: HoldView, k: int)
    requires
        0 <= k < s.len(),
    ensures
        total(s.remove(k)) + s[k].1 as nat == total(s),
    decreases s.len(),
{
    if k == s.len() - 1 {
        assert(s.remove(k) =~= s.drop_last());
    } else {
        assert(s.remove(k).drop_last() =~= s.drop_last().remove(k));
        lemma_total_remove(s.drop_last(), k);
    }
}

/// Appending an entry raises the total by its quantity.
pub proof fn lemma_total_push(s: HoldView, e: (Seq<char>, u32))
    ensures
        total(s.push(e)) == total(s) + e.1 as nat,
{
    assert(s.push(e).drop_last() =~= s);
}

/// Setting a quantity keeps names distinct.
pub proof fn lemma_set_keeps_distinct(s: HoldView, name: Seq<char>, q: u32)
    requires
        names_distinct(s),
    ensures
        names_distinct(set_quantity(s, name, q)),
{
    if has_name(s, name) {
        let k = index_of_name(s, name);
        assert(s[k].0 == name);
    }
}

/// Removing a good keeps names distinct.
pub proof fn lemma_remove_keeps_distinct(s: HoldView, name: Seq<char>)
    requires
        names_distinct(s),
    ensures
        names_distinct(remove_name(s, name)),
{
    if has_name(s, name) {
        let k = index_of_name(s, name);
        let r = s.remove(k);
        assert forall|i: int, j: int| 0 <= i < j < r.len() implies r[i].0 != r[j].0 by {
            let ii = if i < k { i } else { i + 1 };
            let jj = if j < k { j } else { j + 1 };
            assert(r[i] == s[ii] && r[j] == s[jj]);
        }
    }
}

/// Setting a good's quantity gives it that quantity and leaves every
/// other good's quantity as it was.
pub proof fn lemma_held_after_set(s: HoldView, name: Seq<char>, q: u32, other: Seq<char>)
    requires
        names_distinct(s),
    ensures
        held(set_quantity(s, name, q), name) == q,
        other != name ==> held(set_quantity(s, name, q), other) == held(s, other),
{
    let t = set_quantity(s, name, q);
    lemma_set_keeps_distinct(s, name, q);
    if has_name(s, name) {
        let k = index_of_name(s, name);
        lemma_index_unique(t, name, k);
    } else {
        lemma_index_unique(t, name, s.len() as int);
    }
    if other != name {
        if has_name(s, other) {
            let j = index_of_name(s, other);
            assert(t[j] == s[j]);
            lemma_index_unique(t, other, j);
        } else {
            if has_name(t, other) {
                let j = index_of_name(t, other);
                assert(s[j].0 == other);
            }
        }
    }
}

/// Removing a good leaves none of it and every other good's quantity as
/// it was.
pub proof fn lemma_held_after_remove(s: HoldView, name: Seq<char>, other: Seq<char>)
    requires
        names_distinct(s),
    ensures
        held(remove_name(s, name), name) == 0,
        other != name ==> held(remove_name(s, name), other) == held(s, other),
{
    let t = remove_name(s, name);
    lemma_remove_keeps_distinct(s, name);
    if has_name(s, name) {
        let k = index_of_name(s, name);
        if has_name(t, name) {
            let j = index_of_name(t, name);
            let jj = if j < k { j } else { j + 1 };
            assert(t[j] == s[jj]);
            if jj < k {
                assert(s[jj].0 != s[k].0);
            } else {
                assert(s[k].0 != s[jj].0);
            }
        }
        if other != name {
            if has_name(s, other) {
                let j = index_of_name(s, other);
                let jt = if j < k { j } else { j - 1 };
                assert(t[jt] == s[j]);
                lemma_index_unique(t, other, jt);
            } else if has_name(t, other) {
                let j = index_of_name(t, other);
                let jj = if j < k { j } else { j + 1 };
                assert(t[j] == s[jj]);
            }
        }
    }
}

/// The ship's cargo hold.
#[derive(Debug, Clone)]
pub struct CargoHold {
    pub items: Vec<CargoEntry>,
    /// Maximum number of units the hold can carry.
    pub capacity: u32,
}

impl View for CargoHold {
    type V = HoldView;

    open spec fn view(&self) -> HoldView {
        self.items@.map_values(|e: CargoEntry| (e.name@, e.quantity))
    }
}

impl CargoHold {
    /// A hold is well formed when no good is listed twice.
    pub open spec fn wf(&self) -> bool {
        names_distinct(self@)
    }

    /// An empty hold with the given capacity.
    pub fn new(capacity: u32) -> (r: CargoHold)
        ensures
            r@ == Seq::<(Seq<char>, u32)>::empty(),
            r.capacity == capacity,
            r.wf(),
    {
        CargoHold { items: Vec::new(), capacity }
    }

    /// The index of the entry for `name`, if any.
    fn find(&self, name: &String) -> (r: Option<usize>)
        requires
            self.wf(),
        ensures
            r is None <==> !has_name(self@, name@),
            r matches Some(k) ==> k < self@.len() && index_of_name(self@, name@) == k
                && self@[k as int].0 == name@,
    {
        let mut i: usize = 0;
        while i < self.items.len()
            invariant
                self.wf(),
                i <= self.items.len(),
                forall|j: int| 0 <= j < i ==> self@[j].0 != name@,
            decreases self.items.len() - i,
        {
            if self.items[i].name == *name {
                proof {
                    lemma_index_unique(self@, name@, i as int);
                }
                return Some(i);
            }
            i = i + 1;
        }
        None
    }

    /// Units of `name` on board, zero when the good is absent.
    pub fn get(&self, name: &String) -> (r: u32)
        requires
            self.wf(),
        ensures
            r as nat == held(self@, name@),
    {
        match self.find(name) {
            Some(k) => self.items[k].quantity,
            None => 0,
        }
    }

    /// Set the quantity of `name`, adding the good when it was absent.
    pub fn set(&mut self, name: &String, quantity: u32)
        requires
            old(self).wf(),
        ensures
            final(self)@ == set_quantity(old(self)@, name@, quantity),
            final(self).wf(),
            final(self).capacity == old(self).capacity,
    {
        match self.find(name) {
            Some(k) => {
                self.items.set(k, CargoEntry { name: name.clone(), quantity });
                assert(self@ =~= set_quantity(old(self)@, name@, quantity));
            },
            None => {
                self.items.push(CargoEntry { name: name.clone(), quantity });
                assert(self@ =~= set_quantity(old(self)@, name@, quantity));
            },
        }
    }

    /// Take every unit of `name` out of the hold.
    pub fn remove(&mut self, name: &String)
        requires
            old(self).wf(),
        ensures
            final(self)@ == remove_name(old(self)@, name@),
            final(self).wf(),
            final(self).capacity == old(self).capacity,
    {
        match self.find(name) {
            Some(k) => {
                self.items.remove(k);
                assert(self@ =~= remove_name(old(self)@, name@));
            },
            None => {},
        }
    }

    /// The total number of units on board.
    pub fn total_units(&self) -> (r: u128)
        ensures
            r as nat == total(self@),
    {
        let mut sum: u128 = 0;
        let mut i: usize = 0;
        while i < self.items.len()
            invariant
                i <= self.items.len(),
                sum as nat == total(self@.take(i as int)),
                sum <= i as nat * 0xffff_ffff,
            decreases self.items.len() - i,
        {
            assert(self@.take(i as int + 1).drop_last() =~= self@.take(i as int));
            sum = sum + self.items[i].quantity as u128;
            i = i + 1;
        }
        assert(self@.take(i as int) =~= self@);
        sum
    }
}

} // verus!
