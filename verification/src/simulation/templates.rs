//! The parts of the generation templates that the rules read: which
//! civilization-name prefixes and suffixes may not be combined.

use vstd::prelude::*;

use crate::npc_interaction::lookup;

verus! {

/// Prefix name to the suffix names it must not be combined with, read from
/// the template file's map (so each prefix has one entry; a lookup takes
/// the first entry for a prefix).
#[derive(Debug, Clone)]
pub struct CivCompatibility {
    pub blocked_pairs: Vec<(String, Vec<String>)>,
}

/// A seq of texts holds `t`.
pub open spec fn lists_text(names: Seq<String>, t: Seq<char>) -> bool {
    exists|i: int| 0 <= i < names.len() && (#[trigger] names[i])@ == t
}

/// The combination is blocked: the prefix's entry lists the suffix.
pub open spec fn blocked(pairs: Seq<(String, Vec<String>)>, prefix: Seq<char>, suffix: Seq<char>) -> bool {
    match lookup(pairs, prefix) {
        Some(list) => lists_text(list, suffix),
        None => false,
    }
}

impl CivCompatibility {
    /// Whether the given prefix and suffix must not be combined.
    pub fn is_blocked(&self, prefix: &str, suffix: &str) -> (r: bool)
        ensures
            r == blocked(self.blocked_pairs@, prefix@, suffix@),
    {
        let mut i: usize = 0;
        assert(self.blocked_pairs@.skip(0) =~= self.blocked_pairs@);
        while i < self.blocked_pairs.len()
            invariant
                i <= self.blocked_pairs.len(),
                lookup(self.blocked_pairs@, prefix@) == lookup(
                    self.blocked_pairs@.skip(i as int),
                    prefix@,
                ),
            decreases self.blocked_pairs.len() - i,
        {
            assert(self.blocked_pairs@.skip(i as int).drop_first() =~= self.blocked_pairs@.skip(
                i as int + 1,
            ));
            if self.blocked_pairs[i].0 == prefix.to_owned() {
                let list = &self.blocked_pairs[i].1;
                assert(lookup(self.blocked_pairs@, prefix@) == Some(list@));
                let mut j: usize = 0;
                while j < list.len()
                    invariant
                        j <= list.len(),
                        lookup(self.blocked_pairs@, prefix@) == Some(list@),
                        forall|q: int| 0 <= q < j ==> list@[q]@ != suffix@,
                    decreases list.len() - j,
                {
                    if list[j] == suffix.to_owned() {
                        assert(lists_text(list@, suffix@)) by {
                            assert(list@[j as int]@ == suffix@);
                        }
                        return true;
                    }
                    j = j + 1;
                }
                return false;
            }
            i = i + 1;
        }
        false
    }
}

} // verus!
