//! The set of room identifiers already reported within the current polling
//! cycle. A scope is created empty at the start of a cycle and discarded at
//! its end; it is never persisted across cycles.

use vstd::prelude::*;

verus! {

/// A set of room identifiers scoped to one polling cycle.
///
/// Within one scope, no identifier is reported twice: the parser inserts each
/// accepted identifier before yielding the event.
pub struct DedupScope {
    ids: Vec<String>,
}

impl View for DedupScope {
    type V = Set<Seq<char>>;

    closed spec fn view(&self) -> Set<Seq<char>> {
        Set::new(|s: Seq<char>| exists|i: int| 0 <= i < self.ids@.len() && self.ids@[i]@ == s)
    }
}

impl DedupScope {
    /// A fresh, empty scope for a new cycle.
    pub fn new() -> (r: Self)
        ensures
            r@ == Set::<Seq<char>>::empty(),
    {
        let r = DedupScope { ids: Vec::new() };
        proof {
            assert(r@ =~= Set::<Seq<char>>::empty());
        }
        r
    }

    /// Whether `id` has already been recorded in this scope.
    pub fn contains(&self, id: &String) -> (r: bool)
        ensures
            r == self@.contains(id@),
    {
        let n = self.ids.len();
        let mut i: usize = 0;
        while i < n
            invariant
                n == self.ids@.len(),
                i <= n,
                forall|j: int| 0 <= j < i ==> self.ids@[j]@ != id@,
            decreases n - i,
        {
            if self.ids[i].eq(id) {
                return true;
            }
            i += 1;
        }
        false
    }

    /// Records `id` in this scope.
    pub fn insert(&mut self, id: String)
        ensures
            final(self)@ == old(self)@.insert(id@),
    {
        let ghost old_ids = self.ids@;
        let ghost idv = id@;
        self.ids.push(id);
        proof {
            assert forall|s: Seq<char>| self@.contains(s) implies old(self)@.insert(idv).contains(
                s,
            ) by {
                let i = choose|i: int| 0 <= i < self.ids@.len() && self.ids@[i]@ == s;
                if i < old_ids.len() {
                    assert(old_ids[i]@ == s);
                } else {
                    assert(s == idv);
                }
            }
            assert forall|s: Seq<char>| old(self)@.insert(idv).contains(s) implies self@.contains(
                s,
            ) by {
                if old(self)@.contains(s) {
                    let i = choose|i: int| 0 <= i < old_ids.len() && old_ids[i]@ == s;
                    assert(self.ids@[i]@ == s);
                } else {
                    assert(self.ids@[old_ids.len() as int]@ == s);
                }
            }
            assert(self@ =~= old(self)@.insert(idv));
        }
    }
}

} // verus!
