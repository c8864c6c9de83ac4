//! The variable store: a mapping from variable names to terms.
//!
//! The store is modelled as the mathematical map from each name (a sequence of
//! characters) to the term most recently bound to it. Internally it keeps the
//! bindings in the order they were made; a lookup walks them newest first, so
//! a later binding for the same name shadows an earlier one, which is exactly
//! `Map::insert` on the model.

use vstd::prelude::*;

use crate::element::Element;

verus! {

/// The mathematical content of a list of bindings: the map each binding list
/// denotes, where a later binding for a name overwrites an earlier one.
spec fn bindings_map(entries: Seq<(String, Element)>) -> Map<Seq<char>, Element>
    decreases entries.len(),
{
    if entries.len() == 0 {
        Map::empty()
    } else {
        bindings_map(entries.drop_last()).insert(entries.last().0@, entries.last().1)
    }
}

/// A mutable mapping from variable names to terms, read when a `Variable`
/// reduces and written when an `Assign` completes.
pub struct Store {
    entries: Vec<(String, Element)>,
}

impl Store {
    /// The map this store denotes, keyed by the name's characters.
    pub closed spec fn view(&self) -> Map<Seq<char>, Element> {
        bindings_map(self.entries@)
    }

    /// Create an empty store.
    pub fn new() -> (r: Store)
        ensures
            r@ == Map::<Seq<char>, Element>::empty(),
    {
        Store { entries: Vec::new() }
    }

    /// Bind `name` to `value`, overwriting any earlier binding of that name.
    pub fn insert(&mut self, name: String, value: Element)
        ensures
            final(self)@ == old(self)@.insert(name@, value),
    {
        let ghost old_entries = self.entries@;
        self.entries.push((name, value));
        proof {
            assert(self.entries@.drop_last() =~= old_entries);
        }
    }

    /// Look up the term bound to `name`, or `None` if the name is unbound.
    pub fn get(&self, name: &String) -> (r: Option<&Element>)
        ensures
            match r {
                Some(v) => self@.contains_key(name@) && *v == self@[name@],
                None => !self@.contains_key(name@),
            },
    {
        let mut i: usize = self.entries.len();
        proof {
            assert(self.entries@.subrange(0, i as int) =~= self.entries@);
        }
        while i > 0
            invariant
                i <= self.entries@.len(),
                self@ == bindings_map(self.entries@),
                bindings_map(self.entries@.subrange(0, i as int)).contains_key(name@)
                    == self@.contains_key(name@),
                bindings_map(self.entries@.subrange(0, i as int)).contains_key(name@)
                    ==> bindings_map(self.entries@.subrange(0, i as int))[name@] == self@[name@],
            decreases i,
        {
            let entry = &self.entries[i - 1];
            proof {
                assert(self.entries@.subrange(0, i as int).drop_last() =~= self.entries@.subrange(
                    0,
                    i - 1,
                ));
                assert(self.entries@.subrange(0, i as int).last() == self.entries@[i - 1]);
            }
            if entry.0 == *name {
                return Some(&entry.1);
            }
            i = i - 1;
        }
        proof {
            assert(self.entries@.subrange(0, 0) =~= Seq::<(String, Element)>::empty());
        }
        None
    }
}

impl Clone for Store {
    /// A deep copy: the clone denotes the same map as the original store.
    fn clone(&self) -> (res: Self)
        ensures
            res@ == self@,
    {
        let mut entries: Vec<(String, Element)> = Vec::new();
        let mut i: usize = 0;
        while i < self.entries.len()
            invariant
                i <= self.entries@.len(),
                entries@ =~= self.entries@.subrange(0, i as int),
            decreases self.entries@.len() - i,
        {
            let entry = &self.entries[i];
            entries.push((entry.0.clone(), entry.1.clone()));
            i = i + 1;
        }
        proof {
            assert(entries@ =~= self.entries@);
        }
        Store { entries }
    }
}

} // verus!
