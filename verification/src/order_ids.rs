//! A set of client order ids, kept as their text in an `ahash::AHashSet`.

use ahash::AHashSet;
use vstd::prelude::*;

verus! {

/// `ahash::AHashSet`, a `std::collections::HashSet` with aHash's `RandomState`.
#[verifier::external_type_specification]
#[verifier::external_body]
#[verifier::reject_recursive_types(T)]
#[verifier::reject_recursive_types(S)]
pub struct ExAHashSet<T, S>(AHashSet<T, S>);

/// `ahash::RandomState`, the hasher state of an `AHashSet`.
#[verifier::external_type_specification]
#[verifier::external_body]
pub struct ExRandomState(ahash::RandomState);

/// The texts held by an `AHashSet<String>`.
pub uninterp spec fn ahash_set_texts(s: AHashSet<String>) -> Set<Seq<char>>;

/// `AHashSet::new`: an empty set (seeded with a random hasher, which does not
/// affect its contents).
#[verifier::external_body]
fn ahash_set_new() -> (s: AHashSet<String>)
    ensures
        ahash_set_texts(s) == Set::<Seq<char>>::empty(),
{
    AHashSet::new()
}

/// `HashSet::insert` (through `AHashSet`'s `DerefMut`): adds the value and returns
/// whether it was absent; a present value leaves the set unchanged.
#[verifier::external_body]
fn ahash_set_insert(s: &mut AHashSet<String>, id: String) -> (added: bool)
    ensures
        ahash_set_texts(*final(s)) == ahash_set_texts(*old(s)).insert(id@),
        added == !ahash_set_texts(*old(s)).contains(id@),
{
    s.insert(id)
}

/// `HashSet::remove` (through `AHashSet`'s `DerefMut`): removes the value and
/// returns whether it was present.
#[verifier::external_body]
fn ahash_set_remove(s: &mut AHashSet<String>, id: &str) -> (removed: bool)
    ensures
        ahash_set_texts(*final(s)) == ahash_set_texts(*old(s)).remove(id@),
        removed == ahash_set_texts(*old(s)).contains(id@),
{
    s.remove(id)
}

/// `HashSet::contains` (through `AHashSet`'s `Deref`).
#[verifier::external_body]
fn ahash_set_contains(s: &AHashSet<String>, id: &str) -> (r: bool)
    ensures
        r == ahash_set_texts(*s).contains(id@),
{
    s.contains(id)
}

/// `HashSet::is_empty` (through `AHashSet`'s `Deref`).
#[verifier::external_body]
fn ahash_set_is_empty(s: &AHashSet<String>) -> (r: bool)
    ensures
        r == (ahash_set_texts(*s) == Set::<Seq<char>>::empty()),
{
    s.is_empty()
}

/// `HashSet::clear` (through `AHashSet`'s `DerefMut`): removes every value.
#[verifier::external_body]
fn ahash_set_clear(s: &mut AHashSet<String>)
    ensures
        ahash_set_texts(*final(s)) == Set::<Seq<char>>::empty(),
{
    s.clear()
}

/// A set of client order ids (by their text).
pub struct OrderIdSet {
    ids: AHashSet<String>,
}

/// The texts held by a sequence of strings.
pub open spec fn ids_view(ids: Seq<String>) -> Set<Seq<char>> {
    Set::new(|t: Seq<char>| exists|i: int| 0 <= i < ids.len() && ids[i]@ == t)
}

impl View for OrderIdSet {
    type V = Set<Seq<char>>;

    closed spec fn view(&self) -> Set<Seq<char>> {
        ahash_set_texts(self.ids)
    }
}

impl OrderIdSet {
    /// An empty set.
    pub fn new() -> (s: Self)
        ensures
            s@ == Set::<Seq<char>>::empty(),
    {
        OrderIdSet { ids: ahash_set_new() }
    }

    /// Whether `id` is in the set.
    pub fn contains(&self, id: &str) -> (r: bool)
        ensures
            r == self@.contains(id@),
    {
        ahash_set_contains(&self.ids, id)
    }

    /// Whether the set is empty.
    pub fn is_empty(&self) -> (r: bool)
        ensures
            r == (self@ == Set::<Seq<char>>::empty()),
    {
        ahash_set_is_empty(&self.ids)
    }

    /// Adds `id`; returns whether it was absent.
    pub fn insert(&mut self, id: String) -> (added: bool)
        ensures
            final(self)@ == old(self)@.insert(id@),
            added == !old(self)@.contains(id@),
    {
        ahash_set_insert(&mut self.ids, id)
    }

    /// Removes `id`; returns whether it was present.
    pub fn remove(&mut self, id: &str) -> (removed: bool)
        ensures
            final(self)@ == old(self)@.remove(id@),
            removed == old(self)@.contains(id@),
    {
        ahash_set_remove(&mut self.ids, id)
    }

    /// Adds every id of `ids`.
    pub fn extend(&mut self, ids: Vec<String>)
        ensures
            final(self)@ == old(self)@.union(ids_view(ids@)),
    {
        let mut rest = ids;
        let ghost all = rest@;
        let ghost mut taken: int = 0;
        while rest.len() > 0
            invariant
                0 <= taken <= all.len(),
                rest@ == all.subrange(taken, all.len() as int),
                self@ == old(self)@.union(ids_view(all.subrange(0, taken))),
            decreases rest@.len(),
        {
            let id = rest.remove(0);
            let ghost t = id@;
            self.insert(id);
            proof {
                assert(t == all[taken]@);
                taken = taken + 1;
                assert(rest@ =~= all.subrange(taken, all.len() as int));
                assert forall|x: Seq<char>|
                    ids_view(all.subrange(0, taken)).contains(x) == (ids_view(
                        all.subrange(0, taken - 1),
                    ).contains(x) || x == t) by {
                    let s = all.subrange(0, taken);
                    let p = all.subrange(0, taken - 1);
                    if ids_view(s).contains(x) {
                        let k = choose|k: int| 0 <= k < s.len() && s[k]@ == x;
                        if k < taken - 1 {
                            assert(p[k] == s[k]);
                        }
                    }
                    if ids_view(p).contains(x) {
                        let k = choose|k: int| 0 <= k < p.len() && p[k]@ == x;
                        assert(s[k] == p[k]);
                    }
                    if x == t {
                        assert(s[taken - 1]@ == x);
                    }
                }
                assert(self@ =~= old(self)@.union(ids_view(all.subrange(0, taken))));
            }
        }
        proof {
            assert(all.subrange(0, all.len() as int) =~= all);
        }
    }

    /// Removes every id.
    pub fn clear(&mut self)
        ensures
            final(self)@ == Set::<Seq<char>>::empty(),
    {
        ahash_set_clear(&mut self.ids)
    }
}

} // verus!
