//! Catalogs of operations.
//!
//! A catalog is a closed table: each of its operations has one canonical name
//! and any number of aliases, and a name resolves to the operation that is known
//! under it. What makes the table a mapping from names to operations is that no
//! name belongs to two of them, which each catalog proves of its own names.

use crate::text::str_eq;
use vstd::prelude::*;

verus! {

/// The operations of one catalog. The tags of a catalog are the values of the
/// implementing type, laid out in a fixed order.
pub trait Operation: Sized + Copy {
    /// The canonical name of the operation.
    spec fn spec_name(self) -> Seq<char>;

    /// The further names under which the operation is known, in catalog order.
    spec fn spec_aliases(self) -> Seq<Seq<char>>;

    /// The place of the operation in the catalog, counted from zero.
    spec fn position(self) -> nat;

    /// The number of operations in the catalog.
    spec fn spec_count() -> nat;

    /// The canonical name of the operation.
    fn name(self) -> (name: &'static str)
        ensures
            name@ == self.spec_name(),
    ;

    /// The aliases of the operation, in catalog order.
    fn aliases(self) -> (aliases: Vec<&'static str>)
        ensures
            aliases@.len() == self.spec_aliases().len(),
            forall|i: int| 0 <= i < aliases@.len() ==> aliases@[i]@ == self.spec_aliases()[i],
    ;

    /// The number of operations in the catalog.
    fn count() -> (count: usize)
        ensures
            count == Self::spec_count(),
    ;

    /// The operation at a place of the catalog, if the place is within it.
    fn at(place: usize) -> (found: Option<Self>)
        ensures
            place < Self::spec_count() ==> found is Some && found->0.position() == place,
            place >= Self::spec_count() ==> found is None,
    ;

    /// Two operations have different places in the catalog.
    proof fn lemma_places_differ(f: Self, g: Self)
        requires
            f.position() == g.position(),
        ensures
            f == g,
    ;

    /// Every operation has a place within the catalog.
    proof fn lemma_place_is_within(f: Self)
        ensures
            f.position() < Self::spec_count(),
    ;

    /// No name belongs to two operations: two operations that are known under one
    /// name, be it canonical or an alias, are one operation.
    proof fn lemma_names_are_unique(f: Self, g: Self, name: Seq<char>)
        requires
            name == f.spec_name() || f.spec_aliases().contains(name),
            name == g.spec_name() || g.spec_aliases().contains(name),
        ensures
            f == g,
    ;
}

/// Whether `name` is an alias of the operation.
pub open spec fn is_alias<T: Operation>(f: T, name: Seq<char>) -> bool {
    f.spec_aliases().contains(name)
}

/// Whether the operation is known under `name`, as its canonical name or as an
/// alias.
pub open spec fn answers_to<T: Operation>(f: T, name: Seq<char>) -> bool {
    name == f.spec_name() || is_alias(f, name)
}

/// The operation that `name` resolves to: the one that is known under this name,
/// if there is one.
pub open spec fn named<T: Operation>(name: Seq<char>) -> Option<T> {
    if exists|f: T| answers_to(f, name) {
        Some(choose|f: T| answers_to(f, name))
    } else {
        None
    }
}

/// Every name of an operation, its canonical name as well as each alias, resolves
/// to that operation.
pub proof fn lemma_every_name_resolves<T: Operation>(f: T, name: Seq<char>)
    requires
        answers_to(f, name),
    ensures
        named::<T>(name) == Some(f),
{
    let g = choose|g: T| answers_to(g, name);
    T::lemma_names_are_unique(f, g, name);
}

/// Resolving an alias of an operation gives the same operation as resolving its
/// canonical name.
pub proof fn lemma_alias_resolves_like_canonical_name<T: Operation>(f: T, alias: Seq<char>)
    requires
        is_alias(f, alias),
    ensures
        named::<T>(alias) == Some(f),
        named::<T>(alias) == named::<T>(f.spec_name()),
{
    lemma_every_name_resolves(f, alias);
    lemma_every_name_resolves(f, f.spec_name());
}

/// A name that resolves to an operation is one of the names of that operation,
/// and a name that resolves to nothing is a name of none.
pub proof fn lemma_resolves_only_by_name<T: Operation>(name: Seq<char>)
    ensures
        named::<T>(name) matches Some(f) ==> answers_to(f, name),
        named::<T>(name) is None ==> forall|f: T| !answers_to(f, name),
{
}

/// Whether `name` is an alias of the operation.
pub fn has_alias<T: Operation>(f: T, name: &str) -> (known: bool)
    ensures
        known == is_alias(f, name@),
{
    let aliases = f.aliases();
    let mut i: usize = 0;
    while i < aliases.len()
        invariant
            i <= aliases@.len(),
            aliases@.len() == f.spec_aliases().len(),
            forall|k: int| 0 <= k < aliases@.len() ==> aliases@[k]@ == f.spec_aliases()[k],
            forall|k: int| 0 <= k < i ==> f.spec_aliases()[k] != name@,
        decreases aliases@.len() - i,
    {
        if str_eq(name, aliases[i]) {
            assert(f.spec_aliases()[i as int] == name@);
            return true;
        }
        i += 1;
    }
    false
}

/// Whether the operation is known under `name`.
pub fn has_name<T: Operation>(f: T, name: &str) -> (known: bool)
    ensures
        known == answers_to(f, name@),
{
    str_eq(name, f.name()) || has_alias(f, name)
}

/// Looks `name` up in the catalog. The comparison is exact: names are matched as
/// they are written.
pub fn lookup<T: Operation>(name: &str) -> (found: Option<T>)
    ensures
        found == named::<T>(name@),
{
    let count = T::count();
    let mut place: usize = 0;
    while place < count
        invariant
            place <= count,
            count == T::spec_count(),
            forall|f: T| f.position() < place ==> !answers_to(f, name@),
        decreases count - place,
    {
        if let Some(candidate) = T::at(place) {
            if has_name(candidate, name) {
                proof {
                    lemma_every_name_resolves(candidate, name@);
                }
                return Some(candidate);
            }
            proof {
                assert forall|f: T| f.position() < place + 1 implies !answers_to(f, name@) by {
                    if f.position() == place {
                        T::lemma_places_differ(f, candidate);
                    }
                }
            }
        }
        place += 1;
    }
    proof {
        assert forall|f: T| !answers_to(f, name@) by {
            T::lemma_place_is_within(f);
        }
    }
    None
}

} // verus!
