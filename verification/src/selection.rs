//! Sets of entry indices, held in `rustc_hash`'s `FxHashSet`.

use rustc_hash::{FxBuildHasher, FxHashSet};
use vstd::prelude::*;

verus! {

/// `rustc_hash`'s hasher builder, carried through as it is.
#[verifier::external_type_specification]
#[verifier::external_body]
pub struct ExFxBuildHasher(FxBuildHasher);

/// An empty set.
pub(crate) fn empty_selection() -> (s: FxHashSet<usize>)
    ensures
        s@ == Set::<usize>::empty(),
{
    FxHashSet::default()
}

/// `FxHashSet::insert`: adds `k`, and tells whether it was absent.
#[verifier::external_body]
pub(crate) fn insert(s: &mut FxHashSet<usize>, k: usize) -> (res: bool)
    ensures
        final(s)@ == old(s)@.insert(k),
        res == !old(s)@.contains(k),
{
    s.insert(k)
}

/// `FxHashSet::remove`: takes `k` out, and tells whether it was present.
#[verifier::external_body]
pub(crate) fn remove(s: &mut FxHashSet<usize>, k: usize) -> (res: bool)
    ensures
        final(s)@ == old(s)@.remove(k),
        res == old(s)@.contains(k),
{
    s.remove(&k)
}

/// `FxHashSet::contains`.
#[verifier::external_body]
pub(crate) fn contains(s: &FxHashSet<usize>, k: usize) -> (res: bool)
    ensures
        res == s@.contains(k),
{
    s.contains(&k)
}

/// `FxHashSet::clear`: the set becomes empty.
#[verifier::external_body]
pub(crate) fn clear(s: &mut FxHashSet<usize>)
    ensures
        final(s)@ == Set::<usize>::empty(),
{
    s.clear()
}

/// `FxHashSet::len`: the number of items.
#[verifier::external_body]
pub(crate) fn len(s: &FxHashSet<usize>) -> (res: usize)
    ensures
        res == s@.len(),
{
    s.len()
}

/// The items of the set, each once, in the set's own (unspecified) order
/// (`FxHashSet::iter`, copied).
#[verifier::external_body]
pub(crate) fn items(s: &FxHashSet<usize>) -> (res: Vec<usize>)
    ensures
        res@.to_set() == s@,
        res@.no_duplicates(),
{
    s.iter().copied().collect()
}

} // verus!
