//! Small helpers for speaking of collections of the core's values.

use vstd::prelude::*;

verus! {

/// A sequence of values, each taken by its view.
pub open spec fn seq_view<T: View>(items: Seq<T>) -> Seq<T::V> {
    Seq::new(items.len(), |i: int| items[i]@)
}

/// An optional value, taken by its view.
pub open spec fn option_view<T: View>(item: Option<T>) -> Option<T::V> {
    match item {
        Some(value) => Some(value@),
        None => None,
    }
}

/// Pushing a value and then viewing is viewing and then pushing.
pub proof fn seq_view_push<T: View>(items: Seq<T>, item: T)
    ensures
        seq_view(items.push(item)) == seq_view(items).push(item@),
{
    assert(seq_view(items.push(item)) =~= seq_view(items).push(item@));
}

} // verus!
