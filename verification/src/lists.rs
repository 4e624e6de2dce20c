//! Lists of values that are read through their models.

use vstd::prelude::*;

verus! {

/// A copy of a list, item by item.
pub(crate) fn clone_all<T: Clone + DeepView>(items: &Vec<T>) -> (copy: Vec<T>)
    requires
        forall|a: T, b: T| call_ensures(T::clone, (&a,), b) ==> b.deep_view() == a.deep_view(),
    ensures
        copy.deep_view() == items.deep_view(),
{
    let copy = items.clone();
    assert(copy.deep_view() =~= items.deep_view());
    copy
}

/// Adds `item` at the end of `list`.
pub(crate) fn push_item<T: DeepView>(list: &mut Vec<T>, item: T)
    ensures
        final(list)@ == old(list)@.push(item),
        final(list).deep_view() == old(list).deep_view().push(item.deep_view()),
{
    list.push(item);
    assert(list.deep_view() =~= old(list).deep_view().push(item.deep_view()));
}

} // verus!
