//! Vectors seen through the models of their items.

use vstd::prelude::*;

verus! {

/// Pushing an item onto a vector pushes its model onto the vector's model.
pub proof fn lemma_deep_view_push<T: DeepView>(before: Vec<T>, after: Vec<T>, item: T)
    requires
        after@ == before@.push(item),
    ensures
        after.deep_view() == before.deep_view().push(item.deep_view()),
{
    assert(after.deep_view() =~= before.deep_view().push(item.deep_view()));
}

/// Appending one vector to another appends its model to the other's model.
pub proof fn lemma_deep_view_add<T: DeepView>(before: Vec<T>, tail: Vec<T>, after: Vec<T>)
    requires
        after@ == before@ + tail@,
    ensures
        after.deep_view() == before.deep_view() + tail.deep_view(),
{
    assert(after.deep_view() =~= before.deep_view() + tail.deep_view());
}

/// A vector with no items.
pub fn empty_list<T: DeepView>() -> (list: Vec<T>)
    ensures
        list.deep_view() == Seq::<T::V>::empty(),
{
    let list: Vec<T> = Vec::new();
    assert(list.deep_view() =~= Seq::<T::V>::empty());
    list
}

/// Appends one item.
pub fn push_item<T: DeepView>(list: &mut Vec<T>, item: T)
    ensures
        final(list).deep_view() == old(list).deep_view().push(item.deep_view()),
        final(list)@.len() == old(list)@.len() + 1,
{
    let ghost before = *list;
    list.push(item);
    proof {
        lemma_deep_view_push(before, *list, item);
    }
}

/// Appends all of `tail`, in order.
pub fn append_items<T: DeepView>(list: &mut Vec<T>, tail: Vec<T>)
    ensures
        final(list).deep_view() == old(list).deep_view() + tail.deep_view(),
        final(list)@.len() == old(list)@.len() + tail@.len(),
{
    let ghost before = *list;
    let mut tail = tail;
    let ghost moved = tail;
    list.append(&mut tail);
    proof {
        lemma_deep_view_add(before, moved, *list);
    }
}

} // verus!
