//! The one thing that the arena of the shared pointer does with its store.

use vstd::prelude::*;

verus! {

/// Gives `x` a place of its own in `heap` and returns where it is. The place
/// is new: nothing that was in the heap before moves or is overwritten.
pub fn non_null_from<T>(heap: &mut Vec<Option<T>>, x: T) -> (ptr: usize)
    ensures
        ptr == old(heap)@.len(),
        final(heap)@ == old(heap)@.push(Some(x)),
{
    let ptr = heap.len();
    heap.push(Some(x));
    ptr
}

} // verus!
