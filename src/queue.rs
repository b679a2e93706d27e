//! Choosing the queue family that the demo's device is created with.
use vstd::prelude::*;

verus! {

/// Given, for each queue family of a physical device in order, whether it
/// supports graphics, picks the first family that does, or `None` where
/// none does.
pub fn pick_graphics_family(supports_graphics: &[bool]) -> (r: Option<usize>)
    ensures
        r is None <==> forall|j: int| 0 <= j < supports_graphics@.len() ==> !supports_graphics@[j],
        r matches Some(i) ==> i < supports_graphics@.len() && supports_graphics@[i as int]
            && forall|j: int| 0 <= j < i ==> !supports_graphics@[j],
{
    let mut i: usize = 0;
    while i < supports_graphics.len()
        invariant
            i <= supports_graphics@.len(),
            forall|j: int| 0 <= j < i ==> !supports_graphics@[j],
        decreases supports_graphics@.len() - i,
    {
        if supports_graphics[i] {
            return Some(i);
        }
        i += 1;
    }
    None
}

} // verus!
