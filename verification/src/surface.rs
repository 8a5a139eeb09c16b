//! Choices made when the drawing surface is set up.

use vstd::prelude::*;

verus! {

/// Picks the format of the surface among those it offers: the first that is
/// sRGB, or the first of all where none is. `srgb[i]` tells whether format
/// `i` is sRGB. `None` when the surface offers no format.
pub fn preferred_format(srgb: &Vec<bool>) -> (choice: Option<usize>)
    ensures
        srgb@.len() == 0 ==> choice is None,
        srgb@.len() > 0 ==> choice is Some && choice->Some_0 < srgb@.len(),
        choice is Some && srgb@[choice->Some_0 as int] ==> forall|j: int|
            0 <= j < choice->Some_0 ==> !srgb@[j],
        choice is Some && !srgb@[choice->Some_0 as int] ==> choice->Some_0 == 0 && forall|j: int|
            0 <= j < srgb@.len() ==> !srgb@[j],
{
    if srgb.len() == 0 {
        return None;
    }
    let mut i: usize = 0;
    while i < srgb.len()
        invariant
            i <= srgb@.len(),
            forall|j: int| 0 <= j < i ==> !srgb@[j],
        decreases srgb@.len() - i,
    {
        if srgb[i] {
            return Some(i);
        }
        i += 1;
    }
    Some(0)
}

} // verus!
