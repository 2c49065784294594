//! The sixteen-key pad as the engine sees it: one snapshot per step.

use crate::laws::lemma_lowest_pressed;
use crate::model::{any_pressed, is_lowest_pressed, lowest_pressed};
use vstd::prelude::*;

verus! {

/// A key snapshot: for each of the sixteen keys, whether it is down.
pub type Keys = [bool; 16];

/// The lowest key that is down, or `None` where no key is.
pub fn first_pressed(keys: &Keys) -> (r: Option<u8>)
    ensures
        r is Some <==> any_pressed(keys@),
        r matches Some(k) ==> k == lowest_pressed(keys@) && is_lowest_pressed(keys@, k as int),
{
    let mut k: u8 = 0;
    while k < 16
        invariant
            k <= 16,
            forall|j: int| 0 <= j < k ==> !keys@[j],
        decreases 16 - k,
    {
        if keys[k as usize] {
            proof {
                assert(is_lowest_pressed(keys@, k as int));
                lemma_lowest_pressed(keys@);
            }
            return Some(k);
        }
        k += 1;
    }
    None
}

} // verus!
