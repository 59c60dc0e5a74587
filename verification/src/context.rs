//! Decisions made while configuring a GPU surface.

use vstd::prelude::*;

verus! {

/// True when some entry of `srgb` is set.
pub open spec fn has_srgb(srgb: Seq<bool>) -> bool {
    exists|i: int| 0 <= i < srgb.len() && srgb[i]
}

/// Picks the surface format for the swapchain, given for each reported format
/// whether it is an sRGB format: the first sRGB format wins, and when none is
/// sRGB the first format overall is used.
pub fn swapchain_format_index(srgb: &Vec<bool>) -> (idx: usize)
    requires
        srgb.len() > 0,
    ensures
        idx < srgb.len(),
        has_srgb(srgb@) ==> srgb@[idx as int] && (forall|j: int| 0 <= j < idx ==> !srgb@[j]),
        !has_srgb(srgb@) ==> idx == 0,
{
    let n = srgb.len();
    let mut i: usize = 0;
    while i < n
        invariant
            n == srgb.len(),
            i <= n,
            forall|j: int| 0 <= j < i ==> !srgb@[j],
        decreases n - i,
    {
        if srgb[i] {
            return i;
        }
        i = i + 1;
    }
    0
}

} // verus!
