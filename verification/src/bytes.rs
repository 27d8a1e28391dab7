//! Zero-filled byte arrays, for the devices' power-on state.
use vstd::prelude::*;

verus! {

broadcast use vstd::array::group_array_axioms;

/// An array of `N` zero bytes.
pub fn zeroed_bytes<const N: usize>() -> (zeros: [u8; N])
    ensures
        forall|i: int| 0 <= i < N ==> zeros[i] == 0,
{
    let mut zeros = [0u8; N];
    let mut k: usize = 0;
    while k < N
        invariant
            k <= N,
            forall|i: int| 0 <= i < k ==> zeros[i] == 0,
        decreases N - k,
    {
        zeros[k] = 0;
        k = k + 1;
    }
    zeros
}

} // verus!
