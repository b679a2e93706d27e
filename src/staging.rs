//! Filling the host-visible staging buffer through which a texture's pixels
//! reach the GPU.
use vstd::prelude::*;

verus! {

/// Copies the leading bytes of `pixels` into every byte of `staging`, in
/// order. `pixels` must hold at least as many bytes as `staging`.
pub fn fill_staging(staging: &mut [u8], pixels: &[u8])
    requires
        old(staging)@.len() <= pixels@.len(),
    ensures
        final(staging)@ == pixels@.subrange(0, old(staging)@.len() as int),
{
    let n = staging.len();
    let mut i: usize = 0;
    while i < n
        invariant
            n == staging@.len(),
            n <= pixels@.len(),
            i <= n,
            forall|j: int| 0 <= j < i ==> staging@[j] == pixels@[j],
        decreases n - i,
    {
        staging[i] = pixels[i];
        i += 1;
    }
    assert(staging@ =~= pixels@.subrange(0, n as int));
}

} // verus!
