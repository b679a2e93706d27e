//! Sizes of the images the demo renders and reads back.
use vstd::prelude::*;

verus! {

/// Bytes in one pixel of an 8-bit-per-channel RGBA image.
pub const RGBA8_PIXEL_BYTES: u32 = 4;

/// Side of the square workgroup of the fractal compute shader, in invocations.
pub const WORKGROUP_SIDE: u32 = 8;

/// Length in bytes of a tightly packed RGBA8 image of `width` x `height` pixels.
pub open spec fn rgba8_len_spec(width: nat, height: nat) -> nat {
    width * height * 4
}

/// Length in bytes of a tightly packed RGBA8 image of `width` x `height`
/// pixels, or `None` where that length does not fit in a `u32`.
pub fn rgba8_len(width: u32, height: u32) -> (r: Option<u32>)
    ensures
        r is Some <==> rgba8_len_spec(width as nat, height as nat) <= u32::MAX,
        r matches Some(n) ==> n == rgba8_len_spec(width as nat, height as nat),
{
    match width.checked_mul(height) {
        Some(pixels) => {
            let r = pixels.checked_mul(RGBA8_PIXEL_BYTES);
            proof {
                assert(pixels * 4 == rgba8_len_spec(width as nat, height as nat));
            }
            r
        },
        None => {
            proof {
                assert(height > 0);
                assert(width * height * 4 >= width * height) by (nonlinear_arith)
                    requires
                        width * height >= 0,
                ;
            }
            None
        },
    }
}

/// Workgroups to dispatch, along x, y and z, for the fractal shader over a
/// `dim` x `dim` image: as many whole workgroups as fit on each side, one deep.
pub fn fractal_workgroups(dim: u32) -> (r: [u32; 3])
    ensures
        r@ == seq![dim / WORKGROUP_SIDE, dim / WORKGROUP_SIDE, 1u32],
{
    let groups = dim / WORKGROUP_SIDE;
    let r = [groups, groups, 1];
    assert(r@ =~= seq![groups, groups, 1u32]);
    r
}

} // verus!
