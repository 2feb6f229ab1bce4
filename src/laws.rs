use vstd::prelude::*;
use crate::call::{rounded_rect_args, Call};
use crate::flags::CreateFlags;
use crate::values::Scalar;

verus! {

/// Options can be added in any order and grouped in any way: adding `first`
/// then `second` to a flag set gives the same bitmask as adding `second`
/// then `first`, or both at once.
pub proof fn lemma_flags_order_independent(flags: CreateFlags, first: u32, second: u32)
    ensures
        (flags@ | first) | second == (flags@ | second) | first,
        (flags@ | first) | second == flags@ | (first | second),
{
    let x: u32 = flags@;
    assert((x | first) | second == (x | second) | first) by (bit_vector);
    assert((x | first) | second == x | (first | second)) by (bit_vector);
}

/// A rectangle rounded with one radius hands the backend the same position,
/// size and corner radii as a rectangle whose top pair and bottom pair of
/// radii all equal that radius.
pub proof fn lemma_uniform_corner_radii(position: (Scalar, Scalar), size: (Scalar, Scalar), radius: Scalar)
    ensures
        rounded_rect_args(
            Call::RoundedRect { x: position.0, y: position.1, w: size.0, h: size.1, r: radius },
        ) == rounded_rect_args(
            Call::RoundedRectVarying {
                x: position.0,
                y: position.1,
                w: size.0,
                h: size.1,
                top_left: radius,
                top_right: radius,
                bottom_right: radius,
                bottom_left: radius,
            },
        ),
{
}

} // verus!
