//! The virtual coordinate space of the user interface.
//!
//! The interface is laid out at a fixed logical height; its logical width
//! follows the live aspect ratio of the window, rounded down.
use vstd::prelude::*;

verus! {

pub open spec fn logical_width_spec(logical_height: nat, window_width: nat, window_height: nat) -> nat
    recommends
        window_height > 0,
{
    logical_height * window_width / window_height
}

/// Logical width for a window of `window_width` by `window_height` pixels
/// and an interface `logical_height` units high:
/// `floor(logical_height * window_width / window_height)`. `None` when the
/// window has no height, or when the width does not fit in 32 bits.
pub fn logical_width(logical_height: u32, window_width: u32, window_height: u32) -> (r: Option<u32>)
    ensures
        window_height == 0 ==> r.is_none(),
        window_height > 0 ==> (r.is_some() <==> logical_width_spec(
            logical_height as nat,
            window_width as nat,
            window_height as nat,
        ) <= u32::MAX),
        r.is_some() ==> r.unwrap() == logical_width_spec(
            logical_height as nat,
            window_width as nat,
            window_height as nat,
        ),
{
    if window_height == 0 {
        return None;
    }
    assert(logical_height as nat * window_width as nat <= u32::MAX as nat * u32::MAX as nat)
        by (nonlinear_arith)
        requires
            logical_height <= u32::MAX,
            window_width <= u32::MAX,
    ;
    let product: u64 = logical_height as u64 * window_width as u64;
    assert(product == logical_height as nat * window_width as nat);
    let w: u64 = product / window_height as u64;
    if w > u32::MAX as u64 {
        None
    } else {
        Some(w as u32)
    }
}

} // verus!
