//! The integer pattern behind the animated procedural texture.
//!
//! Each pixel `(x, y)` of frame `frame` gets a byte
//! `((x - (frame ^ y)) ^ (y + (frame ^ x))) & 255`, computed with wrapping
//! 32-bit arithmetic. The colour of the pixel is a function of that byte
//! alone, so the image of a frame is fixed by its size and frame index.
use vstd::prelude::*;
use vstd::wrapping::u32_specs;

verus! {

pub open spec fn pattern_byte(x: u32, y: u32, frame: u32) -> u32 {
    (u32_specs::wrapping_sub(x, frame ^ y) ^ u32_specs::wrapping_add(y, frame ^ x)) & 255
}

/// Pattern of a `size` by `size` image, row by row.
pub open spec fn pattern_image(size: nat, frame: u32) -> Seq<u8> {
    Seq::new(
        size * size,
        |k: int| pattern_byte((k % size as int) as u32, (k / size as int) as u32, frame) as u8,
    )
}

proof fn lemma_pattern_byte_bounded(x: u32, y: u32, frame: u32)
    ensures
        pattern_byte(x, y, frame) <= 255,
{
    let v = u32_specs::wrapping_sub(x, frame ^ y) ^ u32_specs::wrapping_add(y, frame ^ x);
    assert(v & 255 <= 255) by (bit_vector);
}

/// The pattern byte of pixel `(x, y)` in frame `frame`.
pub fn pattern_value(x: u32, y: u32, frame: u32) -> (r: u8)
    ensures
        r as u32 == pattern_byte(x, y, frame),
{
    let v: u32 = x.wrapping_sub(frame ^ y) ^ y.wrapping_add(frame ^ x);
    let b: u32 = v & 255;
    assert(b <= 255) by (bit_vector)
        requires
            b == v & 255,
    ;
    b as u8
}

/// The pattern bytes of a `size` by `size` image for frame `frame`, row by row.
pub fn pattern_pixels(size: u32, frame: u32) -> (r: Vec<u8>)
    requires
        size >= 1,
        size * size <= usize::MAX,
    ensures
        r@ == pattern_image(size as nat, frame),
{
    let mut r: Vec<u8> = Vec::new();
    let mut y: u32 = 0;
    while y < size
        invariant
            size >= 1,
            y <= size,
            r@.len() == size * y,
            forall|k: int|
                0 <= k < r@.len() ==> r@[k] == pattern_byte(
                    (k % size as int) as u32,
                    (k / size as int) as u32,
                    frame,
                ) as u8,
        decreases size - y,
    {
        let mut x: u32 = 0;
        while x < size
            invariant
                size >= 1,
                y < size,
                x <= size,
                r@.len() == size * y + x,
                forall|k: int|
                    0 <= k < r@.len() ==> r@[k] == pattern_byte(
                        (k % size as int) as u32,
                        (k / size as int) as u32,
                        frame,
                    ) as u8,
            decreases size - x,
        {
            proof {
                vstd::arithmetic::mul::lemma_mul_is_commutative(size as int, y as int);
                vstd::arithmetic::div_mod::lemma_fundamental_div_mod_converse(
                    r@.len() as int,
                    size as int,
                    y as int,
                    x as int,
                );
            }
            let b = pattern_value(x, y, frame);
            r.push(b);
            x = x + 1;
        }
        assert(size * y + size == size * (y + 1)) by (nonlinear_arith);
        y = y + 1;
    }
    assert(r@ =~= pattern_image(size as nat, frame));
    r
}

/// Consecutive frames differ in the first pixel of every image: the pattern
/// byte of pixel `(0, 0)` changes whenever the frame index advances by one.
pub proof fn lemma_next_frame_differs(frame: u32)
    ensures
        pattern_byte(0, 0, frame) != pattern_byte(0, 0, u32_specs::wrapping_add(frame, 1)),
{
    let next = u32_specs::wrapping_add(frame, 1);
    let a = u32_specs::wrapping_sub(0, frame);
    let b = u32_specs::wrapping_sub(0, next);
    assert(frame ^ 0u32 == frame && next ^ 0u32 == next) by (bit_vector);
    assert(u32_specs::wrapping_add(0, frame) == frame);
    assert(u32_specs::wrapping_add(0, next) == next);
    if frame == 0 {
        assert((0u32 ^ 0u32) & 255 != (0xffff_ffffu32 ^ 1u32) & 255) by (bit_vector);
    } else if frame == 0xffff_ffff {
        assert((1u32 ^ 0xffff_ffffu32) & 255 != (0u32 ^ 0u32) & 255) by (bit_vector);
    } else {
        assert(a == 0xffff_ffffu32 - frame + 1);
        assert(b == 0xffff_ffffu32 - frame);
        assert(next == frame + 1);
        assert((a ^ frame) & 255 != (b ^ next) & 255) by (bit_vector)
            requires
                1 <= frame < 0xffff_ffffu32,
                a == 0xffff_ffffu32 - frame + 1,
                b == 0xffff_ffffu32 - frame,
                next == frame + 1,
        ;
    }
}

/// Images of consecutive frames differ, whatever their size.
pub proof fn lemma_next_image_differs(size: nat, frame: u32)
    requires
        size >= 1,
    ensures
        pattern_image(size, frame) != pattern_image(size, u32_specs::wrapping_add(frame, 1)),
{
    lemma_next_frame_differs(frame);
    assert(size * size >= 1) by (nonlinear_arith)
        requires
            size >= 1,
    ;
    let next = u32_specs::wrapping_add(frame, 1);
    vstd::arithmetic::div_mod::lemma_small_mod(0, size);
    vstd::arithmetic::div_mod::lemma_basic_div(0, size as int);
    lemma_pattern_byte_bounded(0, 0, frame);
    lemma_pattern_byte_bounded(0, 0, next);
    assert(pattern_image(size, frame)[0] != pattern_image(size, next)[0]);
}

} // verus!
