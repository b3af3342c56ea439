use revolve_scene::texture::{pattern_pixels, pattern_value};

#[test]
fn pattern_formula_values() {
    assert_eq!(pattern_value(0, 0, 0), 0);
    assert_eq!(pattern_value(0, 0, 1), 254);
    assert_eq!(pattern_value(0, 0, 2), 252);
    // x=3, y=1, frame=5: (3 - 4) ^ (1 + 6) = 0xffffffff ^ 7, low byte 0xf8
    assert_eq!(pattern_value(3, 1, 5), 0xf8);
    // x=10, y=20, frame=0: (10 - 20) ^ (20 + 10) wraps to 0xfffffff6 ^ 30
    assert_eq!(pattern_value(10, 20, 0), (0xf6u32 ^ 30) as u8);
}

#[test]
fn pattern_is_pure() {
    let a = pattern_pixels(256, 17);
    let b = pattern_pixels(256, 17);
    assert_eq!(a.len(), 256 * 256);
    assert_eq!(a, b);
}

#[test]
fn next_frame_changes_a_pixel() {
    for f in [0u32, 1, 2, 7, 255, 256, 1000, u32::MAX - 1, u32::MAX] {
        let a = pattern_pixels(4, f);
        let b = pattern_pixels(4, f.wrapping_add(1));
        assert_ne!(a, b);
        assert_ne!(a[0], b[0]);
    }
}

#[test]
fn pixels_are_row_major() {
    let size = 5u32;
    let px = pattern_pixels(size, 42);
    for y in 0..size {
        for x in 0..size {
            assert_eq!(px[(y * size + x) as usize], pattern_value(x, y, 42));
        }
    }
}

#[test]
fn single_pixel_image() {
    assert_eq!(pattern_pixels(1, 3), vec![pattern_value(0, 0, 3)]);
}
