use cce_lock::surface::{buffer_scale, pixels, LockOutput};

#[test]
fn pixels_are_logical_pixels_at_the_scale() {
    assert_eq!(pixels(1920, 1), 1920);
    assert_eq!(pixels(1920, 2), 3840);
    assert_eq!(pixels(0, 3), 0);
    assert_eq!(pixels(7, 0), 0);
}

#[test]
fn pixels_saturate() {
    assert_eq!(pixels(100, -1), 0);
    assert_eq!(pixels(u32::MAX, 2), u32::MAX);
    assert_eq!(pixels(u32::MAX, 1), u32::MAX);
}

#[test]
fn pixels_are_those_of_single_precision() {
    let sizes = [
        0u32, 1, 1366, 16777215, 16777216, 16777217, 16777218, 16777219, 33554431, 33554433,
        33554434, 33554435, 50331647, 123456789, 2147483647, 4294967167, 4294967168, 4294967295,
    ];
    let scales = [
        -2147483648i32, -16777217, -1, 0, 1, 2, 3, 5, 7, 4099, 16777217, 16777219, 123456789,
        2147483583, 2147483647,
    ];
    for &size in &sizes {
        for &scale in &scales {
            assert_eq!(pixels(size, scale), (size as f32 * scale as f32) as u32);
        }
    }
}

#[test]
fn buffer_scale_is_that_of_single_precision() {
    for scale in [1i32, 2, -1, 16777217, -16777219, 2147483647, -2147483648] {
        assert_eq!(buffer_scale(scale), (scale as f32) as i32);
    }
}

#[test]
fn a_surface_is_drawable_once_configured() {
    let fresh = LockOutput::new();
    assert_eq!((fresh.width, fresh.height, fresh.scale), (0, 0, 1));
    assert!(!fresh.configured && !fresh.rendering && !fresh.drawable());
    let mut out = LockOutput { width: 10, height: 10, ..fresh };
    assert!(!out.drawable());
    out.configured = true;
    assert!(out.drawable());
    out.height = 0;
    assert!(!out.drawable());
    out.height = 1;
    out.width = 0;
    assert!(!out.drawable());
}
