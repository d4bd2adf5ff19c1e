use game_of_life::framebuffer::{Framebuffer, BLACK, GRAY, WHITE};

#[test]
fn new_buffer_is_black() {
    let fb = Framebuffer::new(4, 3);
    for y in 0..3 {
        for x in 0..4 {
            assert_eq!(fb.get_color(x, y), BLACK);
        }
    }
}

#[test]
fn point_writes_and_get_color_reads() {
    let mut fb = Framebuffer::new(4, 3);
    fb.point(2, 1, WHITE);
    assert_eq!(fb.get_color(2, 1), WHITE);
    assert_eq!(fb.get_color(1, 2), BLACK);
}

#[test]
fn out_of_range_write_is_dropped() {
    let mut fb = Framebuffer::new(4, 3);
    fb.point(4, 0, WHITE);
    fb.point(0, 3, WHITE);
    for y in 0..3 {
        for x in 0..4 {
            assert_eq!(fb.get_color(x, y), BLACK);
        }
    }
}

#[test]
fn out_of_range_read_is_black() {
    let mut fb = Framebuffer::new(4, 3);
    fb.clear(WHITE);
    assert_eq!(fb.get_color(4, 0), BLACK);
    assert_eq!(fb.get_color(0, 3), BLACK);
    assert_eq!(fb.get_color(100, 100), BLACK);
}

#[test]
fn clear_fills_every_pixel() {
    let mut fb = Framebuffer::new(4, 3);
    fb.clear(GRAY);
    for y in 0..3 {
        for x in 0..4 {
            assert_eq!(fb.get_color(x, y), GRAY);
        }
    }
}

#[test]
fn scaling_replicates_each_pixel_as_a_solid_block() {
    // A 2x2 buffer with only (0, 0) white, scaled to 4x4: exactly the
    // top-left 2x2 block of pixels is white, the remaining 12 keep the
    // fill color.
    let mut fb = Framebuffer::new(2, 2);
    fb.point(0, 0, WHITE);
    let scaled = fb.scale_to_window(4, 4);
    assert_eq!(scaled.len(), 16);
    for dy in 0..4 {
        for dx in 0..4 {
            let expected = if dx < 2 && dy < 2 { WHITE } else { BLACK };
            assert_eq!(scaled[dy * 4 + dx], expected);
        }
    }
}

#[test]
fn scaling_samples_by_floored_quotient() {
    // 3 source columns scaled to 8: destination column d samples source
    // column d * 3 / 8.
    let mut fb = Framebuffer::new(3, 1);
    fb.point(0, 0, 0x111111);
    fb.point(1, 0, 0x222222);
    fb.point(2, 0, 0x333333);
    let scaled = fb.scale_to_window(8, 1);
    let expected: Vec<u32> = (0..8).map(|d| [0x111111, 0x222222, 0x333333][d * 3 / 8]).collect();
    assert_eq!(scaled, expected);
}
