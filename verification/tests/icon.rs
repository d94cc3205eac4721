use sidegate::icon::{tray_icon, COLOR_BYTES, MASK_BYTES, SIDE};

/// Opacity of a pixel by real distances.
fn smooth_alpha(x: usize, y: usize) -> i32 {
    let mut hit = 0;
    for sy in 0..4 {
        for sx in 0..4 {
            let dx = x as f32 + (sx as f32 + 0.5) / 4.0 - 16.0;
            let dy = y as f32 + (sy as f32 + 0.5) / 4.0 - 16.0;
            let d = (dx * dx + dy * dy).sqrt();
            if (8.6..14.1).contains(&d) || d < 4.2 {
                hit += 1;
            }
        }
    }
    hit * 255 / 16
}

fn pixel(bitmap: &[u8], x: usize, y: usize) -> [u8; 4] {
    let i = (y * 32 + x) * 4;
    [bitmap[i], bitmap[i + 1], bitmap[i + 2], bitmap[i + 3]]
}

#[test]
fn icon_matches_real_distances() {
    for on in [false, true] {
        let c: [i32; 3] = if on { [0x20, 0x81, 0xF4] } else { [0x90, 0x90, 0x90] };
        let icon = tray_icon(on);
        for y in 0..32 {
            for x in 0..32 {
                let a = smooth_alpha(x, y);
                let want = [
                    (c[0] * a / 255) as u8,
                    (c[1] * a / 255) as u8,
                    (c[2] * a / 255) as u8,
                    a as u8,
                ];
                assert_eq!(pixel(&icon.color, x, y), want, "pixel {x},{y}");
            }
        }
    }
}

#[test]
fn icon_sizes() {
    assert_eq!(SIDE, 32);
    let icon = tray_icon(true);
    assert_eq!(icon.color.len(), COLOR_BYTES);
    assert_eq!(icon.color.len(), 32 * 32 * 4);
    assert_eq!(icon.mask, vec![0u8; 32 * 32 / 8]);
    assert_eq!(icon.mask.len(), MASK_BYTES);
}

#[test]
fn icon_colours_of_whole_pixels() {
    let on = tray_icon(true);
    let off = tray_icon(false);
    // The dot in the middle, the gap, the ring, the corner.
    assert_eq!(pixel(&on.color, 16, 16), [0x20, 0x81, 0xF4, 255]);
    assert_eq!(pixel(&off.color, 16, 16), [0x90, 0x90, 0x90, 255]);
    assert_eq!(pixel(&on.color, 22, 16), [0, 0, 0, 0]);
    assert_eq!(pixel(&on.color, 27, 16), [0x20, 0x81, 0xF4, 255]);
    assert_eq!(pixel(&on.color, 0, 0), [0, 0, 0, 0]);
}

#[test]
fn icon_is_symmetric_and_premultiplied() {
    let on = tray_icon(true).color;
    let off = tray_icon(false).color;
    for y in 0..32 {
        for x in 0..32 {
            let p = pixel(&on, x, y);
            assert_eq!(p, pixel(&on, 31 - x, y));
            assert_eq!(p, pixel(&on, x, 31 - y));
            assert_eq!(p, pixel(&on, y, x));
            assert_eq!(p[3], pixel(&off, x, y)[3]);
            assert!(p[0] <= p[3] && p[1] <= p[3] && p[2] <= p[3]);
        }
    }
}
