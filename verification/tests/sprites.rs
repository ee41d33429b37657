use orbital_escape::palette::Palette;
use orbital_escape::sprites::{aim_reticle_data, goal_zone_data, pixel_circle_data, GOAL_ZONE_SIDE};

/// The midpoint circle algorithm as the game's image generators run it,
/// plotting into a `size` by `size` RGBA buffer.
fn midpoint_reference(data: &mut [u8], size: usize, cx: i32, cy: i32, r: i32, c: [u8; 4]) {
    let mut plot = |x: i32, y: i32| {
        if x >= 0 && x < size as i32 && y >= 0 && y < size as i32 {
            let idx = ((y as usize) * size + (x as usize)) * 4;
            data[idx..idx + 4].copy_from_slice(&c);
        }
    };
    let mut x = r;
    let mut y = 0;
    let mut decision_over_2 = 1 - x;
    while x >= y {
        plot(cx + x, cy + y);
        plot(cx + y, cy + x);
        plot(cx - y, cy + x);
        plot(cx - x, cy + y);
        plot(cx - x, cy - y);
        plot(cx - y, cy - x);
        plot(cx + y, cy - x);
        plot(cx + x, cy - y);
        y += 1;
        if decision_over_2 <= 0 {
            decision_over_2 += 2 * y + 1;
        } else {
            x -= 1;
            decision_over_2 += 2 * (y - x) + 1;
        }
    }
}

/// The closed form that the library states for a drawn offset.
fn on_circle(r: i64, dx: i64, dy: i64) -> bool {
    let (a, b) = if dx.abs() >= dy.abs() { (dx.abs(), dy.abs()) } else { (dy.abs(), dx.abs()) };
    if r == 0 {
        dx == 0 && dy == 0
    } else {
        a * (a - 1) + b * b <= r * r && r * r < a * (a + 1) + b * b
    }
}

fn px(data: &[u8], w: usize, x: usize, y: usize) -> [u8; 4] {
    let i = (y * w + x) * 4;
    [data[i], data[i + 1], data[i + 2], data[i + 3]]
}

#[test]
fn circle_of_radius_one_is_a_ring_of_eight_pixels() {
    let c = [1, 2, 3, 4];
    let data = pixel_circle_data(1, c);
    assert_eq!(data.len(), 5 * 5 * 4);
    let mut lit = Vec::new();
    for y in 0..5 {
        for x in 0..5 {
            let p = px(&data, 5, x, y);
            if p == c {
                lit.push((x, y));
            } else {
                assert_eq!(p, [0, 0, 0, 0]);
            }
        }
    }
    assert_eq!(lit, vec![(1, 1), (2, 1), (3, 1), (1, 2), (3, 2), (1, 3), (2, 3), (3, 3)]);
}

#[test]
fn circle_of_radius_zero_is_its_centre() {
    let c = [9, 9, 9, 9];
    let data = pixel_circle_data(0, c);
    assert_eq!(data.len(), 3 * 3 * 4);
    for y in 0..3 {
        for x in 0..3 {
            let want = if (x, y) == (1, 1) { c } else { [0, 0, 0, 0] };
            assert_eq!(px(&data, 3, x, y), want);
        }
    }
}

#[test]
fn circles_match_the_midpoint_algorithm_and_closed_form() {
    let c = Palette::Plum.rgba_bytes(255);
    for r in 0u32..=90 {
        let size = (r * 2 + 3) as usize;
        let data = pixel_circle_data(r, c);
        let mut reference = vec![0u8; size * size * 4];
        let centre = (size / 2) as i32;
        midpoint_reference(&mut reference, size, centre, centre, r as i32, c);
        assert_eq!(data, reference, "radius {}", r);
        for y in 0..size {
            for x in 0..size {
                let drawn = on_circle(r as i64, x as i64 - centre as i64, y as i64 - centre as i64);
                assert_eq!(px(&data, size, x, y) == c, drawn, "radius {} at ({}, {})", r, x, y);
            }
        }
    }
}

#[test]
fn circle_touches_axes_and_keeps_a_margin() {
    let c = [5, 6, 7, 8];
    for r in 1u32..=40 {
        let size = (r * 2 + 3) as usize;
        let data = pixel_circle_data(r, c);
        let centre = (r + 1) as usize;
        assert_eq!(px(&data, size, centre + r as usize, centre), c);
        assert_eq!(px(&data, size, centre - r as usize, centre), c);
        assert_eq!(px(&data, size, centre, centre + r as usize), c);
        assert_eq!(px(&data, size, centre, centre - r as usize), c);
        for i in 0..size {
            assert_eq!(px(&data, size, i, 0), [0, 0, 0, 0]);
            assert_eq!(px(&data, size, 0, i), [0, 0, 0, 0]);
            assert_eq!(px(&data, size, i, size - 1), [0, 0, 0, 0]);
            assert_eq!(px(&data, size, size - 1, i), [0, 0, 0, 0]);
        }
    }
}

#[test]
fn circle_is_eightfold_symmetric() {
    let c = [1, 1, 1, 1];
    let r = 37u32;
    let size = (r * 2 + 3) as usize;
    let data = pixel_circle_data(r, c);
    for y in 0..size {
        for x in 0..size {
            let p = px(&data, size, x, y);
            assert_eq!(p, px(&data, size, y, x));
            assert_eq!(p, px(&data, size, size - 1 - x, y));
            assert_eq!(p, px(&data, size, x, size - 1 - y));
        }
    }
}

#[test]
fn goal_zone_has_three_mint_rings() {
    let data = goal_zone_data();
    let size = GOAL_ZONE_SIDE;
    assert_eq!(size, 35);
    assert_eq!(data.len(), 35 * 35 * 4);
    let mint = [0xAE, 0xEF, 0xB9, 0xFF];
    let mut reference = vec![0u8; size * size * 4];
    for r in [16, 10, 4] {
        midpoint_reference(&mut reference, size, 17, 17, r, mint);
    }
    assert_eq!(data, reference);
    assert_eq!(px(&data, size, 17 + 16, 17), mint);
    assert_eq!(px(&data, size, 17 + 10, 17), mint);
    assert_eq!(px(&data, size, 17 + 4, 17), mint);
    assert_eq!(px(&data, size, 17, 17), [0, 0, 0, 0]);
}

/// The reticle as the game's generator draws it.
fn reticle_reference() -> Vec<u8> {
    let width = 15usize;
    let height = 240usize;
    let mut data = vec![0u8; width * height * 4];
    let cx = (width / 2) as i32;
    let cy = (height / 2) as i32;
    let mint_u8 = [0xAE, 0xEF, 0xB9, 0xFF];
    let slate_u8 = [0x72, 0x72, 0x72, 0xFF];
    let mut plot = |dx: i32, dy: i32, color_bytes: [u8; 4]| {
        let x = cx + dx;
        let y = cy - dy;
        if x >= 0 && x < width as i32 && y >= 0 && y < height as i32 {
            let idx = ((y as usize) * width + (x as usize)) * 4;
            data[idx..idx + 4].copy_from_slice(&color_bytes);
        }
    };
    let mut dy = 14i32;
    let max_forward = 35i32;
    while dy < max_forward {
        for step in 0..4 {
            if dy + step < max_forward {
                plot(0, dy + step, mint_u8);
            }
        }
        dy += 7;
    }
    let tip_y = max_forward;
    plot(0, tip_y, mint_u8);
    plot(-1, tip_y - 1, mint_u8);
    plot(1, tip_y - 1, mint_u8);
    plot(-2, tip_y - 2, mint_u8);
    plot(2, tip_y - 2, mint_u8);
    plot(-3, tip_y - 3, mint_u8);
    plot(3, tip_y - 3, mint_u8);
    let mut ry = 14i32;
    let max_rear = cy - 2;
    while ry < max_rear {
        for step in 0..4 {
            if ry + step < max_rear {
                plot(0, -(ry + step), slate_u8);
            }
        }
        ry += 7;
    }
    data
}

#[test]
fn aim_reticle_matches_its_drawing() {
    let data = aim_reticle_data();
    assert_eq!(data.len(), 15 * 240 * 4);
    assert_eq!(data, reticle_reference());
    let mint = [0xAE, 0xEF, 0xB9, 0xFF];
    let slate = [0x72, 0x72, 0x72, 0xFF];
    // first forward dash: distances 14 to 17 above the centre row 120
    for d in 14..18 {
        assert_eq!(px(&data, 15, 7, 120 - d), mint);
    }
    assert_eq!(px(&data, 15, 7, 120 - 18), [0, 0, 0, 0]);
    // arrowhead tip and outer fins
    assert_eq!(px(&data, 15, 7, 120 - 35), mint);
    assert_eq!(px(&data, 15, 4, 120 - 32), mint);
    assert_eq!(px(&data, 15, 10, 120 - 32), mint);
    // rear dashes end before 118 below the centre
    assert_eq!(px(&data, 15, 7, 120 + 14), slate);
    assert_eq!(px(&data, 15, 7, 120 + 115), slate);
    assert_eq!(px(&data, 15, 7, 120 + 116), [0, 0, 0, 0]);
    assert_eq!(px(&data, 15, 7, 120), [0, 0, 0, 0]);
}
