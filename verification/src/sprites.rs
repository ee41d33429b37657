//! The pixel data of the generated sprites: circles of a given radius and
//! colour, the goal zone's concentric rings, and the aiming reticle.
use vstd::prelude::*;
use crate::palette::Palette;
use crate::raster::{
    abs, blank_canvas, clear, draw_circle, is_canvas, on_canvas, on_circle, plot, pixel,
};

verus! {

/// The side of the square canvas that holds a circle of radius `radius`: the
/// diameter plus a one-pixel margin on each side.
pub open spec fn circle_canvas_side(radius: int) -> int {
    radius * 2 + 3
}

/// Pixel data of a 1px thick circle of radius `radius` in colour `rgba`,
/// centred on a square canvas of side `2 * radius + 3`; all other pixels are
/// transparent.
pub fn pixel_circle_data(radius: u32, rgba: [u8; 4]) -> (data: Vec<u8>)
    requires
        circle_canvas_side(radius as int) * circle_canvas_side(radius as int) * 4 <= usize::MAX,
    ensures
        is_canvas(
            data@,
            circle_canvas_side(radius as int),
            circle_canvas_side(radius as int),
        ),
        forall|px: int, py: int|
            on_canvas(
                circle_canvas_side(radius as int),
                circle_canvas_side(radius as int),
                px,
                py,
            ) ==> #[trigger] pixel(data@, circle_canvas_side(radius as int), px, py) == if on_circle(
                radius as int,
                px - (radius + 1),
                py - (radius + 1),
            ) {
                rgba@
            } else {
                clear()
            },
{
    proof {
        assert(circle_canvas_side(radius as int) <= circle_canvas_side(radius as int)
            * circle_canvas_side(radius as int)) by (nonlinear_arith)
            requires
                circle_canvas_side(radius as int) >= 1,
        ;
        assert(circle_canvas_side(radius as int) < 0x1_0000_0000) by (nonlinear_arith)
            requires
                circle_canvas_side(radius as int) >= 1,
                circle_canvas_side(radius as int) * circle_canvas_side(radius as int) * 4
                    <= 0xffff_ffff_ffff_ffff,
        ;
    }
    let size = (radius as usize) * 2 + 3;
    let mut data = blank_canvas(size, size);
    let center = radius + 1;
    draw_circle(&mut data, size, size, center, center, radius, rgba);
    data
}

/// Side of the goal zone canvas: the outer ring's diameter plus a margin.
pub const GOAL_ZONE_SIDE: usize = 35;

/// Pixel data of the goal zone: three concentric mint rings of radii 16, 10
/// and 4 centred on a 35 by 35 canvas; all other pixels are transparent.
pub fn goal_zone_data() -> (data: Vec<u8>)
    ensures
        is_canvas(data@, 35, 35),
        forall|px: int, py: int|
            on_canvas(35, 35, px, py) ==> #[trigger] pixel(data@, 35, px, py) == if on_circle(
                16,
                px - 17,
                py - 17,
            ) || on_circle(10, px - 17, py - 17) || on_circle(4, px - 17, py - 17) {
                Palette::Mint.rgba_with(255)
            } else {
                clear()
            },
{
    let size = GOAL_ZONE_SIDE;
    let mint = Palette::Mint.rgba_bytes(255);
    let mut data = blank_canvas(size, size);
    let center: u32 = 17;
    draw_circle(&mut data, size, size, center, center, 16, mint);
    draw_circle(&mut data, size, size, center, center, 10, mint);
    draw_circle(&mut data, size, size, center, center, 4, mint);
    data
}


/// Distance `d` from the reticle's centre is covered by a dotted line that
/// starts 14 pixels out, stops before `limit`, and repeats four lit pixels
/// followed by three unlit ones.
pub open spec fn dotted(d: int, limit: int) -> bool {
    14 <= d < limit && (d - 14) % 7 < 4
}

/// The arrowhead at the tip of the forward line: its point at height 35 and
/// two fins three pixels long.
pub open spec fn arrowhead(dx: int, dy: int) -> bool {
    32 <= dy <= 35 && abs(dx) == 35 - dy
}

/// The colour of pixel `(px, py)` of the 15 by 240 reticle canvas, whose
/// centre is `(7, 120)` and whose up direction is towards row 0: a mint dotted
/// line and arrowhead ahead, a slate dotted line behind.
pub open spec fn reticle_color(px: int, py: int) -> Seq<u8> {
    let dx = px - 7;
    let dy = 120 - py;
    if (dx == 0 && dotted(dy, 35)) || arrowhead(dx, dy) {
        Palette::Mint.rgba_with(255)
    } else if dx == 0 && dotted(-dy, 118) {
        Palette::Slate.rgba_with(255)
    } else {
        clear()
    }
}

proof fn lemma_dot_phase(d: int, base: int)
    requires
        base >= 14,
        (base - 14) % 7 == 0,
        base <= d < base + 7,
    ensures
        (d - 14) % 7 == d - base,
{
    let k = (base - 14) / 7;
    vstd::arithmetic::div_mod::lemma_fundamental_div_mod(base - 14, 7);
    vstd::arithmetic::div_mod::lemma_fundamental_div_mod_converse(d - 14, 7, k, d - base);
}

proof fn lemma_next_dot(d: int)
    requires
        d >= 14,
        (d - 14) % 7 == 0,
    ensures
        (d + 7 - 14) % 7 == 0,
{
    let k = (d - 14) / 7;
    vstd::arithmetic::div_mod::lemma_fundamental_div_mod(d - 14, 7);
    vstd::arithmetic::div_mod::lemma_fundamental_div_mod_converse(d + 7 - 14, 7, k + 1, 0);
}

/// A dotted line lights nothing within 14 pixels of the centre or from
/// `limit` on, and in between repeats a period of seven pixels whose first
/// four are lit.
pub proof fn lemma_dot_pattern(k: int, s: int, limit: int)
    requires
        k >= 0,
        0 <= s < 7,
    ensures
        14 + 7 * k + s < limit ==> (dotted(14 + 7 * k + s, limit) <==> s < 4),
        !dotted(13 - k, limit),
        !dotted(limit + k, limit),
{
    vstd::arithmetic::div_mod::lemma_fundamental_div_mod_converse(7 * k, 7, k, 0);
    lemma_dot_phase(14 + 7 * k + s, 14 + 7 * k);
}

/// Paints one dotted line of the reticle along column 7, from distance 14 of
/// the centre row up to, not including, `limit`: upwards when `up`, downwards
/// otherwise.
fn plot_dotted(buf: &mut Vec<u8>, up: bool, limit: i64, c: [u8; 4])
    requires
        is_canvas(old(buf)@, 15, 240),
        14 <= limit <= 118,
    ensures
        is_canvas(final(buf)@, 15, 240),
        forall|px: int, py: int|
            on_canvas(15, 240, px, py) ==> #[trigger] pixel(final(buf)@, 15, px, py) == if px == 7
                && dotted(if up { 120 - py } else { py - 120 }, limit as int) {
                c@
            } else {
                pixel(old(buf)@, 15, px, py)
            },
{
    let ghost before = buf@;
    let cx: i64 = 7;
    let cy: i64 = 120;
    let mut d: i64 = 14;
    while d < limit
        invariant
            is_canvas(buf@, 15, 240),
            14 <= d <= limit + 7,
            (d - 14) % 7 == 0,
            cx == 7,
            cy == 120,
            14 <= limit <= 118,
            forall|px: int, py: int|
                on_canvas(15, 240, px, py) ==> #[trigger] pixel(buf@, 15, px, py) == if px == 7
                    && dotted(if up { 120 - py } else { py - 120 }, limit as int) && (if up {
                    120 - py
                } else {
                    py - 120
                }) < d {
                    c@
                } else {
                    pixel(before, 15, px, py)
                },
        decreases limit + 7 - d,
    {
        let mut step: i64 = 0;
        while step < 4
            invariant
                is_canvas(buf@, 15, 240),
                14 <= d < limit,
                (d - 14) % 7 == 0,
                cx == 7,
                cy == 120,
                14 <= limit <= 118,
                0 <= step <= 4,
                forall|px: int, py: int|
                    on_canvas(15, 240, px, py) ==> #[trigger] pixel(buf@, 15, px, py) == if px == 7
                        && dotted(if up { 120 - py } else { py - 120 }, limit as int) && (if up {
                        120 - py
                    } else {
                        py - 120
                    }) < d + step {
                        c@
                    } else {
                        pixel(before, 15, px, py)
                    },
            decreases 4 - step,
        {
            let ghost prev = buf@;
            if d + step < limit {
                if up {
                    plot(buf, 15, 240, cx, cy - (d + step), c);
                } else {
                    plot(buf, 15, 240, cx, cy + (d + step), c);
                }
            }
            proof {
                assert forall|px: int, py: int|
                    on_canvas(15, 240, px, py) implies #[trigger] pixel(buf@, 15, px, py) == if px
                    == 7 && dotted(if up { 120 - py } else { py - 120 }, limit as int) && (if up {
                    120 - py
                } else {
                    py - 120
                }) < d + step + 1 {
                    c@
                } else {
                    pixel(before, 15, px, py)
                } by {
                    let dist = if up { 120 - py } else { py - 120 };
                    assert(pixel(prev, 15, px, py) == if px == 7 && dotted(dist, limit as int) && dist
                        < d + step {
                        c@
                    } else {
                        pixel(before, 15, px, py)
                    });
                    if dist == d + step {
                        lemma_dot_phase(dist, d as int);
                    }
                }
            }
            step = step + 1;
        }
        proof {
            assert forall|px: int, py: int|
                on_canvas(15, 240, px, py) implies #[trigger] pixel(buf@, 15, px, py) == if px == 7
                && dotted(if up { 120 - py } else { py - 120 }, limit as int) && (if up {
                120 - py
            } else {
                py - 120
            }) < d + 7 {
                c@
            } else {
                pixel(before, 15, px, py)
            } by {
                let dist = if up { 120 - py } else { py - 120 };
                if d + 4 <= dist < d + 7 {
                    lemma_dot_phase(dist, d as int);
                }
            }
            lemma_next_dot(d as int);
        }
        d = d + 7;
    }
}

/// Pixel data of the aiming reticle on a 15 by 240 canvas centred on
/// `(7, 120)`: a mint dotted line ahead of the ship ending in an arrowhead,
/// and a slate dotted line behind it (see [`reticle_color`]).
pub fn aim_reticle_data() -> (data: Vec<u8>)
    ensures
        is_canvas(data@, 15, 240),
        forall|px: int, py: int|
            on_canvas(15, 240, px, py) ==> #[trigger] pixel(data@, 15, px, py) == reticle_color(
                px,
                py,
            ),
{
    let width: usize = 15;
    let height: usize = 240;
    let mint = Palette::Mint.rgba_bytes(255);
    let slate = Palette::Slate.rgba_bytes(255);
    let cx: i64 = 7;
    let cy: i64 = 120;
    let mut data = blank_canvas(width, height);
    // forward dotted line
    let max_forward: i64 = 35;
    plot_dotted(&mut data, true, max_forward, mint);
    let ghost lined = data@;
    // arrowhead fins at the top
    let tip_y = max_forward;
    plot(&mut data, width, height, cx, cy - tip_y, mint);
    plot(&mut data, width, height, cx - 1, cy - (tip_y - 1), mint);
    plot(&mut data, width, height, cx + 1, cy - (tip_y - 1), mint);
    plot(&mut data, width, height, cx - 2, cy - (tip_y - 2), mint);
    plot(&mut data, width, height, cx + 2, cy - (tip_y - 2), mint);
    plot(&mut data, width, height, cx - 3, cy - (tip_y - 3), mint);
    plot(&mut data, width, height, cx + 3, cy - (tip_y - 3), mint);
    let ghost headed = data@;
    // rear dotted line
    let max_rear = cy - 2;
    plot_dotted(&mut data, false, max_rear, slate);
    proof {
        assert forall|px: int, py: int|
            on_canvas(15, 240, px, py) implies #[trigger] pixel(data@, 15, px, py) == reticle_color(
            px,
            py,
        ) by {
            assert(pixel(lined, 15, px, py) == if px == 7 && dotted(120 - py, 35) {
                mint@
            } else {
                clear()
            });
            assert(pixel(headed, 15, px, py) == if (px == 7 && dotted(120 - py, 35)) || arrowhead(
                px - 7,
                120 - py,
            ) {
                mint@
            } else {
                clear()
            });
        }
    }
    data
}

} // verus!
