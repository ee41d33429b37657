//! RGBA pixel canvases: row-major byte buffers, four bytes per pixel.
use vstd::prelude::*;

verus! {

/// The four bytes of pixel `(x, y)` of a canvas `w` pixels wide.
pub open spec fn pixel(buf: Seq<u8>, w: int, x: int, y: int) -> Seq<u8> {
    buf.subrange((y * w + x) * 4, (y * w + x) * 4 + 4)
}

/// A fully transparent pixel.
pub open spec fn clear() -> Seq<u8> {
    seq![0u8, 0u8, 0u8, 0u8]
}

/// Whether `(x, y)` lies on a `w` by `h` canvas.
pub open spec fn on_canvas(w: int, h: int, x: int, y: int) -> bool {
    0 <= x < w && 0 <= y < h
}

/// A buffer that holds a `w` by `h` canvas.
pub open spec fn is_canvas(buf: Seq<u8>, w: int, h: int) -> bool {
    buf.len() == w * h * 4
}

proof fn lemma_slot_in_range(w: int, h: int, x: int, y: int)
    requires
        on_canvas(w, h, x, y),
    ensures
        0 <= y * w + x,
        y * w + x + 1 <= w * h,
{
    assert(0 <= y * w) by (nonlinear_arith)
        requires
            0 <= y,
            0 <= w,
    ;
    assert(y * w + w <= h * w) by (nonlinear_arith)
        requires
            y + 1 <= h,
            0 <= w,
    ;
    assert(h * w == w * h) by (nonlinear_arith);
}

proof fn lemma_slots_distinct(w: int, x1: int, y1: int, x2: int, y2: int)
    requires
        0 <= x1 < w,
        0 <= x2 < w,
        0 <= y1,
        0 <= y2,
        x1 != x2 || y1 != y2,
    ensures
        y1 * w + x1 != y2 * w + x2,
{
    if y1 < y2 {
        assert(y1 * w + w <= y2 * w) by (nonlinear_arith)
            requires
                y1 + 1 <= y2,
                0 <= w,
        ;
    } else if y2 < y1 {
        assert(y2 * w + w <= y1 * w) by (nonlinear_arith)
            requires
                y2 + 1 <= y1,
                0 <= w,
        ;
    }
}

/// Paints pixel `(x, y)` with `c` when it lies on the canvas; a point off the
/// canvas is ignored.
pub fn plot(buf: &mut Vec<u8>, w: usize, h: usize, x: i64, y: i64, c: [u8; 4])
    requires
        is_canvas(old(buf)@, w as int, h as int),
    ensures
        is_canvas(final(buf)@, w as int, h as int),
        forall|px: int, py: int|
            on_canvas(w as int, h as int, px, py) ==> #[trigger] pixel(final(buf)@, w as int, px, py)
                == if px == x && py == y {
                c@
            } else {
                pixel(old(buf)@, w as int, px, py)
            },
{
    let ghost before = buf@;
    let n = buf.len();
    proof {
        assert(w as int * h as int * 4 == n);
        if w > 0 && h > 0 {
            assert(w as int <= w as int * h as int) by (nonlinear_arith)
                requires
                    h >= 1,
                    w >= 0,
            ;
            assert(h as int <= w as int * h as int) by (nonlinear_arith)
                requires
                    w >= 1,
                    h >= 0,
            ;
        }
    }
    if x >= 0 && y >= 0 && (x as u64) < (w as u64) && (y as u64) < (h as u64) {
        let xu = x as usize;
        let yu = y as usize;
        proof {
            lemma_slot_in_range(w as int, h as int, xu as int, yu as int);
        }
        let idx = (yu * w + xu) * 4;
        buf.set(idx, c[0]);
        buf.set(idx + 1, c[1]);
        buf.set(idx + 2, c[2]);
        buf.set(idx + 3, c[3]);
        proof {
            assert forall|px: int, py: int|
                on_canvas(w as int, h as int, px, py) implies #[trigger] pixel(buf@, w as int, px, py)
                == if px == x && py == y {
                c@
            } else {
                pixel(before, w as int, px, py)
            } by {
                lemma_slot_in_range(w as int, h as int, px, py);
                if px == x && py == y {
                    assert(pixel(buf@, w as int, px, py) =~= c@);
                } else {
                    lemma_slots_distinct(w as int, px, py, xu as int, yu as int);
                    assert(pixel(buf@, w as int, px, py) =~= pixel(before, w as int, px, py));
                }
            }
        }
    } else {
        assert forall|px: int, py: int|
            on_canvas(w as int, h as int, px, py) implies #[trigger] pixel(buf@, w as int, px, py)
            == pixel(before, w as int, px, py) by {}
    }
}


/// A canvas of `w` by `h` transparent pixels.
pub fn blank_canvas(w: usize, h: usize) -> (buf: Vec<u8>)
    requires
        w * h * 4 <= usize::MAX,
    ensures
        is_canvas(buf@, w as int, h as int),
        forall|px: int, py: int|
            on_canvas(w as int, h as int, px, py) ==> #[trigger] pixel(buf@, w as int, px, py)
                == clear(),
{
    proof {
        assert(0 <= w as int * h as int) by (nonlinear_arith)
            requires
                0 <= w,
                0 <= h,
        ;
    }
    let buf = vec![0u8; w * h * 4];
    proof {
        assert forall|px: int, py: int|
            on_canvas(w as int, h as int, px, py) implies #[trigger] pixel(buf@, w as int, px, py)
            == clear() by {
            lemma_slot_in_range(w as int, h as int, px, py);
            assert(pixel(buf@, w as int, px, py) =~= clear());
        }
    }
    buf
}

pub open spec fn abs(v: int) -> int {
    if v < 0 {
        -v
    } else {
        v
    }
}

/// `(dx, dy)` is one of the eight reflections of `(x, y)` across the axes and diagonals.
pub open spec fn mirrored(x: int, y: int, dx: int, dy: int) -> bool {
    (abs(dx) == x && abs(dy) == y) || (abs(dx) == y && abs(dy) == x)
}

/// `(a, b)`, with `0 <= b <= a`, is a point of the first octant of the pixel
/// circle of radius `r`: `a` is the column whose midpoints `a - 1/2` and
/// `a + 1/2` straddle the true circle at row `b`.
pub open spec fn octant_point(r: int, a: int, b: int) -> bool {
    &&& 0 <= b <= a
    &&& a * (a - 1) + b * b <= r * r
    &&& r * r < a * (a + 1) + b * b
}

/// The offsets from the centre that the midpoint circle algorithm draws for
/// radius `r`: those whose larger and smaller absolute coordinate form an
/// octant point; for radius 0, the centre alone.
pub open spec fn on_circle(r: int, dx: int, dy: int) -> bool {
    let a = if abs(dx) >= abs(dy) { abs(dx) } else { abs(dy) };
    let b = if abs(dx) >= abs(dy) { abs(dy) } else { abs(dx) };
    if r == 0 {
        dx == 0 && dy == 0
    } else {
        octant_point(r, a, b)
    }
}

/// Each row of an octant holds at most one octant point.
pub proof fn lemma_octant_point_unique(r: int, a1: int, a2: int, b: int)
    requires
        octant_point(r, a1, b),
        octant_point(r, a2, b),
    ensures
        a1 == a2,
{
    if a1 < a2 {
        assert(a1 * (a1 + 1) <= a2 * (a2 - 1)) by (nonlinear_arith)
            requires
                0 <= a1,
                a1 + 1 <= a2,
        ;
    } else if a2 < a1 {
        assert(a2 * (a2 + 1) <= a1 * (a1 - 1)) by (nonlinear_arith)
            requires
                0 <= a2,
                a2 + 1 <= a1,
        ;
    }
}

/// The drawn circle has the eight-fold symmetry of the midpoint algorithm:
/// it is unchanged by reflection across either axis or the diagonal.
pub proof fn lemma_circle_symmetric(r: int, dx: int, dy: int)
    ensures
        on_circle(r, dx, dy) == on_circle(r, -dx, dy),
        on_circle(r, dx, dy) == on_circle(r, dx, -dy),
        on_circle(r, dx, dy) == on_circle(r, dy, dx),
{
}

/// The circle of radius `r >= 1` passes through the four points at distance
/// `r` on the axes, and no drawn pixel is farther than `r` from the centre
/// along either axis, so a canvas of side `2r + 3` holds it with a margin.
pub proof fn lemma_circle_extent(r: int, dx: int, dy: int)
    requires
        r >= 0,
    ensures
        r >= 1 ==> on_circle(r, r, 0) && on_circle(r, -r, 0) && on_circle(r, 0, r) && on_circle(
            r,
            0,
            -r,
        ),
        on_circle(r, dx, dy) ==> abs(dx) <= r && abs(dy) <= r,
{
    if r >= 1 {
        assert(octant_point(r, r, 0)) by (nonlinear_arith)
            requires
                r >= 1,
        ;
    }
    if on_circle(r, dx, dy) && r > 0 {
        let a = if abs(dx) >= abs(dy) { abs(dx) } else { abs(dy) };
        let b = if abs(dx) >= abs(dy) { abs(dy) } else { abs(dx) };
        assert(a <= r) by (nonlinear_arith)
            requires
                a * (a - 1) + b * b <= r * r,
                r >= 1,
                a >= 0,
        ;
    }
}

/// Paints the eight reflections of `(x, y)` around `(cx, cy)`.
fn plot_mirrored(
    buf: &mut Vec<u8>,
    w: usize,
    h: usize,
    cx: i64,
    cy: i64,
    x: i64,
    y: i64,
    c: [u8; 4],
)
    requires
        is_canvas(old(buf)@, w as int, h as int),
        0 <= y <= x,
        cx - x >= i64::MIN,
        cx + x <= i64::MAX,
        cy - x >= i64::MIN,
        cy + x <= i64::MAX,
    ensures
        is_canvas(final(buf)@, w as int, h as int),
        forall|px: int, py: int|
            on_canvas(w as int, h as int, px, py) ==> #[trigger] pixel(final(buf)@, w as int, px, py)
                == if mirrored(x as int, y as int, px - cx, py - cy) {
                c@
            } else {
                pixel(old(buf)@, w as int, px, py)
            },
{
    plot(buf, w, h, cx + x, cy + y, c);
    plot(buf, w, h, cx + y, cy + x, c);
    plot(buf, w, h, cx - y, cy + x, c);
    plot(buf, w, h, cx - x, cy + y, c);
    plot(buf, w, h, cx - x, cy - y, c);
    plot(buf, w, h, cx - y, cy - x, c);
    plot(buf, w, h, cx + y, cy - x, c);
    plot(buf, w, h, cx + x, cy - y, c);
}


/// One step of the midpoint circle algorithm from the octant point
/// `(x, y)` with decision value `d`: the next row keeps the column when
/// `d <= 0` and moves one column inwards otherwise.
proof fn lemma_midpoint_step(r: int, x: int, y: int, d: int)
    requires
        0 <= y <= x <= r,
        d == x * x + (y + 1) * (y + 1) - r * r - x,
        r == 0 ==> x == 0 && y == 0,
        r > 0 ==> octant_point(r, x, y),
    ensures
        -2 * x <= d <= 2 * y + 1,
        d <= 0 ==> d + 2 * (y + 1) + 1 == x * x + (y + 2) * (y + 2) - r * r - x,
        d <= 0 && x >= y + 1 ==> r > 0 && octant_point(r, x, y + 1),
        d <= 0 && x < y + 1 ==> (y + 1) * y + (y + 1) * (y + 1) > r * r,
        d > 0 ==> d + 2 * (y + 1 - (x - 1)) + 1 == (x - 1) * (x - 1) + (y + 2) * (y + 2) - r * r
            - (x - 1),
        d > 0 && x - 1 >= y + 1 ==> r > 0 && octant_point(r, x - 1, y + 1),
        d > 0 && x - 1 < y + 1 ==> (y + 1) * y + (y + 1) * (y + 1) > r * r,
{
    let lower = x * (x - 1) + y * y;
    let upper = x * (x + 1) + y * y;
    assert(d == lower - r * r + 2 * y + 1) by (nonlinear_arith)
        requires
            d == x * x + (y + 1) * (y + 1) - r * r - x,
            lower == x * (x - 1) + y * y,
    ;
    assert(upper == lower + 2 * x) by (nonlinear_arith)
        requires
            lower == x * (x - 1) + y * y,
            upper == x * (x + 1) + y * y,
    ;
    if r == 0 {
        assert(lower == 0 && d == 1);
    }
    assert(d + 2 * (y + 1) + 1 == x * x + (y + 2) * (y + 2) - r * r - x) by (nonlinear_arith)
        requires
            d == x * x + (y + 1) * (y + 1) - r * r - x,
    ;
    assert(d + 2 * (y + 1 - (x - 1)) + 1 == (x - 1) * (x - 1) + (y + 2) * (y + 2) - r * r - (x
        - 1)) by (nonlinear_arith)
        requires
            d == x * x + (y + 1) * (y + 1) - r * r - x,
    ;
    // the quantities that the next row's octant bounds compare with r * r
    let keep_lower = x * (x - 1) + (y + 1) * (y + 1);
    let keep_upper = x * (x + 1) + (y + 1) * (y + 1);
    let move_lower = (x - 1) * (x - 2) + (y + 1) * (y + 1);
    let move_upper = (x - 1) * x + (y + 1) * (y + 1);
    let diag = (y + 1) * y + (y + 1) * (y + 1);
    assert(keep_lower == lower + 2 * y + 1 && keep_upper == upper + 2 * y + 1) by (nonlinear_arith)
        requires
            lower == x * (x - 1) + y * y,
            upper == x * (x + 1) + y * y,
            keep_lower == x * (x - 1) + (y + 1) * (y + 1),
            keep_upper == x * (x + 1) + (y + 1) * (y + 1),
    ;
    assert(move_upper == keep_lower && move_lower == keep_lower - 2 * x + 2) by (nonlinear_arith)
        requires
            keep_lower == x * (x - 1) + (y + 1) * (y + 1),
            move_lower == (x - 1) * (x - 2) + (y + 1) * (y + 1),
            move_upper == (x - 1) * x + (y + 1) * (y + 1),
    ;
    if x <= y + 1 {
        assert(x * (x - 1) <= (y + 1) * y) by (nonlinear_arith)
            requires
                0 <= x <= y + 1,
        ;
    }
    if x == y {
        assert(diag == upper + 2 * y + 1) by (nonlinear_arith)
            requires
                x == y,
                upper == x * (x + 1) + y * y,
                diag == (y + 1) * y + (y + 1) * (y + 1),
        ;
    }
}

/// Rasterises the circle of radius `r` around `(cx, cy)` with the midpoint
/// circle algorithm, painting each drawn pixel that lies on the canvas with `c`.
pub fn draw_circle(buf: &mut Vec<u8>, w: usize, h: usize, cx: u32, cy: u32, r: u32, c: [u8; 4])
    requires
        is_canvas(old(buf)@, w as int, h as int),
    ensures
        is_canvas(final(buf)@, w as int, h as int),
        forall|px: int, py: int|
            on_canvas(w as int, h as int, px, py) ==> #[trigger] pixel(final(buf)@, w as int, px, py)
                == if on_circle(r as int, px - cx, py - cy) {
                c@
            } else {
                pixel(old(buf)@, w as int, px, py)
            },
{
    let ghost before = buf@;
    let ghost rr: int = r as int;
    let cxi = cx as i64;
    let cyi = cy as i64;
    let mut x: i64 = r as i64;
    let mut y: i64 = 0;
    let mut decision_over_2: i64 = 1 - x;
    proof {
        if rr > 0 {
            assert(octant_point(rr, rr, 0)) by (nonlinear_arith)
                requires
                    rr > 0,
            ;
        }
    }
    while x >= y
        invariant
            is_canvas(buf@, w as int, h as int),
            rr == r as int,
            cxi == cx as int,
            cyi == cy as int,
            0 <= y <= rr + 1,
            y - 2 <= x <= rr,
            decision_over_2 == x * x + (y + 1) * (y + 1) - rr * rr - x,
            x >= y ==> (rr == 0 ==> x == 0 && y == 0),
            x >= y ==> (rr > 0 ==> octant_point(rr, x as int, y as int)),
            x < y ==> y * (y - 1) + y * y > rr * rr,
            forall|px: int, py: int|
                on_canvas(w as int, h as int, px, py) ==> #[trigger] pixel(buf@, w as int, px, py)
                    == if on_circle(rr, px - cx, py - cy) && (if abs(px - cx) >= abs(py - cy) {
                    abs(py - cy)
                } else {
                    abs(px - cx)
                }) < y {
                    c@
                } else {
                    pixel(before, w as int, px, py)
                },
        decreases x - y + 2,
    {
        let ghost prev = buf@;
        let ghost (x0, y0): (int, int) = (x as int, y as int);
        plot_mirrored(buf, w, h, cxi, cyi, x, y, c);
        proof {
            assert forall|px: int, py: int|
                on_canvas(w as int, h as int, px, py) implies #[trigger] pixel(buf@, w as int, px, py)
                == if on_circle(rr, px - cx, py - cy) && (if abs(px - cx) >= abs(py - cy) {
                abs(py - cy)
            } else {
                abs(px - cx)
            }) < y0 + 1 {
                c@
            } else {
                pixel(before, w as int, px, py)
            } by {
                let dx = px - cx;
                let dy = py - cy;
                let a = if abs(dx) >= abs(dy) { abs(dx) } else { abs(dy) };
                let b = if abs(dx) >= abs(dy) { abs(dy) } else { abs(dx) };
                assert(pixel(prev, w as int, px, py) == if on_circle(rr, dx, dy) && b < y0 {
                    c@
                } else {
                    pixel(before, w as int, px, py)
                });
                if on_circle(rr, dx, dy) && b == y0 && rr > 0 {
                    lemma_octant_point_unique(rr, a, x0, y0);
                }
            }
        }
        proof {
            lemma_midpoint_step(rr, x0, y0, decision_over_2 as int);
        }
        y = y + 1;
        if decision_over_2 <= 0 {
            decision_over_2 = decision_over_2 + 2 * y + 1;
        } else {
            x = x - 1;
            decision_over_2 = decision_over_2 + 2 * (y - x) + 1;
        }
    }
    proof {
        assert forall|px: int, py: int|
            on_canvas(w as int, h as int, px, py) implies #[trigger] pixel(buf@, w as int, px, py)
            == if on_circle(rr, px - cx, py - cy) {
            c@
        } else {
            pixel(before, w as int, px, py)
        } by {
            let dx = px - cx;
            let dy = py - cy;
            let a = if abs(dx) >= abs(dy) { abs(dx) } else { abs(dy) };
            let b = if abs(dx) >= abs(dy) { abs(dy) } else { abs(dx) };
            if on_circle(rr, dx, dy) && b >= y && rr > 0 {
                assert(y * (y - 1) + y * y <= a * (a - 1) + b * b) by (nonlinear_arith)
                    requires
                        0 <= y <= b <= a,
                ;
            }
        }
    }
}

} // verus!
