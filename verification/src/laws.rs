//! What holds of every canvas: of its fit into a target, of the maps between
//! parent and canvas points, and of the moves of its camera.
//!
//! All quantities are raw counts, so "a grid step" is 2^-32 and `ONE` grid
//! steps are the number one.

use crate::fixed::{quotient, representable, sat_add, sat_div, sat_mul, sat_sub, saturate, ONE};
use crate::model::CanvasModel;
use vstd::prelude::*;

verus! {

// Rounding down and what it loses.

/// Rounding down loses less than one divisor: `d * (n / d) <= n < d * (n / d) + d`.
proof fn lemma_floor_bounds(n: int, d: int)
    requires
        0 <= n,
        0 < d,
    ensures
        0 <= n / d,
        d * (n / d) <= n < d * (n / d) + d,
{
    assert(0 <= n / d && d * (n / d) <= n < d * (n / d) + d) by (nonlinear_arith)
        requires
            0 <= n,
            0 < d,
    ;
}

/// A factor no larger than `n / d` times `d` does not exceed `n`.
proof fn lemma_scaled_below(n: int, d: int, s: int)
    requires
        0 <= n,
        0 < d,
        0 <= s <= n / d,
    ensures
        0 <= d * s <= n,
{
    lemma_floor_bounds(n, d);
    let q = n / d;
    assert(0 <= d * s <= d * q) by (nonlinear_arith)
        requires
            0 < d,
            0 <= s <= q,
    ;
}

/// Zero divided by anything is zero.
proof fn lemma_zero_divided(z: int)
    ensures
        sat_div(0, z) == 0,
{
    if z > 0 {
        assert(0int / z == 0) by (nonlinear_arith)
            requires
                z > 0,
        ;
    } else if z < 0 {
        assert(0int / (-z) == 0) by (nonlinear_arith)
            requires
                z < 0,
        ;
    }
}

/// For a target of non-negative size the scale factor is the smaller of the
/// two ratios rounded down, clamped to the range; scaling either logical
/// dimension by it stays within the target, and the displayed size is that
/// product rounded down.
proof fn lemma_scale_factor_bounds(c: CanvasModel, target_width: int, target_height: int)
    requires
        c.wf(),
        0 <= target_width <= i64::MAX,
        0 <= target_height <= i64::MAX,
    ensures
        ({
            let factors = c.scale_factor(target_width, target_height);
            let s = c.min_scale_factor(target_width, target_height);
            let shown = c.size(target_width, target_height);
            &&& factors.0 == saturate((target_width * ONE) / c.width)
            &&& factors.1 == saturate((target_height * ONE) / c.height)
            &&& 0 <= s <= i64::MAX
            &&& 0 <= c.width * s <= target_width * ONE
            &&& 0 <= c.height * s <= target_height * ONE
            &&& shown.0 == (c.width * s) / (ONE as int)
            &&& shown.1 == (c.height * s) / (ONE as int)
        }),
{
    let one: int = ONE as int;
    let s = c.min_scale_factor(target_width, target_height);
    lemma_floor_bounds(target_width * one, c.width);
    lemma_floor_bounds(target_height * one, c.height);
    lemma_scaled_below(target_width * one, c.width, s);
    lemma_scaled_below(target_height * one, c.height, s);
}

// The fit.

/// The displayed canvas fits in the target and keeps its aspect ratio.
///
/// For a target of non-negative size, neither displayed dimension exceeds the
/// target's. The two dimensions are the canvas's own scaled by one common
/// factor and rounded down to the grid, so their cross products with the
/// logical dimensions differ by less than one logical dimension.
pub proof fn lemma_size_fits(c: CanvasModel, target_width: int, target_height: int)
    requires
        c.wf(),
        0 <= target_width <= i64::MAX,
        0 <= target_height <= i64::MAX,
    ensures
        c.fits(target_width, target_height, c.size(target_width, target_height)),
{
    let one: int = ONE as int;
    let w = c.width;
    let h = c.height;
    let s = c.min_scale_factor(target_width, target_height);
    let shown = c.size(target_width, target_height);
    lemma_scale_factor_bounds(c, target_width, target_height);
    let a = w * s;
    let b = h * s;
    assert(a * h == b * w) by (nonlinear_arith)
        requires
            a == w * s,
            b == h * s,
    ;
    assert(shown.0 * h - shown.1 * w < w) by (nonlinear_arith)
        requires
            one > 0,
            w > 0,
            h > 0,
            one * shown.0 <= a,
            b < one * shown.1 + one,
            a * h == b * w,
    ;
    assert(-h < shown.0 * h - shown.1 * w) by (nonlinear_arith)
        requires
            one > 0,
            w > 0,
            h > 0,
            one * shown.1 <= b,
            a < one * shown.0 + one,
            a * h == b * w,
    ;
}

/// The displayed canvas is as large as fits: along the axis with the smaller
/// ratio it falls short of the target by less than the logical dimension plus
/// one, counted in grid steps. This holds where neither ratio is clamped.
pub proof fn lemma_size_fills_an_axis(c: CanvasModel, target_width: int, target_height: int)
    requires
        c.wf(),
        0 <= target_width <= i64::MAX,
        0 <= target_height <= i64::MAX,
        representable(quotient(target_width * ONE, c.width)),
        representable(quotient(target_height * ONE, c.height)),
    ensures
        ({
            let factors = c.scale_factor(target_width, target_height);
            let shown = c.size(target_width, target_height);
            &&& factors.0 <= factors.1 ==> (target_width - shown.0) * ONE < c.width + ONE
            &&& factors.1 <= factors.0 ==> (target_height - shown.1) * ONE < c.height + ONE
        }),
{
    let one: int = ONE as int;
    lemma_scale_factor_bounds(c, target_width, target_height);
    lemma_floor_bounds(target_width * one, c.width);
    lemma_floor_bounds(target_height * one, c.height);
}

/// A target that matches the canvas in one dimension and is no smaller in
/// the other shows the canvas unscaled: the scale factor is one, the displayed
/// size is the logical size, and the margins are half of what is left over,
/// rounded down.
pub proof fn lemma_unscaled_fit(c: CanvasModel, target_width: int, target_height: int)
    requires
        c.wf(),
        c.width <= target_width <= i64::MAX,
        c.height <= target_height <= i64::MAX,
        target_width == c.width || target_height == c.height,
    ensures
        c.min_scale_factor(target_width, target_height) == ONE,
        c.size(target_width, target_height) == (c.width, c.height),
        c.padding(target_width, target_height) == (
            (target_width - c.width) / 2,
            (target_height - c.height) / 2,
        ),
{
    let one: int = ONE as int;
    let w = c.width;
    let h = c.height;
    assert((target_width * one) / w >= one && (target_width == w ==> (target_width * one) / w
        == one)) by (nonlinear_arith)
        requires
            0 < w <= target_width,
            one > 0,
    ;
    assert((target_height * one) / h >= one && (target_height == h ==> (target_height * one) / h
        == one)) by (nonlinear_arith)
        requires
            0 < h <= target_height,
            one > 0,
    ;
    assert(c.min_scale_factor(target_width, target_height) == one);
}

/// The margins center the displayed canvas: for a target of non-negative
/// size each margin is non-negative, and twice the margin plus the displayed
/// dimension is the target's dimension, or one grid step less.
pub proof fn lemma_padding_centers(c: CanvasModel, target_width: int, target_height: int)
    requires
        c.wf(),
        0 <= target_width <= i64::MAX,
        0 <= target_height <= i64::MAX,
    ensures
        CanvasModel::centers(
            target_width,
            target_height,
            c.size(target_width, target_height),
            c.padding(target_width, target_height),
        ),
{
    lemma_size_fits(c, target_width, target_height);
}

// The maps between parent and canvas points.

/// A canvas that was just made, shown in a parent of its own size at the
/// parent's origin, maps every point to itself, in both directions.
pub proof fn lemma_identity_mapping(width: int, height: int, x: int, y: int)
    requires
        0 < width <= i64::MAX,
        0 < height <= i64::MAX,
        representable(x),
        representable(y),
    ensures
        CanvasModel::initial(width, height).min_scale_factor(width, height) == ONE,
        CanvasModel::initial(width, height).to_parent(width, height, x, y, 0, 0) == (x, y),
        CanvasModel::initial(width, height).to_canvas(width, height, x, y, 0, 0) == (x, y),
{
    let c = CanvasModel::initial(width, height);
    lemma_unscaled_fit(c, width, height);
    lemma_zero_divided(c.zoom.0);
    lemma_zero_divided(c.zoom.1);
}

/// One axis of a point of the displayed canvas, mapped to the canvas.
proof fn lemma_axis_maps_into_canvas(
    p: int,
    draw_offset: int,
    s: int,
    pan: int,
    extent: int,
    shown: int,
)
    requires
        representable(draw_offset),
        0 < s <= i64::MAX,
        0 < extent <= i64::MAX,
        0 <= extent * s,
        shown == (extent * s) / (ONE as int),
        shown <= i64::MAX,
        draw_offset <= p <= draw_offset + shown,
    ensures
        sat_sub(0, pan) <= CanvasModel::axis_to_canvas(p, draw_offset, s, pan) <= sat_sub(
            extent,
            pan,
        ),
{
    let one: int = ONE as int;
    let n = (p - draw_offset) * one;
    lemma_floor_bounds(n, s);
    assert(n / s <= extent) by (nonlinear_arith)
        requires
            0 < s,
            0 <= n <= extent * s,
            s * (n / s) <= n,
    ;
    assert(sat_div(sat_sub(p, draw_offset), s) == n / s);
}

/// Hit testing: a parent point inside the rectangle in which the canvas is
/// displayed maps to a point of the canvas's own rectangle, moved by the
/// camera's pan. This holds for a target of non-negative size and a positive
/// scale factor.
pub proof fn lemma_shown_points_map_into_canvas(
    c: CanvasModel,
    target_width: int,
    target_height: int,
    x: int,
    y: int,
    offset_x: int,
    offset_y: int,
)
    requires
        c.wf(),
        0 <= target_width <= i64::MAX,
        0 <= target_height <= i64::MAX,
        c.min_scale_factor(target_width, target_height) > 0,
        representable(offset_x),
        representable(offset_y),
        offset_x <= x <= offset_x + c.size(target_width, target_height).0,
        offset_y <= y <= offset_y + c.size(target_width, target_height).1,
    ensures
        ({
            let pan = c.pan();
            let there = c.to_canvas(target_width, target_height, x, y, offset_x, offset_y);
            &&& sat_sub(0, pan.0) <= there.0 <= sat_sub(c.width, pan.0)
            &&& sat_sub(0, pan.1) <= there.1 <= sat_sub(c.height, pan.1)
        }),
{
    let s = c.min_scale_factor(target_width, target_height);
    let shown = c.size(target_width, target_height);
    let pan = c.pan();
    lemma_size_fits(c, target_width, target_height);
    lemma_scale_factor_bounds(c, target_width, target_height);
    lemma_axis_maps_into_canvas(x, offset_x, s, pan.0, c.width, shown.0);
    lemma_axis_maps_into_canvas(y, offset_y, s, pan.1, c.height, shown.1);
}

/// One axis of a point that is mapped to the canvas and back.
proof fn lemma_axis_round_trip(p: int, draw_offset: int, s: int, pan: int)
    requires
        representable(p),
        representable(draw_offset),
        0 < s <= i64::MAX,
        CanvasModel::axis_in_range(p, draw_offset, s, pan),
    ensures
        ({
            let there = CanvasModel::axis_to_canvas(p, draw_offset, s, pan);
            let back = CanvasModel::axis_to_parent(there, draw_offset, s, pan);
            &&& draw_offset <= p ==> draw_offset <= back <= p
            &&& p <= draw_offset ==> p <= back <= draw_offset
            &&& -(s + ONE) < (back - p) * ONE < s + ONE
        }),
{
    let one: int = ONE as int;
    let d = p - draw_offset;
    let q = quotient(d * one, s);
    let there = CanvasModel::axis_to_canvas(p, draw_offset, s, pan);
    assert(there == q - pan);
    assert(sat_add(there, pan) == q);
    let m = sat_mul(q, s);
    if d >= 0 {
        let n = d * one;
        lemma_floor_bounds(n, s);
        let a = q * s;
        assert(a == s * q) by (nonlinear_arith)
            requires
                a == q * s,
        ;
        assert(0 <= a / one <= d);
        assert(m == a / one);
    } else {
        let n = (-d) * one;
        lemma_floor_bounds(n, s);
        let a = (-q) * s;
        assert(a == s * (n / s) && q * s == -a) by (nonlinear_arith)
            requires
                a == (-q) * s,
                q == -(n / s),
        ;
        assert(0 <= a / one <= -d);
        assert(m == -(a / one));
    }
}

/// A point that is mapped to the canvas and back returns to where it was, up
/// to rounding.
///
/// Where the scale factor is positive and no intermediate result of the way
/// to the canvas is clamped, each coordinate comes back between the draw
/// offset and its original value, and closer to the original than the scale
/// factor plus one, counted in grid steps. For a scale factor below four
/// million that is less than a thousandth.
pub proof fn lemma_round_trip(
    c: CanvasModel,
    parent_width: int,
    parent_height: int,
    x: int,
    y: int,
    offset_x: int,
    offset_y: int,
)
    requires
        c.wf(),
        representable(x),
        representable(y),
        representable(offset_x),
        representable(offset_y),
        c.min_scale_factor(parent_width, parent_height) > 0,
        CanvasModel::axis_in_range(
            x,
            offset_x,
            c.min_scale_factor(parent_width, parent_height),
            c.pan().0,
        ),
        CanvasModel::axis_in_range(
            y,
            offset_y,
            c.min_scale_factor(parent_width, parent_height),
            c.pan().1,
        ),
    ensures
        ({
            let s = c.min_scale_factor(parent_width, parent_height);
            let there = c.to_canvas(parent_width, parent_height, x, y, offset_x, offset_y);
            let back = c.to_parent(parent_width, parent_height, there.0, there.1, offset_x, offset_y);
            &&& -(s + ONE) < (back.0 - x) * ONE < s + ONE
            &&& -(s + ONE) < (back.1 - y) * ONE < s + ONE
            &&& offset_x <= x ==> offset_x <= back.0 <= x
            &&& x <= offset_x ==> x <= back.0 <= offset_x
            &&& offset_y <= y ==> offset_y <= back.1 <= y
            &&& y <= offset_y ==> y <= back.1 <= offset_y
        }),
{
    let s = c.min_scale_factor(parent_width, parent_height);
    let pan = c.pan();
    lemma_axis_round_trip(x, offset_x, s, pan.0);
    lemma_axis_round_trip(y, offset_y, s, pan.1);
}

// The camera.

/// Whether `gap` times the magnitude of `zoom` is less than `ONE` plus that
/// magnitude: the most that a position can lose on its way through camera
/// units and back.
pub open spec fn within_rounding(gap: int, zoom: int) -> bool {
    let z = if zoom >= 0 {
        zoom
    } else {
        -zoom
    };
    -(ONE + z) < gap * z < ONE + z
}

/// A magnitude taken to camera units and back: it does not grow, and it
/// shrinks by less than `(ONE + z) / z` grid steps.
proof fn lemma_magnitude_there_and_back(x: int, z: int)
    requires
        0 <= x,
        0 < z,
    ensures
        ({
            let there = (x * z) / (ONE as int);
            let back = (there * ONE) / z;
            &&& 0 <= x * z
            &&& 0 <= there
            &&& 0 <= back <= x
            &&& 0 <= (x - back) * z < ONE + z
        }),
{
    let one: int = ONE as int;
    assert(0 <= x * z) by (nonlinear_arith)
        requires
            0 <= x,
            0 < z,
    ;
    let there = (x * z) / one;
    lemma_floor_bounds(x * z, one);
    let back = (there * one) / z;
    lemma_floor_bounds(there * one, z);
    assert(back <= x && 0 <= (x - back) * z < one + z) by (nonlinear_arith)
        requires
            0 < z,
            one * there <= x * z < one * there + one,
            z * back <= there * one < z * back + z,
    ;
}

/// One axis of a position that the camera was moved to, read back as a pan.
proof fn lemma_axis_pan_recovered(x: int, z: int)
    requires
        representable(x),
        representable(z),
        z != 0,
        representable(quotient(x * z, ONE as int)),
    ensures
        ({
            let pan = sat_div(sat_mul(x, z), z);
            &&& 0 <= x ==> 0 <= pan <= x
            &&& x <= 0 ==> x <= pan <= 0
            &&& within_rounding(x - pan, z)
        }),
{
    let one: int = ONE as int;
    let ax = if x >= 0 {
        x
    } else {
        -x
    };
    let az = if z > 0 {
        z
    } else {
        -z
    };
    lemma_magnitude_there_and_back(ax, az);
    let there = (ax * az) / one;
    let back = (there * one) / az;
    assert((x >= 0) == (z > 0) ==> x * z == ax * az) by (nonlinear_arith)
        requires
            ax == (if x >= 0 {
                x
            } else {
                -x
            }),
            az == (if z > 0 {
                z
            } else {
                -z
            }),
            z != 0,
    ;
    assert((x >= 0) != (z > 0) ==> x * z == -(ax * az)) by (nonlinear_arith)
        requires
            ax == (if x >= 0 {
                x
            } else {
                -x
            }),
            az == (if z > 0 {
                z
            } else {
                -z
            }),
            z != 0,
    ;
    let m = sat_mul(x, z);
    assert((x >= 0) == (z > 0) ==> m == there);
    assert((x >= 0) != (z > 0) ==> m == -there);
    lemma_zero_divided(z);
    let pan = sat_div(m, z);
    assert(pan == if x >= 0 {
        back
    } else {
        -back
    });
    assert((x - pan) * az == (ax - back) * az || (x - pan) * az == -((ax - back) * az))
        by (nonlinear_arith)
        requires
            x - pan == ax - back || x - pan == -(ax - back),
    ;
}

/// Moving the camera to a position makes that position its pan, up to
/// rounding: where the zoom is not zero and the position in camera units is
/// not clamped, each coordinate of the pan lies between zero and the
/// position's, and closer to it than `(ONE + |zoom|) / |zoom|` grid steps.
pub proof fn lemma_move_to_sets_pan(c: CanvasModel, x: int, y: int)
    requires
        c.wf(),
        representable(x),
        representable(y),
        c.zoom.0 != 0,
        c.zoom.1 != 0,
        representable(quotient(x * c.zoom.0, ONE as int)),
        representable(quotient(y * c.zoom.1, ONE as int)),
    ensures
        ({
            let pan = c.moved_to(x, y).pan();
            &&& 0 <= x ==> 0 <= pan.0 <= x
            &&& x <= 0 ==> x <= pan.0 <= 0
            &&& 0 <= y ==> 0 <= pan.1 <= y
            &&& y <= 0 ==> y <= pan.1 <= 0
            &&& within_rounding(x - pan.0, c.zoom.0)
            &&& within_rounding(y - pan.1, c.zoom.1)
        }),
{
    lemma_axis_pan_recovered(x, c.zoom.0);
    lemma_axis_pan_recovered(y, c.zoom.1);
}

/// Moving the camera to a position twice leaves it where the first move put
/// it.
pub proof fn lemma_move_to_is_idempotent(c: CanvasModel, x: int, y: int)
    ensures
        c.moved_to(x, y).moved_to(x, y) == c.moved_to(x, y),
{
}

/// Two zoom steps in a row add up: they leave the zoom that one step by
/// their sum leaves, provided that neither the sum of the two steps nor
/// either zoom component after the first step is clamped.
pub proof fn lemma_zoom_is_additive(c: CanvasModel, first: int, second: int)
    requires
        representable(first + second),
        representable(c.zoom.0 + first),
        representable(c.zoom.1 + first),
    ensures
        c.zoomed(first).zoomed(second) == c.zoomed(sat_add(first, second)),
{
}

/// Every move of the camera leaves a well-formed canvas well-formed.
pub proof fn lemma_camera_moves_keep_wf(c: CanvasModel, a: int, b: int)
    requires
        c.wf(),
        representable(a),
    ensures
        c.zoomed(a).wf(),
        c.with_zoom(a).wf(),
        c.rotated(a).wf(),
        c.with_rotation(a).wf(),
        c.moved_by(a, b).wf(),
        c.moved_to(a, b).wf(),
{
}

} // verus!
