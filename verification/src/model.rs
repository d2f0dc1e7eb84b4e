//! The mathematical model of a canvas: its logical size and its camera, as
//! raw fixed-point counts, with the fit and mapping formulas over them.

use crate::fixed::{
    min_of, quotient, representable, sat_add, sat_div, sat_mul, sat_neg, sat_sub, ONE, TWO,
};
use vstd::prelude::*;

verus! {

/// What a canvas is, in raw counts of 2^-32.
///
/// `offset` is the camera's pan in camera units, `zoom` its per-axis scale and
/// `rotation` its angle in degrees.
pub struct CanvasModel {
    pub width: int,
    pub height: int,
    pub offset: (int, int),
    pub zoom: (int, int),
    pub rotation: int,
}

impl CanvasModel {
    /// Both dimensions are positive and every component is a raw count.
    pub open spec fn wf(self) -> bool {
        &&& 0 < self.width <= i64::MAX
        &&& 0 < self.height <= i64::MAX
        &&& representable(self.offset.0)
        &&& representable(self.offset.1)
        &&& representable(self.zoom.0)
        &&& representable(self.zoom.1)
        &&& representable(self.rotation)
    }

    /// Zoom of the projection that maps the logical rectangle, with its origin
    /// at the top left and y growing downward, onto normalized device
    /// coordinates, which span two units per axis with y growing upward.
    pub open spec fn projection_zoom(width: int, height: int) -> (int, int) {
        (sat_div(TWO as int, width), sat_neg(sat_div(TWO as int, height)))
    }

    /// The canvas as it is right after construction: no pan, no rotation, and
    /// the projection's zoom with its y component negated.
    pub open spec fn initial(width: int, height: int) -> CanvasModel {
        let projection = Self::projection_zoom(width, height);
        CanvasModel {
            width,
            height,
            offset: (0, 0),
            zoom: (projection.0, sat_neg(projection.1)),
            rotation: 0,
        }
    }

    /// Per-axis ratio of a target size to the logical size.
    pub open spec fn scale_factor(self, target_width: int, target_height: int) -> (int, int) {
        (sat_div(target_width, self.width), sat_div(target_height, self.height))
    }

    /// The smaller of the two axis ratios: the factor by which the canvas is
    /// displayed inside the target.
    pub open spec fn min_scale_factor(self, target_width: int, target_height: int) -> int {
        let factors = self.scale_factor(target_width, target_height);
        min_of(factors.0, factors.1)
    }

    /// Displayed size of the canvas inside the target.
    pub open spec fn size(self, target_width: int, target_height: int) -> (int, int) {
        let s = self.min_scale_factor(target_width, target_height);
        (sat_mul(self.width, s), sat_mul(self.height, s))
    }

    /// Whether a displayed size fits in the target and keeps the canvas's
    /// aspect ratio: neither dimension exceeds the target's, and the cross
    /// products with the logical dimensions differ by less than one logical
    /// dimension, as they do for two numbers scaled by one factor and rounded
    /// down to the grid.
    pub open spec fn fits(self, target_width: int, target_height: int, shown: (int, int)) -> bool {
        &&& 0 <= shown.0 <= target_width
        &&& 0 <= shown.1 <= target_height
        &&& -self.height < shown.0 * self.height - shown.1 * self.width < self.width
    }

    /// Whether margins center a displayed size in the target: each is
    /// non-negative, and twice the margin plus the displayed dimension is the
    /// target's dimension, or one grid step less.
    pub open spec fn centers(
        target_width: int,
        target_height: int,
        shown: (int, int),
        margin: (int, int),
    ) -> bool {
        &&& 0 <= 2 * margin.0 <= target_width - shown.0 <= 2 * margin.0 + 1
        &&& 0 <= 2 * margin.1 <= target_height - shown.1 <= 2 * margin.1 + 1
    }

    /// Margins left and above the displayed canvas that center it in the target.
    pub open spec fn padding(self, target_width: int, target_height: int) -> (int, int) {
        let shown = self.size(target_width, target_height);
        (
            sat_div(sat_sub(target_width, shown.0), TWO as int),
            sat_div(sat_sub(target_height, shown.1), TWO as int),
        )
    }

    /// The camera's pan expressed in logical units.
    pub open spec fn pan(self) -> (int, int) {
        (sat_div(self.offset.0, self.zoom.0), sat_div(self.offset.1, self.zoom.1))
    }

    /// One axis of the map from parent to canvas coordinates.
    pub open spec fn axis_to_canvas(p: int, draw_offset: int, s: int, pan: int) -> int {
        sat_sub(sat_div(sat_sub(p, draw_offset), s), pan)
    }

    /// One axis of the map from canvas to parent coordinates.
    pub open spec fn axis_to_parent(c: int, draw_offset: int, s: int, pan: int) -> int {
        sat_add(sat_mul(sat_add(c, pan), s), draw_offset)
    }

    /// Whether one axis of a parent point maps to its canvas coordinate with
    /// no intermediate result clamped: the distance from the draw offset, that
    /// distance divided by the scale factor, and the quotient less the pan all
    /// are raw counts.
    pub open spec fn axis_in_range(p: int, draw_offset: int, s: int, pan: int) -> bool {
        let scaled = quotient((p - draw_offset) * ONE, s);
        &&& representable(p - draw_offset)
        &&& representable(scaled)
        &&& representable(scaled - pan)
    }

    /// The canvas point shown at point `(x, y)` of a parent of the given size,
    /// when the canvas is drawn at `(offset_x, offset_y)` in it.
    pub open spec fn to_canvas(
        self,
        parent_width: int,
        parent_height: int,
        x: int,
        y: int,
        offset_x: int,
        offset_y: int,
    ) -> (int, int) {
        let s = self.min_scale_factor(parent_width, parent_height);
        let pan = self.pan();
        (Self::axis_to_canvas(x, offset_x, s, pan.0), Self::axis_to_canvas(y, offset_y, s, pan.1))
    }

    /// The parent point at which canvas point `(x, y)` is shown.
    pub open spec fn to_parent(
        self,
        parent_width: int,
        parent_height: int,
        x: int,
        y: int,
        offset_x: int,
        offset_y: int,
    ) -> (int, int) {
        let s = self.min_scale_factor(parent_width, parent_height);
        let pan = self.pan();
        (Self::axis_to_parent(x, offset_x, s, pan.0), Self::axis_to_parent(y, offset_y, s, pan.1))
    }

    /// The canvas after `delta` was added to both zoom components.
    pub open spec fn zoomed(self, delta: int) -> CanvasModel {
        CanvasModel { zoom: (sat_add(self.zoom.0, delta), sat_add(self.zoom.1, delta)), ..self }
    }

    /// The canvas with both zoom components set to `zoom`.
    pub open spec fn with_zoom(self, zoom: int) -> CanvasModel {
        CanvasModel { zoom: (zoom, zoom), ..self }
    }

    /// The canvas after `delta` degrees were added to its rotation.
    pub open spec fn rotated(self, delta: int) -> CanvasModel {
        CanvasModel { rotation: sat_add(self.rotation, delta), ..self }
    }

    /// The canvas with its rotation set to `degrees`.
    pub open spec fn with_rotation(self, degrees: int) -> CanvasModel {
        CanvasModel { rotation: degrees, ..self }
    }

    /// The pan that stands for `(x, y)` logical units at the current zoom.
    pub open spec fn pan_in_camera_units(self, x: int, y: int) -> (int, int) {
        (sat_mul(x, self.zoom.0), sat_mul(y, self.zoom.1))
    }

    /// The canvas after its camera was moved by `(dx, dy)` logical units.
    pub open spec fn moved_by(self, dx: int, dy: int) -> CanvasModel {
        let step = self.pan_in_camera_units(dx, dy);
        CanvasModel {
            offset: (sat_add(self.offset.0, step.0), sat_add(self.offset.1, step.1)),
            ..self
        }
    }

    /// The canvas after its camera was moved to `(x, y)` logical units.
    pub open spec fn moved_to(self, x: int, y: int) -> CanvasModel {
        CanvasModel { offset: self.pan_in_camera_units(x, y), ..self }
    }
}

} // verus!
