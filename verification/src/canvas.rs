//! The canvas itself: a fixed logical size, a camera over it, the fit of the
//! canvas into a viewport and the mapping between viewport and canvas points.

use crate::fixed::{Fixed, TWO};
use crate::laws::{lemma_padding_centers, lemma_size_fits};
use crate::model::CanvasModel;
use vstd::prelude::*;

verus! {

/// A pair of fixed-point numbers: a point, a size or a per-axis factor.
#[derive(Clone, Copy, PartialEq, Eq, Structural, Debug)]
pub struct Vec2 {
    pub x: Fixed,
    pub y: Fixed,
}

impl View for Vec2 {
    type V = (int, int);

    open spec fn view(&self) -> (int, int) {
        (self.x@, self.y@)
    }
}

impl Vec2 {
    /// The pair `(x, y)`.
    pub fn new(x: Fixed, y: Fixed) -> (v: Vec2)
        ensures
            v@ == (x@, y@),
    {
        Vec2 { x, y }
    }
}

/// The state of a canvas's camera: pan in camera units, per-axis zoom and
/// rotation in degrees.
#[derive(Clone, Copy, PartialEq, Eq, Structural, Debug)]
pub struct Camera {
    pub offset: Vec2,
    pub zoom: Vec2,
    pub rotation: Fixed,
}

/// A drawing surface of fixed logical size with a camera over it.
pub struct Canvas2D {
    camera: Camera,
    width: Fixed,
    height: Fixed,
}

impl View for Canvas2D {
    type V = CanvasModel;

    closed spec fn view(&self) -> CanvasModel {
        CanvasModel {
            width: self.width@,
            height: self.height@,
            offset: self.camera.offset@,
            zoom: self.camera.zoom@,
            rotation: self.camera.rotation@,
        }
    }
}

impl Canvas2D {
    #[verifier::type_invariant]
    spec fn positive_size(&self) -> bool {
        self.width@ > 0 && self.height@ > 0
    }

    /// A canvas of the given logical size, with no pan and no rotation; its
    /// zoom is that of the projection of the logical rectangle, with the y
    /// component negated.
    pub fn new(width: Fixed, height: Fixed) -> (canvas: Canvas2D)
        requires
            width@ > 0,
            height@ > 0,
        ensures
            canvas@ == CanvasModel::initial(width@, height@),
            canvas@.wf(),
    {
        let two = Fixed { raw: TWO };
        let zero = Fixed { raw: 0 };
        let projection = Vec2::new(two.saturating_div(width), two.saturating_div(height).saturating_neg());
        let mut camera = Camera { offset: Vec2::new(zero, zero), zoom: projection, rotation: zero };
        camera.zoom.y = camera.zoom.y.saturating_neg();
        Canvas2D { camera, width, height }
    }

    /// The logical width.
    pub fn width(&self) -> (w: Fixed)
        ensures
            w@ == self@.width,
            self@.wf(),
    {
        proof {
            use_type_invariant(self);
        }
        self.width
    }

    /// The logical height.
    pub fn height(&self) -> (h: Fixed)
        ensures
            h@ == self@.height,
            self@.wf(),
    {
        proof {
            use_type_invariant(self);
        }
        self.height
    }

    /// The logical width and height.
    pub fn width_height(&self) -> (size: (Fixed, Fixed))
        ensures
            size.0@ == self@.width,
            size.1@ == self@.height,
            self@.wf(),
    {
        proof {
            use_type_invariant(self);
        }
        (self.width, self.height)
    }

    /// The camera's current state.
    pub fn camera(&self) -> (camera: Camera)
        ensures
            camera.offset@ == self@.offset,
            camera.zoom@ == self@.zoom,
            camera.rotation@ == self@.rotation,
            self@.wf(),
    {
        proof {
            use_type_invariant(self);
        }
        self.camera
    }

    /// The margins and the size at which the canvas is displayed inside a
    /// target of the given size: as large as fits with its aspect ratio kept,
    /// and centered.
    pub fn calculate_size_and_padding(&self, target_width: Fixed, target_height: Fixed) -> (fit: (
        Fixed,
        Fixed,
        Vec2,
    ))
        ensures
            (fit.0@, fit.1@) == self@.padding(target_width@, target_height@),
            fit.2@ == self@.size(target_width@, target_height@),
            target_width@ >= 0 && target_height@ >= 0 ==> CanvasModel::centers(
                target_width@,
                target_height@,
                fit.2@,
                (fit.0@, fit.1@),
            ),
    {
        proof {
            use_type_invariant(self);
            if target_width@ >= 0 && target_height@ >= 0 {
                lemma_padding_centers(self@, target_width@, target_height@);
            }
        }
        let new_size = self.calculate_size(target_width, target_height);
        let two = Fixed { raw: TWO };
        let left_padding = target_width.saturating_sub(new_size.x).saturating_div(two);
        let top_padding = target_height.saturating_sub(new_size.y).saturating_div(two);
        (left_padding, top_padding, new_size)
    }

    /// The size at which the canvas is displayed inside a target of the given
    /// size.
    pub fn calculate_size(&self, target_width: Fixed, target_height: Fixed) -> (size: Vec2)
        ensures
            size@ == self@.size(target_width@, target_height@),
            target_width@ >= 0 && target_height@ >= 0 ==> self@.fits(
                target_width@,
                target_height@,
                size@,
            ),
    {
        proof {
            use_type_invariant(self);
            if target_width@ >= 0 && target_height@ >= 0 {
                lemma_size_fits(self@, target_width@, target_height@);
            }
        }
        let min_scale_factor = self.calculate_min_scale_factor(target_width, target_height);
        let new_width = self.width.saturating_mul(min_scale_factor);
        let new_height = self.height.saturating_mul(min_scale_factor);
        Vec2::new(new_width, new_height)
    }

    /// The factor by which the canvas is displayed inside a target of the
    /// given size: the smaller of the two axis ratios.
    pub fn calculate_min_scale_factor(&self, target_width: Fixed, target_height: Fixed) -> (s: Fixed)
        ensures
            s@ == self@.min_scale_factor(target_width@, target_height@),
    {
        let (scale_factor_w, scale_factor_h) = self.calculate_scale_factor(
            target_width,
            target_height,
        );
        scale_factor_w.min(scale_factor_h)
    }

    /// The ratios of the target's width and height to the canvas's.
    pub fn calculate_scale_factor(&self, target_width: Fixed, target_height: Fixed) -> (factors: (
        Fixed,
        Fixed,
    ))
        ensures
            (factors.0@, factors.1@) == self@.scale_factor(target_width@, target_height@),
    {
        (target_width.saturating_div(self.width), target_height.saturating_div(self.height))
    }

    /// The canvas point shown at `(screen_x, screen_y)` of a parent of the
    /// given size, in which the canvas is drawn at `(offset_x, offset_y)`.
    ///
    /// The point lies outside the canvas rectangle when the parent point lies
    /// outside the displayed canvas.
    pub fn parent_coordinates_to_canvas_coordinates(
        &self,
        parent_width: Fixed,
        parent_height: Fixed,
        screen_x: Fixed,
        screen_y: Fixed,
        offset_x: Fixed,
        offset_y: Fixed,
    ) -> (point: (Fixed, Fixed))
        ensures
            (point.0@, point.1@) == self@.to_canvas(
                parent_width@,
                parent_height@,
                screen_x@,
                screen_y@,
                offset_x@,
                offset_y@,
            ),
    {
        let scale_factor = self.calculate_min_scale_factor(parent_width, parent_height);
        let camera_offset = self.pan();
        let x = screen_x.saturating_sub(offset_x).saturating_div(scale_factor).saturating_sub(
            camera_offset.x,
        );
        let y = screen_y.saturating_sub(offset_y).saturating_div(scale_factor).saturating_sub(
            camera_offset.y,
        );
        (x, y)
    }

    /// The parent point at which canvas point `(canvas_x, canvas_y)` is shown.
    pub fn canvas_coordinates_to_parent_coordinates(
        &self,
        parent_width: Fixed,
        parent_height: Fixed,
        canvas_x: Fixed,
        canvas_y: Fixed,
        offset_x: Fixed,
        offset_y: Fixed,
    ) -> (point: (Fixed, Fixed))
        ensures
            (point.0@, point.1@) == self@.to_parent(
                parent_width@,
                parent_height@,
                canvas_x@,
                canvas_y@,
                offset_x@,
                offset_y@,
            ),
    {
        let scale_factor = self.calculate_min_scale_factor(parent_width, parent_height);
        let camera_offset = self.pan();
        let x = canvas_x.saturating_add(camera_offset.x).saturating_mul(scale_factor).saturating_add(
            offset_x,
        );
        let y = canvas_y.saturating_add(camera_offset.y).saturating_mul(scale_factor).saturating_add(
            offset_y,
        );
        (x, y)
    }

    /// The camera's pan in logical units.
    fn pan(&self) -> (pan: Vec2)
        ensures
            pan@ == self@.pan(),
    {
        Vec2::new(
            self.camera.offset.x.saturating_div(self.camera.zoom.x),
            self.camera.offset.y.saturating_div(self.camera.zoom.y),
        )
    }

    /// Adds `zoom` to both components of the camera's zoom.
    pub fn zoom(&mut self, zoom: Fixed)
        ensures
            final(self)@ == old(self)@.zoomed(zoom@),
            final(self)@.wf(),
    {
        proof {
            use_type_invariant(&*self);
        }
        self.camera.zoom = Vec2::new(
            self.camera.zoom.x.saturating_add(zoom),
            self.camera.zoom.y.saturating_add(zoom),
        );
    }

    /// Sets both components of the camera's zoom to `zoom`. The sign the y
    /// component was given at construction is not restored.
    pub fn set_zoom(&mut self, zoom: Fixed)
        ensures
            final(self)@ == old(self)@.with_zoom(zoom@),
            final(self)@.wf(),
    {
        proof {
            use_type_invariant(&*self);
        }
        self.camera.zoom = Vec2::new(zoom, zoom);
    }

    /// Turns the camera by `angle` degrees.
    pub fn rotate(&mut self, angle: Fixed)
        ensures
            final(self)@ == old(self)@.rotated(angle@),
            final(self)@.wf(),
    {
        proof {
            use_type_invariant(&*self);
        }
        self.camera.rotation = self.camera.rotation.saturating_add(angle);
    }

    /// Sets the camera's rotation to `angle` degrees.
    pub fn set_rotation(&mut self, angle: Fixed)
        ensures
            final(self)@ == old(self)@.with_rotation(angle@),
            final(self)@.wf(),
    {
        proof {
            use_type_invariant(&*self);
        }
        self.camera.rotation = angle;
    }

    /// Moves the camera by `(x_amount, y_amount)` logical units.
    pub fn move_camera_by(&mut self, x_amount: Fixed, y_amount: Fixed)
        ensures
            final(self)@ == old(self)@.moved_by(x_amount@, y_amount@),
            final(self)@.wf(),
    {
        proof {
            use_type_invariant(&*self);
        }
        let offset = Vec2::new(
            x_amount.saturating_mul(self.camera.zoom.x),
            y_amount.saturating_mul(self.camera.zoom.y),
        );
        self.camera.offset = Vec2::new(
            self.camera.offset.x.saturating_add(offset.x),
            self.camera.offset.y.saturating_add(offset.y),
        );
    }

    /// Moves the camera to `(x_position, y_position)` logical units.
    pub fn move_camera_to(&mut self, x_position: Fixed, y_position: Fixed)
        ensures
            final(self)@ == old(self)@.moved_to(x_position@, y_position@),
            final(self)@.wf(),
    {
        proof {
            use_type_invariant(&*self);
        }
        let offset = Vec2::new(
            x_position.saturating_mul(self.camera.zoom.x),
            y_position.saturating_mul(self.camera.zoom.y),
        );
        self.camera.offset = offset;
    }
}

} // verus!
