//! The mathematical model of the geometry: points, rectangles and affine maps
//! over the real numbers. The contracts of the executable types are stated
//! over these, and the laws of the crate are proved about them.

use vstd::prelude::*;
use crate::arith::ratio;
use crate::error::GeometryError;
use crate::scalar::representable;

verus! {

/// The magnitude of a real number.
pub open spec fn abs_real(v: real) -> real {
    if v < 0real {
        -v
    } else {
        v
    }
}

/// The larger of two real numbers.
pub open spec fn max_real(a: real, b: real) -> real {
    if a < b {
        b
    } else {
        a
    }
}

/// The distance between one and the next larger double-precision number,
/// `2^-52`: determinants of smaller magnitude count as zero.
pub open spec fn machine_epsilon() -> real {
    ratio(1, 0x10_0000_0000_0000)
}

/// A pair of real coordinates: a point or a vector of either coordinate
/// system.
pub struct Vec2 {
    pub x: real,
    pub y: real,
}

impl Vec2 {
    pub open spec fn zero() -> Vec2 {
        Vec2 { x: 0real, y: 0real }
    }

    pub open spec fn plus(self, rhs: Vec2) -> Vec2 {
        Vec2 { x: self.x + rhs.x, y: self.y + rhs.y }
    }

    pub open spec fn minus(self, rhs: Vec2) -> Vec2 {
        Vec2 { x: self.x - rhs.x, y: self.y - rhs.y }
    }

    pub open spec fn times(self, k: real) -> Vec2 {
        Vec2 { x: self.x * k, y: self.y * k }
    }

    pub open spec fn over(self, k: real) -> Vec2 {
        Vec2 { x: self.x / k, y: self.y / k }
    }

    /// Component-wise quotient.
    pub open spec fn over_each(self, d: Vec2) -> Vec2 {
        Vec2 { x: self.x / d.x, y: self.y / d.y }
    }

    /// Whether both coordinates are representable.
    pub open spec fn fits(self) -> bool {
        representable(self.x) && representable(self.y)
    }
}

/// An axis-parallel rectangle, given by its top-left corner and its width and
/// height.
pub struct RectModel {
    pub top_left: Vec2,
    pub dimensions: Vec2,
}

impl RectModel {
    /// Neither width nor height is negative.
    pub open spec fn valid(self) -> bool {
        self.dimensions.x >= 0real && self.dimensions.y >= 0real
    }

    pub open spec fn left(self) -> real {
        self.top_left.x
    }

    pub open spec fn top(self) -> real {
        self.top_left.y
    }

    pub open spec fn width(self) -> real {
        self.dimensions.x
    }

    pub open spec fn height(self) -> real {
        self.dimensions.y
    }

    pub open spec fn right(self) -> real {
        self.top_left.x + self.dimensions.x
    }

    pub open spec fn bottom(self) -> real {
        self.top_left.y + self.dimensions.y
    }

    pub open spec fn bottom_right(self) -> Vec2 {
        self.top_left.plus(self.dimensions)
    }

    /// Width over height.
    pub open spec fn aspect_ratio(self) -> real {
        self.dimensions.x / self.dimensions.y
    }

    /// The content point that is shown at the offset `pointer` from the
    /// corner of an element of extent `size` which shows this window.
    pub open spec fn point_under(self, size: Vec2, pointer: Vec2) -> Vec2 {
        Vec2 {
            x: self.top_left.x + self.dimensions.x * (pointer.x / size.x),
            y: self.top_left.y + self.dimensions.y * (pointer.y / size.y),
        }
    }

    /// The window grown by the fraction `zoom` of its extent, and moved so
    /// that the content point under `pointer` stays where it is. `size` is
    /// the extent of the element that shows the window, and `pointer` the
    /// offset of the pointer from the element's corner.
    pub open spec fn stepped(self, size: Vec2, pointer: Vec2, zoom: real) -> RectModel {
        let growth = self.dimensions.times(zoom);
        RectModel {
            top_left: Vec2 {
                x: self.top_left.x - growth.x / size.x * pointer.x,
                y: self.top_left.y - growth.y / size.y * pointer.y,
            },
            dimensions: self.dimensions.plus(growth),
        }
    }

    /// Whether every value met while computing [`RectModel::stepped`] is
    /// representable.
    pub open spec fn step_fits(self, size: Vec2, pointer: Vec2, zoom: real) -> bool {
        let growth = self.dimensions.times(zoom);
        &&& growth.fits()
        &&& representable(growth.x / size.x)
        &&& representable(growth.x / size.x * pointer.x)
        &&& representable(growth.y / size.y)
        &&& representable(growth.y / size.y * pointer.y)
        &&& self.stepped(size, pointer, zoom).top_left.fits()
        &&& self.stepped(size, pointer, zoom).dimensions.fits()
    }

    /// What [`RectModel::stepped`] comes to when it is computed: a division
    /// by zero where the element has no width or no height, an overflow, a
    /// rectangle of negative extent where the window shrinks by more than
    /// itself, or the new window.
    pub open spec fn step_outcome(self, size: Vec2, pointer: Vec2, zoom: real) -> Result<
        RectModel,
        GeometryError,
    > {
        if size.x == 0real || size.y == 0real {
            Err(GeometryError::DivisionByZero)
        } else if !self.step_fits(size, pointer, zoom) {
            Err(GeometryError::Overflow)
        } else if !self.stepped(size, pointer, zoom).valid() {
            Err(GeometryError::InvalidDimensions)
        } else {
            Ok(self.stepped(size, pointer, zoom))
        }
    }

    /// The vector from the top-left corner to `point`.
    pub open spec fn offset(self, point: Vec2) -> Vec2 {
        point.minus(self.top_left)
    }

    /// The offset of `point` with each coordinate divided by the rectangle's
    /// extent in that direction.
    pub open spec fn relative_offset(self, point: Vec2) -> Vec2 {
        self.offset(point).over_each(self.dimensions)
    }
}

/// A view box: the visible window into the content, and the bounding box of
/// the content by which its scale is measured.
pub struct ViewBoxModel {
    pub view_box: RectModel,
    pub content_box: RectModel,
}

impl ViewBoxModel {
    /// The zoom factor: how many times larger the content is than the
    /// window. It is the larger of the two ratios of content extent to window
    /// extent. Where the content has no width, it is the ratio of the
    /// heights; where the content has no height, it is the ratio of the
    /// widths; where the content has neither, it is one.
    pub open spec fn scale(self) -> real {
        let content = self.content_box;
        let window = self.view_box;
        if content.width() == 0real && content.height() == 0real {
            1real
        } else if content.width() == 0real {
            content.height() / window.height()
        } else if content.height() == 0real {
            content.width() / window.width()
        } else {
            max_real(content.width() / window.width(), content.height() / window.height())
        }
    }

    /// Whether computing the scale divides by a window extent that is zero.
    pub open spec fn scale_divides_by_zero(self) -> bool {
        let content = self.content_box;
        let window = self.view_box;
        if content.width() == 0real && content.height() == 0real {
            false
        } else if content.width() == 0real {
            window.height() == 0real
        } else if content.height() == 0real {
            window.width() == 0real
        } else {
            window.width() == 0real || window.height() == 0real
        }
    }

    /// Whether the quotients of which the scale is made are representable.
    pub open spec fn scale_fits(self) -> bool {
        let content = self.content_box;
        let window = self.view_box;
        if content.width() == 0real && content.height() == 0real {
            true
        } else if content.width() == 0real {
            representable(content.height() / window.height())
        } else if content.height() == 0real {
            representable(content.width() / window.width())
        } else {
            &&& representable(content.width() / window.width())
            &&& representable(content.height() / window.height())
        }
    }

    /// The view box with its window resized so that the content appears at
    /// the scale `s`: the window's extent is the content's divided by `s`.
    pub open spec fn with_scale(self, s: real) -> ViewBoxModel {
        ViewBoxModel {
            view_box: RectModel {
                top_left: self.view_box.top_left,
                dimensions: self.content_box.dimensions.over(s),
            },
            content_box: self.content_box,
        }
    }

    /// The view box with its window moved to `p`.
    pub open spec fn with_top_left(self, p: Vec2) -> ViewBoxModel {
        ViewBoxModel {
            view_box: RectModel { top_left: p, dimensions: self.view_box.dimensions },
            content_box: self.content_box,
        }
    }

    /// The view box with another content box.
    pub open spec fn with_content_box(self, content: RectModel) -> ViewBoxModel {
        ViewBoxModel { view_box: self.view_box, content_box: content }
    }

    /// What [`ViewBoxModel::scale`] comes to when it is computed.
    pub open spec fn scale_outcome(self) -> Result<real, GeometryError> {
        if self.scale_divides_by_zero() {
            Err(GeometryError::DivisionByZero)
        } else if !self.scale_fits() {
            Err(GeometryError::Overflow)
        } else {
            Ok(self.scale())
        }
    }

    /// Whether the window has the proportions of the content at the current
    /// scale: its extent times the scale is the content's extent. This holds
    /// of the default view box, and after every change of scale of a view box
    /// whose content has a width or a height.
    pub open spec fn proportional(self) -> bool {
        self.view_box.dimensions.times(self.scale()) == self.content_box.dimensions
    }

    /// The extent of the window with the scale taken out of it.
    pub open spec fn unscaled_dimensions(self) -> Vec2 {
        self.view_box.dimensions.times(self.scale())
    }

    /// What [`ViewBoxModel::unscaled_dimensions`] comes to when it is
    /// computed: the failure of the scale, an overflow of the products, or
    /// the dimensions.
    pub open spec fn unscaled_dimensions_outcome(self) -> Result<Vec2, GeometryError> {
        match self.scale_outcome() {
            Err(e) => Err(e),
            Ok(scale) => if self.unscaled_dimensions().fits() {
                Ok(self.unscaled_dimensions())
            } else {
                Err(GeometryError::Overflow)
            },
        }
    }

    /// Where the top-left corner of the window lies in the view port, given
    /// the map from content to view port.
    pub open spec fn top_left_in(self, to_view_port: Affine) -> Vec2 {
        to_view_port.apply(self.view_box.top_left)
    }

    /// The rectangle that the window takes up in the view port, given the
    /// map from content to view port: it reaches from the image of the
    /// top-left corner to the image of the bottom-right corner.
    pub open spec fn bounding_rect(self, to_view_port: Affine) -> RectModel {
        let top_left = to_view_port.apply(self.view_box.top_left);
        let bottom_right = to_view_port.apply(self.view_box.bottom_right());
        RectModel { top_left, dimensions: bottom_right.minus(top_left) }
    }

    /// Whether every value met while computing
    /// [`ViewBoxModel::bounding_rect`] is representable.
    pub open spec fn bounding_rect_fits(self, to_view_port: Affine) -> bool {
        &&& to_view_port.apply_fits(self.view_box.top_left)
        &&& self.view_box.bottom_right().fits()
        &&& to_view_port.apply_fits(self.view_box.bottom_right())
        &&& self.bounding_rect(to_view_port).dimensions.fits()
    }

    /// What [`ViewBoxModel::bounding_rect`] comes to when it is computed: an
    /// overflow, a rectangle of negative extent where the map mirrors the
    /// window, or the rectangle.
    pub open spec fn bounding_rect_outcome(self, to_view_port: Affine) -> Result<
        RectModel,
        GeometryError,
    > {
        if !self.bounding_rect_fits(to_view_port) {
            Err(GeometryError::Overflow)
        } else if !self.bounding_rect(to_view_port).valid() {
            Err(GeometryError::InvalidDimensions)
        } else {
            Ok(self.bounding_rect(to_view_port))
        }
    }

    /// The view box after a zoom to `new_scale` that keeps the content point
    /// under `fix_point` in place. `to_content` maps view-port positions to
    /// content points. The offset of the fixed content point from the
    /// window's corner shrinks by the factor `old scale / new scale`, and the
    /// window's extent becomes the content's divided by the new scale.
    pub open spec fn zoomed(self, to_content: Affine, fix_point: Vec2, new_scale: real)
        -> ViewBoxModel {
        let fixed = to_content.apply(fix_point);
        let offset = fixed.minus(self.view_box.top_left);
        let new_offset = offset.times(self.scale() / new_scale);
        self.with_top_left(fixed.minus(new_offset)).with_scale(new_scale)
    }

    /// Whether every value met while computing [`ViewBoxModel::zoomed`] from
    /// the scale and the inverse map is representable.
    pub open spec fn zoom_fits(self, to_content: Affine, fix_point: Vec2, new_scale: real)
        -> bool {
        let fixed = to_content.apply(fix_point);
        let offset = fixed.minus(self.view_box.top_left);
        let factor = self.scale() / new_scale;
        let new_offset = offset.times(factor);
        &&& to_content.apply_fits(fix_point)
        &&& offset.fits()
        &&& representable(factor)
        &&& new_offset.fits()
        &&& fixed.minus(new_offset).fits()
        &&& self.content_box.dimensions.over(new_scale).fits()
    }

    /// What a zoom to `new_scale` around `fix_point` comes to, given the map
    /// `to_view_port` from content to view port as the element reports it:
    /// the new view box, or the first failure met. A new scale of zero and a
    /// scale that divides by zero are divisions by zero; a singular map is a
    /// non-invertible transform; anything that cannot be computed exactly is
    /// an overflow.
    pub open spec fn zoom_outcome(self, to_view_port: Affine, fix_point: Vec2, new_scale: real)
        -> Result<ViewBoxModel, GeometryError> {
        if new_scale == 0real {
            Err(GeometryError::DivisionByZero)
        } else if self.scale_outcome() is Err {
            Err(self.scale_outcome()->Err_0)
        } else if !to_view_port.det_fits() {
            Err(GeometryError::Overflow)
        } else if to_view_port.singular() {
            Err(GeometryError::NonInvertibleTransform)
        } else if !to_view_port.inverse_fits() || !self.zoom_fits(
            to_view_port.inverse(),
            fix_point,
            new_scale,
        ) {
            Err(GeometryError::Overflow)
        } else {
            Ok(self.zoomed(to_view_port.inverse(), fix_point, new_scale))
        }
    }
}

/// The state of an element that is placed by a translation and a scale
/// factor.
pub struct ViewStateModel {
    pub top_left: Vec2,
    pub scale: real,
}

impl ViewStateModel {
    /// The rectangle that an element takes up in the view port in this
    /// state, where `layout` is the rectangle it takes up when it is neither
    /// moved nor scaled: the corner is moved by the translation, and the
    /// extent is multiplied by the scale.
    pub open spec fn rendered(self, layout: RectModel) -> RectModel {
        RectModel {
            top_left: layout.top_left.plus(self.top_left),
            dimensions: layout.dimensions.times(self.scale),
        }
    }

    /// The extent of the element's rectangle with the scale taken out of it.
    pub open spec fn unscaled_dimensions(self, bounds: RectModel) -> Vec2 {
        bounds.dimensions.over(self.scale)
    }

    /// What [`ViewStateModel::unscaled_dimensions`] comes to when it is
    /// computed.
    pub open spec fn unscaled_dimensions_outcome(self, bounds: RectModel) -> Result<
        Vec2,
        GeometryError,
    > {
        if self.scale == 0real {
            Err(GeometryError::DivisionByZero)
        } else if !self.unscaled_dimensions(bounds).fits() {
            Err(GeometryError::Overflow)
        } else {
            Ok(self.unscaled_dimensions(bounds))
        }
    }

    /// The translation that keeps `fix_point` in place when the scale
    /// changes to `new_scale`: the offset of the fix point from the corner of
    /// the element's rectangle, times `1 - new scale / old scale`.
    pub open spec fn stabilizing_translation(self, bounds: RectModel, fix_point: Vec2, new_scale: real)
        -> Vec2 {
        bounds.offset(fix_point).times(1real - new_scale / self.scale)
    }

    /// The state after a zoom to `new_scale` that keeps `fix_point` in place,
    /// where `bounds` is the element's rectangle before the zoom.
    pub open spec fn zoomed(self, bounds: RectModel, fix_point: Vec2, new_scale: real)
        -> ViewStateModel {
        ViewStateModel {
            top_left: self.top_left.plus(self.stabilizing_translation(bounds, fix_point, new_scale)),
            scale: new_scale,
        }
    }

    /// Whether every value met while computing [`ViewStateModel::zoomed`] is
    /// representable.
    pub open spec fn zoom_fits(self, bounds: RectModel, fix_point: Vec2, new_scale: real) -> bool {
        &&& bounds.offset(fix_point).fits()
        &&& representable(new_scale / self.scale)
        &&& representable(1real - new_scale / self.scale)
        &&& self.stabilizing_translation(bounds, fix_point, new_scale).fits()
        &&& self.zoomed(bounds, fix_point, new_scale).top_left.fits()
    }

    /// What a zoom to `new_scale` around `fix_point` comes to: the new state,
    /// a division by zero where the old scale is zero, or an overflow.
    pub open spec fn zoom_outcome(self, bounds: RectModel, fix_point: Vec2, new_scale: real)
        -> Result<ViewStateModel, GeometryError> {
        if self.scale == 0real {
            Err(GeometryError::DivisionByZero)
        } else if !self.zoom_fits(bounds, fix_point, new_scale) {
            Err(GeometryError::Overflow)
        } else {
            Ok(self.zoomed(bounds, fix_point, new_scale))
        }
    }
}

/// The affine map `x' = a x + c y + e`, `y' = b x + d y + f`.
pub struct Affine {
    pub a: real,
    pub b: real,
    pub c: real,
    pub d: real,
    pub e: real,
    pub f: real,
}

impl Affine {
    /// The determinant of the linear part.
    pub open spec fn det(self) -> real {
        self.a * self.d - self.c * self.b
    }

    /// Whether the determinant is too small in magnitude for the map to count
    /// as invertible.
    pub open spec fn singular(self) -> bool {
        abs_real(self.det()) < machine_epsilon()
    }

    /// The image of `p`.
    pub open spec fn apply(self, p: Vec2) -> Vec2 {
        Vec2 {
            x: self.a * p.x + self.c * p.y + self.e,
            y: self.b * p.x + self.d * p.y + self.f,
        }
    }

    /// The inverse map, where the determinant is not zero.
    pub open spec fn inverse(self) -> Affine {
        let det = self.det();
        Affine {
            a: self.d / det,
            b: (-self.b) / det,
            c: (-self.c) / det,
            d: self.a / det,
            e: (-(self.d * self.e - self.c * self.f)) / det,
            f: (self.b * self.e - self.a * self.f) / det,
        }
    }

    /// Whether the map neither turns nor shears, and takes the corners of
    /// the rectangle `from` to the corners of the rectangle `onto`. This is
    /// how a renderer shows a window of the content in a part of the view
    /// port.
    pub open spec fn carries(self, from: RectModel, onto: RectModel) -> bool {
        &&& self.b == 0real
        &&& self.c == 0real
        &&& self.apply(from.top_left) == onto.top_left
        &&& self.apply(from.bottom_right()) == onto.bottom_right()
    }

    /// Whether every value met while computing [`Affine::apply`] is
    /// representable.
    pub open spec fn apply_fits(self, p: Vec2) -> bool {
        &&& representable(self.a * p.x)
        &&& representable(self.c * p.y)
        &&& representable(self.a * p.x + self.c * p.y)
        &&& representable(self.a * p.x + self.c * p.y + self.e)
        &&& representable(self.b * p.x)
        &&& representable(self.d * p.y)
        &&& representable(self.b * p.x + self.d * p.y)
        &&& representable(self.b * p.x + self.d * p.y + self.f)
    }

    /// Whether the determinant and the products it is made of are
    /// representable.
    pub open spec fn det_fits(self) -> bool {
        &&& representable(self.a * self.d)
        &&& representable(self.c * self.b)
        &&& representable(self.det())
    }

    /// Whether every value met while computing [`Affine::inverse`] from the
    /// determinant is representable.
    pub open spec fn inverse_fits(self) -> bool {
        let det = self.det();
        &&& representable(self.d / det)
        &&& representable((-self.b) / det)
        &&& representable((-self.c) / det)
        &&& representable(self.a / det)
        &&& representable(self.d * self.e)
        &&& representable(self.c * self.f)
        &&& representable(self.d * self.e - self.c * self.f)
        &&& representable((-(self.d * self.e - self.c * self.f)) / det)
        &&& representable(self.b * self.e)
        &&& representable(self.a * self.f)
        &&& representable(self.b * self.e - self.a * self.f)
        &&& representable((self.b * self.e - self.a * self.f) / det)
    }
}

} // verus!
