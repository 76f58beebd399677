//! The content coordinate system: points, vectors and rectangles of the SVG
//! canvas, and the view box that selects the visible part of it.

use vstd::prelude::*;
use crate::algebra::lemma_quotient_sign;
use crate::decimal::{decimal_text, push_char, push_decimal};
use crate::error::{computed, GeometryError};
use crate::laws::lemma_scale_is_set;
use crate::model::{RectModel, Vec2, ViewBoxModel};
use crate::scalar::{representable, Scalar};

verus! {

/// What can be written as the value of an SVG attribute.
pub trait ToSvgString {
    /// The characters of the attribute value.
    spec fn svg_text(&self) -> Seq<char>;

    fn to_svg_string(&self) -> (text: String)
        ensures
            text@ == self.svg_text(),
    ;
}

/// The value of a `viewBox` attribute for the window `rect`: its left edge,
/// its top edge, its width and its height in decimal notation, with a space
/// between each two.
pub open spec fn view_box_text(rect: RectModel) -> Seq<char> {
    decimal_text(rect.left()) + seq![' '] + decimal_text(rect.top()) + seq![' '] + decimal_text(
        rect.width(),
    ) + seq![' '] + decimal_text(rect.height())
}

/// A point in the content coordinate system.
#[derive(Debug, Clone, Copy, PartialEq, Eq, Structural)]
pub struct SvgPoint {
    pub x: Scalar,
    pub y: Scalar,
}

impl View for SvgPoint {
    type V = Vec2;

    open spec fn view(&self) -> Vec2 {
        Vec2 { x: self.x@, y: self.y@ }
    }
}

impl SvgPoint {
    pub fn new(x: Scalar, y: Scalar) -> (p: SvgPoint)
        ensures
            p@ == (Vec2 { x: x@, y: y@ }),
    {
        SvgPoint { x, y }
    }

    /// The point moved by `rhs`.
    pub fn add(self, rhs: SvgVec) -> (r: Result<SvgPoint, GeometryError>)
        ensures
            computed(r, self@.plus(rhs@), self@.plus(rhs@).fits()),
    {
        let x = self.x.add(rhs.x)?;
        let y = self.y.add(rhs.y)?;
        Ok(SvgPoint { x, y })
    }

    /// The vector that leads from `rhs` to this point.
    pub fn sub(self, rhs: SvgPoint) -> (r: Result<SvgVec, GeometryError>)
        ensures
            computed(r, self@.minus(rhs@), self@.minus(rhs@).fits()),
    {
        let x = self.x.sub(rhs.x)?;
        let y = self.y.sub(rhs.y)?;
        Ok(SvgVec { x, y })
    }

    /// The point moved against `rhs`.
    pub fn sub_vec(self, rhs: SvgVec) -> (r: Result<SvgPoint, GeometryError>)
        ensures
            computed(r, self@.minus(rhs@), self@.minus(rhs@).fits()),
    {
        let x = self.x.sub(rhs.x)?;
        let y = self.y.sub(rhs.y)?;
        Ok(SvgPoint { x, y })
    }

    /// The point with both coordinates multiplied by `rhs`.
    pub fn mul(self, rhs: Scalar) -> (r: Result<SvgPoint, GeometryError>)
        ensures
            computed(r, self@.times(rhs@), self@.times(rhs@).fits()),
    {
        let x = self.x.mul(rhs)?;
        let y = self.y.mul(rhs)?;
        Ok(SvgPoint { x, y })
    }
}

/// An element of the vector space of the content coordinate system.
#[derive(Debug, Clone, Copy, PartialEq, Eq, Structural)]
pub struct SvgVec {
    x: Scalar,
    y: Scalar,
}

impl View for SvgVec {
    type V = Vec2;

    closed spec fn view(&self) -> Vec2 {
        Vec2 { x: self.x@, y: self.y@ }
    }
}

impl SvgVec {
    pub fn new(x: Scalar, y: Scalar) -> (v: SvgVec)
        ensures
            v@ == (Vec2 { x: x@, y: y@ }),
    {
        SvgVec { x, y }
    }

    pub fn x(&self) -> (r: Scalar)
        ensures
            r@ == self@.x,
    {
        self.x
    }

    pub fn y(&self) -> (r: Scalar)
        ensures
            r@ == self@.y,
    {
        self.y
    }

    /// The vector of no length.
    pub fn zero() -> (v: SvgVec)
        ensures
            v@ == Vec2::zero(),
    {
        SvgVec { x: Scalar::zero(), y: Scalar::zero() }
    }

    /// Whether both coordinates are zero.
    pub fn is_zero(&self) -> (b: bool)
        ensures
            b == (self@ == Vec2::zero()),
    {
        self.x.is_zero() && self.y.is_zero()
    }

    pub fn add(self, rhs: SvgVec) -> (r: Result<SvgVec, GeometryError>)
        ensures
            computed(r, self@.plus(rhs@), self@.plus(rhs@).fits()),
    {
        let x = self.x.add(rhs.x)?;
        let y = self.y.add(rhs.y)?;
        Ok(SvgVec { x, y })
    }

    pub fn sub(self, rhs: SvgVec) -> (r: Result<SvgVec, GeometryError>)
        ensures
            computed(r, self@.minus(rhs@), self@.minus(rhs@).fits()),
    {
        let x = self.x.sub(rhs.x)?;
        let y = self.y.sub(rhs.y)?;
        Ok(SvgVec { x, y })
    }

    /// The vector stretched by the factor `rhs`.
    pub fn mul(self, rhs: Scalar) -> (r: Result<SvgVec, GeometryError>)
        ensures
            computed(r, self@.times(rhs@), self@.times(rhs@).fits()),
    {
        let x = self.x.mul(rhs)?;
        let y = self.y.mul(rhs)?;
        Ok(SvgVec { x, y })
    }

    /// The vector shrunk by the factor `rhs`, which must not be zero.
    pub fn div(self, rhs: Scalar) -> (r: Result<SvgVec, GeometryError>)
        ensures
            rhs@ == 0real ==> r == Err::<SvgVec, GeometryError>(GeometryError::DivisionByZero),
            rhs@ != 0real ==> computed(r, self@.over(rhs@), self@.over(rhs@).fits()),
    {
        let x = self.x.div(rhs)?;
        let y = self.y.div(rhs)?;
        Ok(SvgVec { x, y })
    }
}

/// An axis-parallel rectangle of the content coordinate system. Its top lies
/// above its bottom on the screen, so `top() <= bottom()`.
#[derive(Debug, Clone, Copy, PartialEq, Eq, Structural)]
pub struct SvgRect {
    top_left: SvgPoint,
    dimensions: SvgVec,
}

impl View for SvgRect {
    type V = RectModel;

    closed spec fn view(&self) -> RectModel {
        RectModel { top_left: self.top_left@, dimensions: self.dimensions@ }
    }
}

/// The outcome of a computation of a rectangle, as its model or a failure.
pub open spec fn svg_rect_outcome(r: Result<SvgRect, GeometryError>) -> Result<
    RectModel,
    GeometryError,
> {
    match r {
        Ok(rect) => Ok(rect@),
        Err(e) => Err(e),
    }
}

impl SvgRect {
    /// Neither width nor height is negative.
    #[verifier::type_invariant]
    pub open spec fn valid(self) -> bool {
        self@.valid()
    }

    /// The rectangle with the given corner and extent. Fails with
    /// `InvalidDimensions` exactly when a dimension is negative.
    pub fn new(top_left: SvgPoint, dimensions: SvgVec) -> (r: Result<SvgRect, GeometryError>)
        ensures
            match r {
                Ok(rect) => rect@ == (RectModel { top_left: top_left@, dimensions: dimensions@ })
                    && rect@.valid(),
                Err(e) => e == GeometryError::InvalidDimensions && (dimensions@.x < 0real
                    || dimensions@.y < 0real),
            },
    {
        if dimensions.x.is_negative() || dimensions.y.is_negative() {
            Err(GeometryError::InvalidDimensions)
        } else {
            Ok(SvgRect { top_left, dimensions })
        }
    }

    pub fn top(&self) -> (r: Scalar)
        ensures
            r@ == self@.top(),
    {
        self.top_left.y
    }

    pub fn bottom(&self) -> (r: Result<Scalar, GeometryError>)
        ensures
            computed(r, self@.bottom(), representable(self@.bottom())),
    {
        self.top_left.y.add(self.dimensions.y)
    }

    pub fn left(&self) -> (r: Scalar)
        ensures
            r@ == self@.left(),
    {
        self.top_left.x
    }

    pub fn right(&self) -> (r: Result<Scalar, GeometryError>)
        ensures
            computed(r, self@.right(), representable(self@.right())),
    {
        self.top_left.x.add(self.dimensions.x)
    }

    pub fn width(&self) -> (r: Scalar)
        ensures
            r@ == self@.width(),
            r@ >= 0real,
    {
        proof {
            use_type_invariant(self);
        }
        self.dimensions.x
    }

    pub fn height(&self) -> (r: Scalar)
        ensures
            r@ == self@.height(),
            r@ >= 0real,
    {
        proof {
            use_type_invariant(self);
        }
        self.dimensions.y
    }

    pub fn top_left(&self) -> (p: SvgPoint)
        ensures
            p@ == self@.top_left,
    {
        self.top_left
    }

    pub fn bottom_right(&self) -> (r: Result<SvgPoint, GeometryError>)
        ensures
            computed(r, self@.bottom_right(), self@.bottom_right().fits()),
    {
        self.top_left.add(self.dimensions)
    }

    pub fn dimensions(&self) -> (v: SvgVec)
        ensures
            v@ == self@.dimensions,
            v@.x >= 0real,
            v@.y >= 0real,
    {
        proof {
            use_type_invariant(self);
        }
        self.dimensions
    }

    /// The window grown by the fraction `zoom` of its extent, and moved so
    /// that the content point under the pointer stays where it is. `size` is
    /// the extent of the element that shows the window, and `pointer` the
    /// offset of the pointer from the element's corner. Fails with
    /// `DivisionByZero` exactly when the element has no width or no height,
    /// and with `InvalidDimensions` where the window would shrink by more
    /// than itself.
    pub fn stepped(&self, size: (Scalar, Scalar), pointer: (Scalar, Scalar), zoom: Scalar) -> (r:
        Result<SvgRect, GeometryError>)
        ensures
            svg_rect_outcome(r) == self@.step_outcome(
                Vec2 { x: size.0@, y: size.1@ },
                Vec2 { x: pointer.0@, y: pointer.1@ },
                zoom@,
            ),
    {
        if size.0.is_zero() || size.1.is_zero() {
            return Err(GeometryError::DivisionByZero);
        }
        let growth = self.dimensions.mul(zoom)?;
        let x = self.top_left.x.sub(growth.x.div(size.0)?.mul(pointer.0)?)?;
        let y = self.top_left.y.sub(growth.y.div(size.1)?.mul(pointer.1)?)?;
        let dimensions = self.dimensions.add(growth)?;
        SvgRect::new(SvgPoint { x, y }, dimensions)
    }

    /// Width over height. Fails with `DivisionByZero` exactly when the height
    /// is zero.
    pub fn aspect_radio(&self) -> (r: Result<Scalar, GeometryError>)
        ensures
            self@.height() == 0real ==> r == Err::<Scalar, GeometryError>(
                GeometryError::DivisionByZero,
            ),
            self@.height() != 0real ==> computed(
                r,
                self@.aspect_ratio(),
                representable(self@.aspect_ratio()),
            ),
    {
        self.dimensions.x.div(self.dimensions.y)
    }
}

/// The visible part of the unbounded SVG canvas.
///
/// In a larger view port, the part of the screen that shows the view box,
/// the content of the same view box appears larger than in a smaller one.
/// A view box knows no padding: for padding, make the view box larger.
#[derive(Debug, Clone, Copy, PartialEq, Eq, Structural)]
pub struct ViewBox {
    /// The visible window. It may show part of the content, all of it, or a
    /// much wider area. The user controls its position and size.
    view_box: SvgRect,
    /// The bounding box of the content, by which the scale is measured. It
    /// changes when the content changes.
    content_box: SvgRect,
}

impl View for ViewBox {
    type V = ViewBoxModel;

    closed spec fn view(&self) -> ViewBoxModel {
        ViewBoxModel { view_box: self.view_box@, content_box: self.content_box@ }
    }
}

impl Default for ViewBox {
    /// Window and content box are both the square of side 200 around the
    /// origin.
    fn default() -> (r: ViewBox)
        ensures
            r@.view_box == (RectModel {
                top_left: Vec2 { x: -100real, y: -100real },
                dimensions: Vec2 { x: 200real, y: 200real },
            }),
            r@.content_box == r@.view_box,
    {
        let rect = SvgRect {
            top_left: SvgPoint::new(Scalar::from_int(-100), Scalar::from_int(-100)),
            dimensions: SvgVec::new(Scalar::from_int(200), Scalar::from_int(200)),
        };
        ViewBox { view_box: rect, content_box: rect }
    }
}

impl ViewBox {
    pub fn new(view_box: SvgRect, content_box: SvgRect) -> (r: ViewBox)
        ensures
            r@ == (ViewBoxModel { view_box: view_box@, content_box: content_box@ }),
    {
        ViewBox { view_box, content_box }
    }

    pub fn min_x(&self) -> (r: Scalar)
        ensures
            r@ == self@.view_box.left(),
    {
        self.view_box.left()
    }

    pub fn min_y(&self) -> (r: Scalar)
        ensures
            r@ == self@.view_box.top(),
    {
        self.view_box.top()
    }

    pub fn width(&self) -> (r: Scalar)
        ensures
            r@ == self@.view_box.width(),
            r@ >= 0real,
    {
        self.view_box.width()
    }

    pub fn height(&self) -> (r: Scalar)
        ensures
            r@ == self@.view_box.height(),
            r@ >= 0real,
    {
        self.view_box.height()
    }

    /// The zoom factor, which is never negative. Fails with `DivisionByZero`
    /// exactly when it would divide by a window extent of zero, else with
    /// `Overflow` exactly when one of its quotients is not representable.
    pub fn scale(&self) -> (r: Result<Scalar, GeometryError>)
        ensures
            self@.scale_divides_by_zero() ==> r == Err::<Scalar, GeometryError>(
                GeometryError::DivisionByZero,
            ),
            !self@.scale_divides_by_zero() ==> computed(r, self@.scale(), self@.scale_fits()),
            r matches Ok(s) ==> s@ >= 0real,
    {
        let content_width = self.content_box.width();
        let content_height = self.content_box.height();
        let width = self.view_box.width();
        let height = self.view_box.height();
        if content_width.is_zero() && content_height.is_zero() {
            Ok(Scalar::one())
        } else if content_width.is_zero() {
            proof {
                if height@ != 0real {
                    lemma_quotient_sign(content_height@, height@);
                }
            }
            content_height.div(height)
        } else if content_height.is_zero() {
            proof {
                if width@ != 0real {
                    lemma_quotient_sign(content_width@, width@);
                }
            }
            content_width.div(width)
        } else {
            if width.is_zero() || height.is_zero() {
                return Err(GeometryError::DivisionByZero);
            }
            proof {
                lemma_quotient_sign(content_width@, width@);
                lemma_quotient_sign(content_height@, height@);
            }
            let horizontal = content_width.div(width)?;
            let vertical = content_height.div(height)?;
            Ok(horizontal.max(vertical))
        }
    }

    /// Resizes the window so that the content appears at `new_scale`: the
    /// window's extent becomes the content's divided by `new_scale`. A scale
    /// of zero is rejected with `DivisionByZero`. On any failure the view box
    /// is left as it was. On success the scale is `new_scale`, unless the
    /// content has neither width nor height.
    pub fn set_scale(&mut self, new_scale: Scalar) -> (r: Result<(), GeometryError>)
        requires
            new_scale@ >= 0real,
        ensures
            new_scale@ == 0real ==> r == Err::<(), GeometryError>(GeometryError::DivisionByZero),
            new_scale@ != 0real ==> match r {
                Ok(_) => final(self)@ == old(self)@.with_scale(new_scale@)
                    && old(self)@.content_box.dimensions.over(new_scale@).fits(),
                Err(e) => e == GeometryError::Overflow && !old(self)@.content_box.dimensions.over(
                    new_scale@,
                ).fits(),
            },
            r is Err ==> *final(self) == *old(self),
            r is Ok && (old(self)@.content_box.width() > 0real || old(self)@.content_box.height()
                > 0real) ==> final(self)@.scale() == new_scale@,
    {
        let content = self.content_box.dimensions();
        let dimensions = content.div(new_scale)?;
        proof {
            lemma_quotient_sign(content@.x, new_scale@);
            lemma_quotient_sign(content@.y, new_scale@);
            if content@.x > 0real || content@.y > 0real {
                lemma_scale_is_set(self@, new_scale@);
            }
        }
        self.view_box = SvgRect { top_left: self.view_box.top_left, dimensions };
        Ok(())
    }

    pub fn top_left(&self) -> (p: SvgPoint)
        ensures
            p@ == self@.view_box.top_left,
    {
        self.view_box.top_left
    }

    /// Moves the window so that its top-left corner is `pos`.
    pub fn set_top_left(&mut self, pos: SvgPoint)
        ensures
            final(self)@ == old(self)@.with_top_left(pos@),
    {
        proof {
            use_type_invariant(self.view_box);
        }
        self.view_box = SvgRect { top_left: pos, dimensions: self.view_box.dimensions };
    }

    pub fn content_box(&self) -> (r: SvgRect)
        ensures
            r@ == self@.content_box,
    {
        self.content_box
    }

    pub fn set_content_box(&mut self, rect: SvgRect)
        ensures
            final(self)@ == old(self)@.with_content_box(rect@),
    {
        self.content_box = rect
    }

    pub fn view_box(&self) -> (r: SvgRect)
        ensures
            r@ == self@.view_box,
    {
        self.view_box
    }
}

impl ToSvgString for ViewBox {
    open spec fn svg_text(&self) -> Seq<char> {
        view_box_text(self@.view_box)
    }

    /// The value of the `viewBox` attribute that shows this view box.
    fn to_svg_string(&self) -> (text: String) {
        let mut text = String::new();
        push_decimal(&mut text, self.min_x());
        push_char(&mut text, ' ');
        push_decimal(&mut text, self.min_y());
        push_char(&mut text, ' ');
        push_decimal(&mut text, self.width());
        push_char(&mut text, ' ');
        push_decimal(&mut text, self.height());
        proof {
            assert(text@ =~= view_box_text(self@.view_box));
        }
        text
    }
}

} // verus!
