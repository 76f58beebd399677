//! The view-port coordinate system: screen positions relative to the top-left
//! corner of the view port, with the y axis pointing down, and the affine
//! maps that lead from it to the content coordinate system and back.

use vstd::prelude::*;
use crate::arith::{lemma_ratio_ordered, lemma_ratio_whole};
use crate::error::{computed, GeometryError};
use crate::laws::lemma_inverse_round_trip;
use crate::model::{machine_epsilon, Affine, RectModel, Vec2};
use crate::scalar::{in_range, representable, Scalar};
use crate::svg::SvgPoint;

verus! {

/// The matrix
///
/// ```text
///    [a c e]
///    [b d f]
///    [0 0 1]
/// ```
///
/// of an affine map of the plane.
#[derive(Debug, Clone, Copy, PartialEq, Eq, Structural)]
pub struct AffineTransformMatrix {
    a: Scalar,
    b: Scalar,
    c: Scalar,
    d: Scalar,
    e: Scalar,
    f: Scalar,
}

impl View for AffineTransformMatrix {
    type V = Affine;

    closed spec fn view(&self) -> Affine {
        Affine { a: self.a@, b: self.b@, c: self.c@, d: self.d@, e: self.e@, f: self.f@ }
    }
}

/// The threshold below which a determinant counts as zero.
pub fn epsilon() -> (r: Scalar)
    ensures
        r@ == machine_epsilon(),
        r@ > 0real,
{
    proof {
        lemma_ratio_ordered(0, 1, 1, 0x10_0000_0000_0000);
        lemma_ratio_whole(0);
        assert(in_range(1, 0x10_0000_0000_0000));
    }
    let e = Scalar::new(1, 0x10_0000_0000_0000);
    e.unwrap()
}

impl AffineTransformMatrix {
    /// The map `x' = a x + c y + e`, `y' = b x + d y + f`.
    pub fn new(a: Scalar, b: Scalar, c: Scalar, d: Scalar, e: Scalar, f: Scalar) -> (m:
        AffineTransformMatrix)
        ensures
            m@ == (Affine { a: a@, b: b@, c: c@, d: d@, e: e@, f: f@ }),
    {
        AffineTransformMatrix { a, b, c, d, e, f }
    }

    /// The six coefficients `a, b, c, d, e, f`.
    pub fn coefficients(&self) -> (r: [Scalar; 6])
        ensures
            r[0]@ == self@.a,
            r[1]@ == self@.b,
            r[2]@ == self@.c,
            r[3]@ == self@.d,
            r[4]@ == self@.e,
            r[5]@ == self@.f,
    {
        [self.a, self.b, self.c, self.d, self.e, self.f]
    }

    /// The image of the point `(x, y)`.
    pub fn apply(&self, x: Scalar, y: Scalar) -> (r: Result<(Scalar, Scalar), GeometryError>)
        ensures
            match r {
                Ok(p) => (Vec2 { x: p.0@, y: p.1@ }) == self@.apply(Vec2 { x: x@, y: y@ })
                    && self@.apply_fits(Vec2 { x: x@, y: y@ }),
                Err(e) => e == GeometryError::Overflow && !self@.apply_fits(Vec2 { x: x@, y: y@ }),
            },
    {
        let ax = self.a.mul(x)?;
        let cy = self.c.mul(y)?;
        let linear_x = ax.add(cy)?;
        let image_x = linear_x.add(self.e)?;
        let bx = self.b.mul(x)?;
        let dy = self.d.mul(y)?;
        let linear_y = bx.add(dy)?;
        let image_y = linear_y.add(self.f)?;
        Ok((image_x, image_y))
    }

    /// The inverse map, which takes the image of every point back to the
    /// point. Fails with `NonInvertibleTransform` exactly when the
    /// determinant of the linear part is smaller in magnitude than
    /// [`machine_epsilon`], and with `Overflow` exactly when the determinant
    /// or, for an invertible map, a coefficient of the inverse cannot be
    /// computed exactly.
    pub fn try_inverse(&self) -> (r: Result<AffineTransformMatrix, GeometryError>)
        ensures
            !self@.det_fits() ==> r == Err::<AffineTransformMatrix, GeometryError>(
                GeometryError::Overflow,
            ),
            self@.det_fits() && self@.singular() ==> r == Err::<
                AffineTransformMatrix,
                GeometryError,
            >(GeometryError::NonInvertibleTransform),
            self@.det_fits() && !self@.singular() ==> computed(
                r,
                self@.inverse(),
                self@.inverse_fits(),
            ),
            r matches Ok(inverse) ==> forall|p: Vec2| #[trigger]
                inverse@.apply(self@.apply(p)) == p,
    {
        let ad = self.a.mul(self.d)?;
        let cb = self.c.mul(self.b)?;
        let det = ad.sub(cb)?;
        if det.abs().lt(&epsilon()) {
            return Err(GeometryError::NonInvertibleTransform);
        }
        proof {
            assert forall|p: Vec2| #[trigger]
                self@.inverse().apply(self@.apply(p)) == p by {
                lemma_inverse_round_trip(self@, p);
            }
        }
        let a = self.d.div(det)?;
        let b = self.b.neg().div(det)?;
        let c = self.c.neg().div(det)?;
        let d = self.a.div(det)?;
        let de = self.d.mul(self.e)?;
        let cf = self.c.mul(self.f)?;
        let e = de.sub(cf)?.neg().div(det)?;
        let be = self.b.mul(self.e)?;
        let af = self.a.mul(self.f)?;
        let f = be.sub(af)?.div(det)?;
        Ok(AffineTransformMatrix { a, b, c, d, e, f })
    }
}

/// A vector in screen coordinates: the y axis points down.
#[derive(Debug, Clone, Copy, PartialEq, Eq, Structural)]
pub struct ScreenVec {
    x: Scalar,
    y: Scalar,
}

impl View for ScreenVec {
    type V = Vec2;

    closed spec fn view(&self) -> Vec2 {
        Vec2 { x: self.x@, y: self.y@ }
    }
}

impl ScreenVec {
    pub fn new(x: Scalar, y: Scalar) -> (v: ScreenVec)
        ensures
            v@ == (Vec2 { x: x@, y: y@ }),
    {
        ScreenVec { x, y }
    }

    pub fn x(&self) -> (r: Scalar)
        ensures
            r@ == self@.x,
    {
        self.x
    }

    pub fn y(&self) -> (r: Scalar)
        ensures
            r@ == self@.y,
    {
        self.y
    }

    /// The vector of no length.
    pub fn zero() -> (v: ScreenVec)
        ensures
            v@ == Vec2::zero(),
    {
        ScreenVec { x: Scalar::zero(), y: Scalar::zero() }
    }

    /// Whether both coordinates are zero.
    pub fn is_zero(&self) -> (b: bool)
        ensures
            b == (self@ == Vec2::zero()),
    {
        self.x.is_zero() && self.y.is_zero()
    }

    /// The vector stretched by the factor `rhs`.
    pub fn mul(self, rhs: Scalar) -> (r: Result<ScreenVec, GeometryError>)
        ensures
            computed(r, self@.times(rhs@), self@.times(rhs@).fits()),
    {
        let x = self.x.mul(rhs)?;
        let y = self.y.mul(rhs)?;
        Ok(ScreenVec { x, y })
    }

    pub fn add(self, rhs: ScreenVec) -> (r: Result<ScreenVec, GeometryError>)
        ensures
            computed(r, self@.plus(rhs@), self@.plus(rhs@).fits()),
    {
        let x = self.x.add(rhs.x)?;
        let y = self.y.add(rhs.y)?;
        Ok(ScreenVec { x, y })
    }

    pub fn sub(self, rhs: ScreenVec) -> (r: Result<ScreenVec, GeometryError>)
        ensures
            computed(r, self@.minus(rhs@), self@.minus(rhs@).fits()),
    {
        let x = self.x.sub(rhs.x)?;
        let y = self.y.sub(rhs.y)?;
        Ok(ScreenVec { x, y })
    }
}

/// A position relative to the top-left corner of the view port, in screen
/// coordinates: the y axis points down.
///
/// A position may lie off screen and outside the view port: its coordinates
/// may be negative or exceed the visible area.
#[derive(Debug, Clone, Copy, PartialEq, Eq, Structural)]
pub struct ViewPortPos {
    x: Scalar,
    y: Scalar,
}

impl View for ViewPortPos {
    type V = Vec2;

    closed spec fn view(&self) -> Vec2 {
        Vec2 { x: self.x@, y: self.y@ }
    }
}

impl Default for ViewPortPos {
    /// The top-left corner of the view port.
    fn default() -> (p: ViewPortPos)
        ensures
            p@ == Vec2::zero(),
    {
        ViewPortPos::origin()
    }
}

impl ViewPortPos {
    pub fn new(x: Scalar, y: Scalar) -> (p: ViewPortPos)
        ensures
            p@ == (Vec2 { x: x@, y: y@ }),
    {
        ViewPortPos { x, y }
    }

    /// The top-left corner of the view port.
    pub fn origin() -> (p: ViewPortPos)
        ensures
            p@ == Vec2::zero(),
    {
        ViewPortPos { x: Scalar::zero(), y: Scalar::zero() }
    }

    pub fn x(&self) -> (r: Scalar)
        ensures
            r@ == self@.x,
    {
        self.x
    }

    pub fn y(&self) -> (r: Scalar)
        ensures
            r@ == self@.y,
    {
        self.y
    }

    /// The vector that leads from the origin to this position.
    pub fn as_vec(&self) -> (v: ScreenVec)
        ensures
            v@ == self@,
    {
        ScreenVec { x: self.x, y: self.y }
    }

    /// The position moved by `rhs`.
    pub fn add(self, rhs: ScreenVec) -> (r: Result<ViewPortPos, GeometryError>)
        ensures
            computed(r, self@.plus(rhs@), self@.plus(rhs@).fits()),
    {
        let x = self.x.add(rhs.x)?;
        let y = self.y.add(rhs.y)?;
        Ok(ViewPortPos { x, y })
    }

    /// Moves the position by `rhs`, or leaves it where it is on overflow.
    pub fn add_assign(&mut self, rhs: ScreenVec) -> (r: Result<(), GeometryError>)
        ensures
            match r {
                Ok(_) => final(self)@ == old(self)@.plus(rhs@) && old(self)@.plus(rhs@).fits(),
                Err(e) => e == GeometryError::Overflow && !old(self)@.plus(rhs@).fits()
                    && *final(self) == *old(self),
            },
    {
        let moved = self.add(rhs)?;
        *self = moved;
        Ok(())
    }

    /// The vector that leads from `rhs` to this position.
    pub fn sub(self, rhs: ViewPortPos) -> (r: Result<ScreenVec, GeometryError>)
        ensures
            computed(r, self@.minus(rhs@), self@.minus(rhs@).fits()),
    {
        let x = self.x.sub(rhs.x)?;
        let y = self.y.sub(rhs.y)?;
        Ok(ScreenVec { x, y })
    }

    /// The content point that the map from view port to content takes this
    /// position to.
    pub fn to_svg_coords(&self, view_port_to_svg_transformation: AffineTransformMatrix) -> (r:
        Result<SvgPoint, GeometryError>)
        ensures
            computed(
                r,
                view_port_to_svg_transformation@.apply(self@),
                view_port_to_svg_transformation@.apply_fits(self@),
            ),
    {
        let (x, y) = view_port_to_svg_transformation.apply(self.x, self.y)?;
        Ok(SvgPoint::new(x, y))
    }

    /// The position that the map from content to view port takes the content
    /// point to.
    pub fn from_svg_coords(
        svg_point: SvgPoint,
        svg_to_view_port_transformation: AffineTransformMatrix,
    ) -> (r: Result<ViewPortPos, GeometryError>)
        ensures
            computed(
                r,
                svg_to_view_port_transformation@.apply(svg_point@),
                svg_to_view_port_transformation@.apply_fits(svg_point@),
            ),
    {
        let (x, y) = svg_to_view_port_transformation.apply(svg_point.x, svg_point.y)?;
        Ok(ViewPortPos::new(x, y))
    }
}

/// A rectangle relative to the view port, in screen coordinates: the y axis
/// points down.
#[derive(Debug, Clone, Copy, PartialEq, Eq, Structural)]
pub struct ViewPortRect {
    top_left: ViewPortPos,
    width: Scalar,
    height: Scalar,
}

impl View for ViewPortRect {
    type V = RectModel;

    closed spec fn view(&self) -> RectModel {
        RectModel { top_left: self.top_left@, dimensions: Vec2 { x: self.width@, y: self.height@ } }
    }
}

impl ViewPortRect {
    /// Neither width nor height is negative.
    #[verifier::type_invariant]
    pub open spec fn valid(self) -> bool {
        self@.valid()
    }

    /// The rectangle with the given corner and extent. Fails with
    /// `InvalidDimensions` exactly when a dimension is negative.
    pub fn new(top_left: ViewPortPos, width: Scalar, height: Scalar) -> (r: Result<
        ViewPortRect,
        GeometryError,
    >)
        ensures
            match r {
                Ok(rect) => rect@ == (RectModel {
                    top_left: top_left@,
                    dimensions: Vec2 { x: width@, y: height@ },
                }) && rect@.valid(),
                Err(e) => e == GeometryError::InvalidDimensions && (width@ < 0real || height@
                    < 0real),
            },
    {
        if width.is_negative() || height.is_negative() {
            Err(GeometryError::InvalidDimensions)
        } else {
            Ok(ViewPortRect { top_left, width, height })
        }
    }

    pub fn top(&self) -> (r: Scalar)
        ensures
            r@ == self@.top(),
    {
        self.top_left.y
    }

    pub fn left(&self) -> (r: Scalar)
        ensures
            r@ == self@.left(),
    {
        self.top_left.x
    }

    pub fn bottom(&self) -> (r: Result<Scalar, GeometryError>)
        ensures
            computed(r, self@.bottom(), representable(self@.bottom())),
    {
        self.top_left.y.add(self.height)
    }

    pub fn right(&self) -> (r: Result<Scalar, GeometryError>)
        ensures
            computed(r, self@.right(), representable(self@.right())),
    {
        self.top_left.x.add(self.width)
    }

    pub fn width(&self) -> (r: Scalar)
        ensures
            r@ == self@.width(),
            r@ >= 0real,
    {
        proof {
            use_type_invariant(self);
        }
        self.width
    }

    pub fn height(&self) -> (r: Scalar)
        ensures
            r@ == self@.height(),
            r@ >= 0real,
    {
        proof {
            use_type_invariant(self);
        }
        self.height
    }

    pub fn top_left(&self) -> (p: ViewPortPos)
        ensures
            p@ == self@.top_left,
    {
        self.top_left
    }

    pub fn bottom_right(&self) -> (r: Result<ViewPortPos, GeometryError>)
        ensures
            computed(r, self@.bottom_right(), self@.bottom_right().fits()),
    {
        let x = self.top_left.x.add(self.width)?;
        let y = self.top_left.y.add(self.height)?;
        Ok(ViewPortPos::new(x, y))
    }

    /// Width over height. Fails with `DivisionByZero` exactly when the height
    /// is zero.
    pub fn aspect_ratio(&self) -> (r: Result<Scalar, GeometryError>)
        ensures
            self@.height() == 0real ==> r == Err::<Scalar, GeometryError>(
                GeometryError::DivisionByZero,
            ),
            self@.height() != 0real ==> computed(
                r,
                self@.aspect_ratio(),
                representable(self@.aspect_ratio()),
            ),
    {
        self.width.div(self.height)
    }

    /// The vector from the top-left corner of this rectangle to `point`.
    pub fn offset(&self, point: ViewPortPos) -> (r: Result<ScreenVec, GeometryError>)
        ensures
            computed(r, self@.offset(point@), self@.offset(point@).fits()),
    {
        point.sub(self.top_left)
    }

    /// The offset of `point` with each coordinate divided by the extent of the
    /// rectangle in that direction, so that a point inside the rectangle has
    /// both coordinates between zero and one. Fails with `DivisionByZero`
    /// exactly when the width or the height is zero.
    pub fn rect_size_relative_offset(&self, point: ViewPortPos) -> (r: Result<
        ScreenVec,
        GeometryError,
    >)
        ensures
            self@.width() == 0real || self@.height() == 0real ==> r == Err::<
                ScreenVec,
                GeometryError,
            >(GeometryError::DivisionByZero),
            self@.width() != 0real && self@.height() != 0real ==> computed(
                r,
                self@.relative_offset(point@),
                self@.offset(point@).fits() && self@.relative_offset(point@).fits(),
            ),
    {
        if self.width.is_zero() || self.height.is_zero() {
            return Err(GeometryError::DivisionByZero);
        }
        let absolute_offset = self.offset(point)?;
        let x = absolute_offset.x.div(self.width)?;
        let y = absolute_offset.y.div(self.height)?;
        Ok(ScreenVec { x, y })
    }
}

/// Something that has a position in the view port.
pub trait Positioned {
    /// The position, as a pair of real coordinates.
    spec fn position(&self) -> Vec2;

    fn pos(&self) -> (p: ViewPortPos)
        ensures
            p@ == self.position(),
    ;
}

/// Something that has a position and a size in the view port; the size may
/// be zero.
pub trait PositionedExtent {
    /// The top-left corner, as a pair of real coordinates.
    spec fn corner(&self) -> Vec2;

    /// The rectangle taken up.
    spec fn extent(&self) -> RectModel;

    fn top_left(&self) -> (p: ViewPortPos)
        ensures
            p@ == self.corner(),
    ;

    fn bounding_rect(&self) -> (r: ViewPortRect)
        ensures
            r@ == self.extent(),
    ;
}

impl PositionedExtent for ViewPortRect {
    open spec fn corner(&self) -> Vec2 {
        self@.top_left
    }

    open spec fn extent(&self) -> RectModel {
        self@
    }

    fn top_left(&self) -> (p: ViewPortPos) {
        self.top_left
    }

    fn bounding_rect(&self) -> (r: ViewPortRect) {
        *self
    }
}

/// What an element reports of its geometry at one moment: the rectangle it
/// takes up in the view port, and the map from its content coordinate
/// system to the view port.
#[derive(Debug, Clone, Copy, PartialEq, Eq, Structural)]
pub struct ElementSnapshot {
    pub bounding_rect: ViewPortRect,
    pub transform: AffineTransformMatrix,
}

impl ElementSnapshot {
    pub fn new(bounding_rect: ViewPortRect, transform: AffineTransformMatrix) -> (r:
        ElementSnapshot)
        ensures
            r.bounding_rect == bounding_rect,
            r.transform == transform,
    {
        ElementSnapshot { bounding_rect, transform }
    }
}

impl PositionedExtent for ElementSnapshot {
    open spec fn corner(&self) -> Vec2 {
        self.bounding_rect@.top_left
    }

    open spec fn extent(&self) -> RectModel {
        self.bounding_rect@
    }

    fn top_left(&self) -> (p: ViewPortPos) {
        self.bounding_rect.top_left()
    }

    fn bounding_rect(&self) -> (r: ViewPortRect) {
        self.bounding_rect
    }
}

/// What the document says of the target of an event: which kinds of object
/// it is an instance of, the rectangle it takes up in the view port (for a
/// window its inner size, for a document the rectangle of its body), and a
/// description for diagnostics.
pub struct EventTargetSnapshot {
    pub is_window: bool,
    pub is_document: bool,
    pub is_element: bool,
    pub rect: ViewPortRect,
    pub description: String,
}

/// An event target that has a position and a size, with the rectangle it
/// takes up in the view port.
#[derive(Debug, Clone, Copy, PartialEq, Eq, Structural)]
pub enum PositionedJsObject {
    Window(ViewPortRect),
    Document(ViewPortRect),
    Element(ViewPortRect),
}

/// The failure to see an event target as a positioned object. It holds the
/// description of the target.
///
/// Only windows, documents and elements have a place in the view port. Other
/// targets, such as nodes that are no elements, requests, audio nodes or
/// workers, have none.
#[derive(Debug)]
pub struct PositionedCastErr(pub String);

impl PositionedJsObject {
    /// The rectangle that the object was made with.
    pub open spec fn rect(self) -> ViewPortRect {
        match self {
            PositionedJsObject::Window(rect) => rect,
            PositionedJsObject::Document(rect) => rect,
            PositionedJsObject::Element(rect) => rect,
        }
    }

    /// The positioned object that an event target is: a window if it is an
    /// instance of one; else a document if it is an instance of one; else an
    /// element if it is an instance of one. A target that is none of them is
    /// refused, and the error holds its description.
    pub fn try_from(event_target: EventTargetSnapshot) -> (r: Result<
        PositionedJsObject,
        PositionedCastErr,
    >)
        ensures
            event_target.is_window ==> r == Ok::<PositionedJsObject, PositionedCastErr>(
                PositionedJsObject::Window(event_target.rect),
            ),
            !event_target.is_window && event_target.is_document ==> r == Ok::<
                PositionedJsObject,
                PositionedCastErr,
            >(PositionedJsObject::Document(event_target.rect)),
            !event_target.is_window && !event_target.is_document && event_target.is_element ==> r
                == Ok::<PositionedJsObject, PositionedCastErr>(
                PositionedJsObject::Element(event_target.rect),
            ),
            !event_target.is_window && !event_target.is_document && !event_target.is_element
                ==> r == Err::<PositionedJsObject, PositionedCastErr>(
                PositionedCastErr(event_target.description),
            ),
    {
        if event_target.is_window {
            Ok(PositionedJsObject::Window(event_target.rect))
        } else if event_target.is_document {
            Ok(PositionedJsObject::Document(event_target.rect))
        } else if event_target.is_element {
            Ok(PositionedJsObject::Element(event_target.rect))
        } else {
            Err(PositionedCastErr(event_target.description))
        }
    }
}

impl PositionedExtent for PositionedJsObject {
    /// A window's corner is the origin of the view port; a document's is the
    /// corner of its body; an element's is its own.
    open spec fn corner(&self) -> Vec2 {
        match self {
            PositionedJsObject::Window(_) => Vec2::zero(),
            PositionedJsObject::Document(rect) => rect@.top_left,
            PositionedJsObject::Element(rect) => rect@.top_left,
        }
    }

    open spec fn extent(&self) -> RectModel {
        self.rect()@
    }

    fn top_left(&self) -> (p: ViewPortPos) {
        match self {
            PositionedJsObject::Window(_) => ViewPortPos::origin(),
            PositionedJsObject::Document(rect) => rect.top_left(),
            PositionedJsObject::Element(rect) => rect.top_left(),
        }
    }

    fn bounding_rect(&self) -> (r: ViewPortRect) {
        match self {
            PositionedJsObject::Window(rect) => *rect,
            PositionedJsObject::Document(rect) => *rect,
            PositionedJsObject::Element(rect) => *rect,
        }
    }
}

} // verus!
