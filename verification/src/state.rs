//! The pan and zoom state of an element: what a backing model has to offer
//! so that the view can be zoomed around a fixed screen point, and the two
//! models that offer it.

use vstd::prelude::*;
use crate::error::GeometryError;
use crate::model::{RectModel, Vec2, ViewStateModel};
use crate::scalar::Scalar;
use crate::screen_geom::{ElementSnapshot, PositionedExtent, ViewPortPos, ViewPortRect};
use crate::svg::ViewBox;

verus! {

/// The outcome of a computation of a scalar, as a real number or a failure.
pub open spec fn scalar_outcome(r: Result<Scalar, GeometryError>) -> Result<real, GeometryError> {
    match r {
        Ok(s) => Ok(s@),
        Err(e) => Err(e),
    }
}

/// The outcome of a computation of a pair of scalars.
pub open spec fn pair_outcome(r: Result<(Scalar, Scalar), GeometryError>) -> Result<
    Vec2,
    GeometryError,
> {
    match r {
        Ok(p) => Ok(Vec2 { x: p.0@, y: p.1@ }),
        Err(e) => Err(e),
    }
}

/// The outcome of a computation of a position.
pub open spec fn pos_outcome(r: Result<ViewPortPos, GeometryError>) -> Result<
    Vec2,
    GeometryError,
> {
    match r {
        Ok(p) => Ok(p@),
        Err(e) => Err(e),
    }
}

/// The outcome of a computation of a rectangle.
pub open spec fn rect_outcome(r: Result<ViewPortRect, GeometryError>) -> Result<
    RectModel,
    GeometryError,
> {
    match r {
        Ok(rect) => Ok(rect@),
        Err(e) => Err(e),
    }
}

/// What a model of the view of an element of kind `A` offers: its scale, the
/// place of the visible region in the view port, and the zoom around a fix
/// point.
///
/// Each operation is described by a specification function of the same
/// name with `_result` appended, which the implementations define.
pub trait PanZoomState<A>: Sized {
    /// What [`PanZoomState::unscaled_dimensions`] returns.
    spec fn unscaled_dimensions_result(&self, element: &A) -> Result<Vec2, GeometryError>;

    /// What [`PanZoomState::scale`] returns.
    spec fn scale_result(&self) -> Result<real, GeometryError>;

    /// What [`PanZoomState::top_left`] returns.
    spec fn top_left_result(&self, element: &A) -> Result<Vec2, GeometryError>;

    /// What [`PanZoomState::bounding_rect`] returns.
    spec fn bounding_rect_result(&self, element: &A) -> Result<RectModel, GeometryError>;

    /// Whether [`PanZoomState::set_scale`], called in the state `self`, may
    /// return `r` and leave the state `after`.
    spec fn set_scale_result(
        &self,
        element: &A,
        fix_point: Vec2,
        new_scale: real,
        after: Self,
        r: Result<(), GeometryError>,
    ) -> bool;

    /// Width and height of the content with the scale divided out. They are
    /// in a coordinate system of the model's own and can only be compared
    /// with other results of this function.
    fn unscaled_dimensions(&self, element: &A) -> (r: Result<(Scalar, Scalar), GeometryError>)
        ensures
            pair_outcome(r) == self.unscaled_dimensions_result(element),
    ;

    /// The current zoom factor.
    fn scale(&self) -> (r: Result<Scalar, GeometryError>)
        ensures
            scalar_outcome(r) == self.scale_result(),
    ;

    /// The origin of the visible region, in view-port coordinates.
    fn top_left(&self, element: &A) -> (r: Result<ViewPortPos, GeometryError>)
        ensures
            pos_outcome(r) == self.top_left_result(element),
    ;

    /// The rectangle of the visible region, in view-port coordinates.
    fn bounding_rect(&self, element: &A) -> (r: Result<ViewPortRect, GeometryError>)
        ensures
            rect_outcome(r) == self.bounding_rect_result(element),
    ;

    /// Changes the scale to `new_scale`, and translates so that the content
    /// under `fix_point` stays where it is. On failure the state is left as
    /// it was.
    fn set_scale(&mut self, element: &A, fix_point: ViewPortPos, new_scale: Scalar) -> (r: Result<
        (),
        GeometryError,
    >)
        requires
            new_scale@ >= 0real,
        ensures
            old(self).set_scale_result(element, fix_point@, new_scale@, *final(self), r),
            r is Err ==> *final(self) == *old(self),
    ;
}

impl PanZoomState<ElementSnapshot> for ViewBox {
    open spec fn unscaled_dimensions_result(&self, element: &ElementSnapshot) -> Result<
        Vec2,
        GeometryError,
    > {
        self@.unscaled_dimensions_outcome()
    }

    open spec fn scale_result(&self) -> Result<real, GeometryError> {
        self@.scale_outcome()
    }

    open spec fn top_left_result(&self, element: &ElementSnapshot) -> Result<Vec2, GeometryError> {
        if element.transform@.apply_fits(self@.view_box.top_left) {
            Ok(self@.top_left_in(element.transform@))
        } else {
            Err(GeometryError::Overflow)
        }
    }

    open spec fn bounding_rect_result(&self, element: &ElementSnapshot) -> Result<
        RectModel,
        GeometryError,
    > {
        self@.bounding_rect_outcome(element.transform@)
    }

    open spec fn set_scale_result(
        &self,
        element: &ElementSnapshot,
        fix_point: Vec2,
        new_scale: real,
        after: Self,
        r: Result<(), GeometryError>,
    ) -> bool {
        match self@.zoom_outcome(element.transform@, fix_point, new_scale) {
            Ok(zoomed) => r is Ok && after@ == zoomed,
            Err(e) => r == Err::<(), GeometryError>(e) && after == *self,
        }
    }

    fn unscaled_dimensions(&self, element: &ElementSnapshot) -> (r: Result<
        (Scalar, Scalar),
        GeometryError,
    >) {
        let scale = ViewBox::scale(self)?;
        let width = self.width().mul(scale)?;
        let height = self.height().mul(scale)?;
        Ok((width, height))
    }

    fn scale(&self) -> (r: Result<Scalar, GeometryError>) {
        ViewBox::scale(self)
    }

    fn top_left(&self, element: &ElementSnapshot) -> (r: Result<ViewPortPos, GeometryError>) {
        ViewPortPos::from_svg_coords(ViewBox::top_left(self), element.transform)
    }

    fn bounding_rect(&self, element: &ElementSnapshot) -> (r: Result<ViewPortRect, GeometryError>) {
        let window = self.view_box();
        let top_left = ViewPortPos::from_svg_coords(window.top_left(), element.transform)?;
        let window_bottom_right = window.bottom_right()?;
        let bottom_right = ViewPortPos::from_svg_coords(window_bottom_right, element.transform)?;
        let width = bottom_right.x().sub(top_left.x())?;
        let height = bottom_right.y().sub(top_left.y())?;
        ViewPortRect::new(top_left, width, height)
    }

    fn set_scale(&mut self, element: &ElementSnapshot, fix_point: ViewPortPos, new_scale: Scalar)
        -> (r: Result<(), GeometryError>) {
        if new_scale.is_zero() {
            return Err(GeometryError::DivisionByZero);
        }
        let old_scale = ViewBox::scale(self)?;
        let view_port_to_svg = element.transform.try_inverse()?;
        let fix_point_svg = fix_point.to_svg_coords(view_port_to_svg)?;
        let offset = fix_point_svg.sub(ViewBox::top_left(self))?;
        let factor = old_scale.div(new_scale)?;
        let new_offset = offset.mul(factor)?;
        let new_top_left = fix_point_svg.sub_vec(new_offset)?;
        let mut next = *self;
        next.set_top_left(new_top_left);
        ViewBox::set_scale(&mut next, new_scale)?;
        *self = next;
        Ok(())
    }
}

/// The view of an element that is placed by a translation and a scale
/// factor alone.
#[derive(Debug, Clone, Copy, PartialEq, Eq, Structural)]
pub struct ViewState {
    top_left: ViewPortPos,
    scale: Scalar,
}

impl View for ViewState {
    type V = ViewStateModel;

    closed spec fn view(&self) -> ViewStateModel {
        ViewStateModel { top_left: self.top_left@, scale: self.scale@ }
    }
}

impl ViewState {
    /// The state of an element that is neither moved nor scaled: no
    /// translation, and a scale of one.
    pub fn new() -> (r: ViewState)
        ensures
            r@ == (ViewStateModel { top_left: Vec2::zero(), scale: 1real }),
    {
        ViewState { top_left: ViewPortPos::origin(), scale: Scalar::one() }
    }

    /// The translation of the element.
    pub fn translation(&self) -> (p: ViewPortPos)
        ensures
            p@ == self@.top_left,
    {
        self.top_left
    }

    /// The scale factor of the element.
    pub fn scale_factor(&self) -> (s: Scalar)
        ensures
            s@ == self@.scale,
    {
        self.scale
    }
}

impl<A: PositionedExtent> PanZoomState<A> for ViewState {
    open spec fn unscaled_dimensions_result(&self, element: &A) -> Result<Vec2, GeometryError> {
        self@.unscaled_dimensions_outcome(element.extent())
    }

    open spec fn scale_result(&self) -> Result<real, GeometryError> {
        Ok(self@.scale)
    }

    open spec fn top_left_result(&self, element: &A) -> Result<Vec2, GeometryError> {
        Ok(self@.top_left)
    }

    open spec fn bounding_rect_result(&self, element: &A) -> Result<RectModel, GeometryError> {
        Ok(element.extent())
    }

    open spec fn set_scale_result(
        &self,
        element: &A,
        fix_point: Vec2,
        new_scale: real,
        after: Self,
        r: Result<(), GeometryError>,
    ) -> bool {
        match self@.zoom_outcome(element.extent(), fix_point, new_scale) {
            Ok(zoomed) => r is Ok && after@ == zoomed,
            Err(e) => r == Err::<(), GeometryError>(e) && after == *self,
        }
    }

    fn unscaled_dimensions(&self, element: &A) -> (r: Result<(Scalar, Scalar), GeometryError>) {
        let bounds = element.bounding_rect();
        let width = bounds.width().div(self.scale)?;
        let height = bounds.height().div(self.scale)?;
        Ok((width, height))
    }

    fn scale(&self) -> (r: Result<Scalar, GeometryError>) {
        Ok(self.scale)
    }

    fn top_left(&self, element: &A) -> (r: Result<ViewPortPos, GeometryError>) {
        Ok(self.top_left)
    }

    fn bounding_rect(&self, element: &A) -> (r: Result<ViewPortRect, GeometryError>) {
        Ok(element.bounding_rect())
    }

    fn set_scale(&mut self, element: &A, fix_point: ViewPortPos, new_scale: Scalar) -> (r: Result<
        (),
        GeometryError,
    >) {
        let old_scale = self.scale;
        if old_scale.is_zero() {
            return Err(GeometryError::DivisionByZero);
        }
        let fixpoint_offset_from_top_left = element.bounding_rect().offset(fix_point)?;
        let scale_ratio = new_scale.div(old_scale)?;
        let shrinkage = Scalar::one().sub(scale_ratio)?;
        let fix_point_stabilizing_translation = fixpoint_offset_from_top_left.mul(shrinkage)?;
        let new_top_left = self.top_left.add(fix_point_stabilizing_translation)?;
        self.scale = new_scale;
        self.top_left = new_top_left;
        Ok(())
    }
}

} // verus!
