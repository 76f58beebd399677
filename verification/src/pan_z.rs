//! The zoom controller: from a wheel event to the new state of the view.

use vstd::prelude::*;
use crate::algebra::lemma_grown_extent;
use crate::arith::{lemma_ratio_ordered, lemma_ratio_whole, ratio};
use crate::error::{computed, GeometryError};
use crate::model::{max_real, Vec2};
use crate::scalar::{exact, in_range, representable, Scalar};
use crate::screen_geom::{Positioned, ViewPortPos};
use crate::state::PanZoomState;
use crate::svg::SvgRect;

verus! {

/// The percentage of zoom that one unit of wheel movement gives: `0.05`.
pub open spec fn zoom_speed() -> real {
    ratio(1, 20)
}

/// The zoom in percent that a wheel movement of `delta_y` asks for. Turning
/// the wheel away from the user, a negative movement, zooms in.
pub open spec fn zoom_percent(delta_y: real) -> real {
    (-delta_y) * zoom_speed()
}

/// The scale after a zoom by `zoom_amount` percent: the old scale grown by
/// that percentage, and never below zero.
pub open spec fn zoomed_scale(old_scale: real, zoom_amount: real) -> real {
    max_real(old_scale * (1real + zoom_amount / 100real), 0real)
}

/// Whether every value met while computing [`zoomed_scale`] is
/// representable.
pub open spec fn zoomed_scale_fits(old_scale: real, zoom_amount: real) -> bool {
    &&& representable(zoom_amount / 100real)
    &&& representable(1real + zoom_amount / 100real)
    &&& representable(old_scale * (1real + zoom_amount / 100real))
}

/// The percentage of zoom that one unit of wheel movement gives.
pub fn zoom_speed_factor() -> (r: Scalar)
    ensures
        r@ == zoom_speed(),
{
    proof {
        assert(in_range(1, 20));
    }
    Scalar::new(1, 20).unwrap()
}

/// The zoom in percent that a wheel movement of `delta_y` asks for.
pub fn zoom_amount(delta_y: Scalar) -> (r: Result<Scalar, GeometryError>)
    ensures
        exact(r, zoom_percent(delta_y@)),
{
    delta_y.neg().mul(zoom_speed_factor())
}

/// The scale after a zoom by `zoom_amount` percent.
pub fn new_scale(old_scale: Scalar, zoom_amount: Scalar) -> (r: Result<Scalar, GeometryError>)
    ensures
        computed(
            r,
            zoomed_scale(old_scale@, zoom_amount@),
            zoomed_scale_fits(old_scale@, zoom_amount@),
        ),
        r matches Ok(s) ==> s@ >= 0real,
{
    proof {
        lemma_ratio_whole(100);
    }
    let fraction = zoom_amount.div(Scalar::from_int(100))?;
    let growth = Scalar::one().add(fraction)?;
    let scaled = old_scale.mul(growth)?;
    Ok(scaled.max(Scalar::zero()))
}

/// The fraction of its extent by which one turn of the wheel grows or
/// shrinks a window: a fifth, with the sign of the wheel's movement, where no
/// movement counts as positive.
pub open spec fn step_fraction(delta_y: real) -> real {
    if delta_y < 0real {
        ratio(-1, 5)
    } else {
        ratio(1, 5)
    }
}

/// The window after one turn of the wheel over an element of extent `size`,
/// with the pointer at the offset `pointer` from the element's corner: the
/// window grows by a fifth of its extent when the wheel turns towards the
/// user and shrinks by a fifth when it turns away, and the content point
/// under the pointer stays where it is. Fails with `DivisionByZero` exactly
/// when the element has no width or no height.
pub fn step_window(
    window: SvgRect,
    size: (Scalar, Scalar),
    pointer: (Scalar, Scalar),
    delta_y: Scalar,
) -> (r: Result<SvgRect, GeometryError>)
    ensures
        size.0@ == 0real || size.1@ == 0real ==> r == Err::<SvgRect, GeometryError>(
            GeometryError::DivisionByZero,
        ),
        size.0@ != 0real && size.1@ != 0real ==> computed(
            r,
            window@.stepped(
                Vec2 { x: size.0@, y: size.1@ },
                Vec2 { x: pointer.0@, y: pointer.1@ },
                step_fraction(delta_y@),
            ),
            window@.step_fits(
                Vec2 { x: size.0@, y: size.1@ },
                Vec2 { x: pointer.0@, y: pointer.1@ },
                step_fraction(delta_y@),
            ),
        ),
{
    proof {
        assert(in_range(1, 5) && in_range(-1, 5));
        lemma_ratio_ordered(-1, 1, -1, 5);
        lemma_ratio_ordered(-1, 1, 1, 5);
        lemma_ratio_whole(-1);
    }
    let zoom = if delta_y.is_negative() {
        Scalar::new(-1, 5).unwrap()
    } else {
        Scalar::new(1, 5).unwrap()
    };
    let extent = window.dimensions();
    proof {
        lemma_grown_extent(extent@.x, zoom@);
        lemma_grown_extent(extent@.y, zoom@);
    }
    window.stepped(size, pointer, zoom)
}

/// A turn of the mouse wheel: where the pointer was, how far the wheel
/// turned, and whether the control key was held, which tells a zoom from a
/// pan.
#[derive(Debug, Clone, Copy, PartialEq, Eq, Structural)]
pub struct WheelInput {
    pub pos: ViewPortPos,
    pub delta_y: Scalar,
    pub ctrl_key: bool,
}

impl Positioned for WheelInput {
    open spec fn position(&self) -> Vec2 {
        self.pos@
    }

    fn pos(&self) -> (p: ViewPortPos) {
        self.pos
    }
}

/// A pointer event: where the pointer was.
#[derive(Debug, Clone, Copy, PartialEq, Eq, Structural)]
pub struct PointerInput {
    pub pos: ViewPortPos,
}

impl Positioned for PointerInput {
    open spec fn position(&self) -> Vec2 {
        self.pos@
    }

    fn pos(&self) -> (p: ViewPortPos) {
        self.pos
    }
}

/// What a wheel event led to.
#[derive(Debug, Clone, Copy, PartialEq, Eq, Structural)]
pub enum WheelAction {
    /// The scale was changed around the pointer's position.
    Zoomed,
    /// The event asked for a zoom of nothing: the state is as it was.
    Unchanged,
    /// The control key was not held: the event asks for a pan, which is left
    /// to the caller. The state is as it was.
    Pan,
}

/// A result with its value forgotten.
pub open spec fn without_value(r: Result<WheelAction, GeometryError>) -> Result<(), GeometryError> {
    match r {
        Ok(_) => Ok(()),
        Err(e) => Err(e),
    }
}

/// Whether `r` and `after` are what [`handle_wheel`] returns and leaves when
/// it meets the state `before`.
pub open spec fn wheel_outcome<A, PZ: PanZoomState<A>>(
    before: PZ,
    element: &A,
    event: WheelInput,
    after: PZ,
    r: Result<WheelAction, GeometryError>,
) -> bool {
    let amount = zoom_percent(event.delta_y@);
    if !event.ctrl_key {
        r == Ok::<WheelAction, GeometryError>(WheelAction::Pan) && after == before
    } else if !representable(amount) {
        r == Err::<WheelAction, GeometryError>(GeometryError::Overflow) && after == before
    } else if amount == 0real {
        r == Ok::<WheelAction, GeometryError>(WheelAction::Unchanged) && after == before
    } else {
        match before.scale_result() {
            Err(e) => r == Err::<WheelAction, GeometryError>(e) && after == before,
            Ok(old_scale) => if !zoomed_scale_fits(old_scale, amount) {
                r == Err::<WheelAction, GeometryError>(GeometryError::Overflow) && after == before
            } else {
                &&& before.set_scale_result(
                    element,
                    event.pos@,
                    zoomed_scale(old_scale, amount),
                    after,
                    without_value(r),
                )
                &&& r is Ok ==> r == Ok::<WheelAction, GeometryError>(WheelAction::Zoomed)
                &&& r is Err ==> after == before
            },
        }
    }
}

/// Handles one wheel event. With the control key held, the event zooms: the
/// scale grows by `-delta_y * 0.05` percent, not below zero, and the state is
/// changed so that the content under the pointer stays where it is. Without
/// it the event is a pan, which this function reports and does not perform.
/// On failure the state is left as it was.
pub fn handle_wheel<A, PZ: PanZoomState<A>>(state: &mut PZ, element: &A, event: &WheelInput) -> (r:
    Result<WheelAction, GeometryError>)
    ensures
        wheel_outcome(*old(state), element, *event, *final(state), r),
{
    if !event.ctrl_key {
        return Ok(WheelAction::Pan);
    }
    let fix_point = event.pos();
    let amount = zoom_amount(event.delta_y)?;
    if amount.is_zero() {
        return Ok(WheelAction::Unchanged);
    }
    let old_scale = state.scale()?;
    let scale = new_scale(old_scale, amount)?;
    state.set_scale(element, fix_point, scale)?;
    Ok(WheelAction::Zoomed)
}

} // verus!
