//! What holds of the geometry for all inputs: an inverse undoes its map, a
//! scale that was set is the scale, and a zoom moves neither the content
//! under the fix point nor the unscaled size of the content.
//!
//! The laws are stated over the real-number model. The executable functions
//! return values whose views are the model's, so a law holds of every result
//! that they return.

use vstd::prelude::*;
use crate::algebra::{
    lemma_cancel_factor, lemma_distribute, lemma_distribute3, lemma_negated_factor,
    lemma_nonzero_factors, lemma_product_quotient, lemma_quotient_cancel,
    lemma_quotient_of_quotient, lemma_quotient_times, lemma_triple,
    lemma_zero_factor,
};
use crate::model::{Affine, RectModel, Vec2, ViewBoxModel, ViewStateModel};

verus! {

/// `(p u + q v + r) m`, where `p m`, `q m` and `r m` are known.
proof fn lemma_combination_scaled(
    p: real,
    q: real,
    r: real,
    m: real,
    pm: real,
    qm: real,
    rm: real,
    u: real,
    v: real,
)
    requires
        p * m == pm,
        q * m == qm,
        r * m == rm,
    ensures
        (p * u + q * v + r) * m == pm * u + qm * v + rm,
{
    lemma_distribute3(p * u, q * v, r, m);
    lemma_triple(p, u, m);
    lemma_triple(q, v, m);
}

/// `(a u + c v + e) m`, where `u m` and `v m` are known.
proof fn lemma_image_scaled(
    a: real,
    c: real,
    e: real,
    m: real,
    u: real,
    v: real,
    um: real,
    vm: real,
)
    requires
        u * m == um,
        v * m == vm,
    ensures
        (a * u + c * v + e) * m == a * um + c * vm + e * m,
{
    lemma_distribute3(a * u, c * v, e, m);
    lemma_triple(a, u, m);
    lemma_triple(c, v, m);
}

/// The adjugate applied to the image of `(x, y)` is the determinant times
/// `(x, y)`: the numerators of the inverse undo the map up to the
/// determinant.
proof fn lemma_adjugate_after_map(
    a: real,
    b: real,
    c: real,
    d: real,
    e: real,
    f: real,
    x: real,
    y: real,
)
    ensures
        d * (a * x + c * y + e) + (-c) * (b * x + d * y + f) + (-(d * e - c * f)) == (a * d - c
            * b) * x,
        (-b) * (a * x + c * y + e) + a * (b * x + d * y + f) + (b * e - a * f) == (a * d - c
            * b) * y,
{
    lemma_distribute3(a * x, c * y, e, d);
    lemma_distribute3(b * x, d * y, f, -c);
    lemma_distribute3(a * x, c * y, e, -b);
    lemma_distribute3(b * x, d * y, f, a);
    lemma_distribute(a * d, c * b, x);
    lemma_distribute(a * d, c * b, y);
    lemma_negated_factor(c, b * x);
    lemma_negated_factor(c, d * y);
    lemma_negated_factor(c, f);
    lemma_negated_factor(b, a * x);
    lemma_negated_factor(b, c * y);
    lemma_negated_factor(b, e);
    lemma_triple(d, a, x);
    lemma_triple(d, c, y);
    lemma_triple(c, b, x);
    lemma_triple(c, d, y);
    lemma_triple(b, a, x);
    lemma_triple(b, c, y);
    lemma_triple(a, b, x);
    lemma_triple(a, d, y);
}

/// The map applied to the adjugate's image of `(x, y)`, with the translation
/// scaled by the determinant, is the determinant times `(x, y)`.
proof fn lemma_map_after_adjugate(
    a: real,
    b: real,
    c: real,
    d: real,
    e: real,
    f: real,
    x: real,
    y: real,
)
    ensures
        a * (d * x + (-c) * y + (-(d * e - c * f))) + c * ((-b) * x + a * y + (b * e - a * f))
            + e * (a * d - c * b) == (a * d - c * b) * x,
        b * (d * x + (-c) * y + (-(d * e - c * f))) + d * ((-b) * x + a * y + (b * e - a * f))
            + f * (a * d - c * b) == (a * d - c * b) * y,
{
    lemma_distribute3(d * x, (-c) * y, -(d * e - c * f), a);
    lemma_distribute3((-b) * x, a * y, b * e - a * f, c);
    lemma_distribute3(d * x, (-c) * y, -(d * e - c * f), b);
    lemma_distribute3((-b) * x, a * y, b * e - a * f, d);
    lemma_distribute(a * d, c * b, x);
    lemma_distribute(a * d, c * b, y);
    lemma_distribute(a * d, c * b, e);
    lemma_distribute(a * d, c * b, f);
    lemma_distribute(d * e, c * f, a);
    lemma_distribute(b * e, a * f, c);
    lemma_distribute(d * e, c * f, b);
    lemma_distribute(b * e, a * f, d);
    lemma_negated_factor(c, y);
    lemma_negated_factor(b, x);
    lemma_negated_factor(a, c * y);
    lemma_negated_factor(c, b * x);
    lemma_negated_factor(b, c * y);
    lemma_negated_factor(d, b * x);
    lemma_triple(a, d, x);
    lemma_triple(a, c, y);
    lemma_triple(c, b, x);
    lemma_triple(c, a, y);
    lemma_triple(b, d, x);
    lemma_triple(b, c, y);
    lemma_triple(d, b, x);
    lemma_triple(d, a, y);
    lemma_triple(a, d, e);
    lemma_triple(a, c, f);
    lemma_triple(c, b, e);
    lemma_triple(c, a, f);
    lemma_triple(b, d, e);
    lemma_triple(b, c, f);
    lemma_triple(d, b, e);
    lemma_triple(d, a, f);
}

/// The coefficients of the inverse, multiplied by the determinant, are the
/// coefficients of the adjugate.
proof fn lemma_inverse_numerators(t: Affine)
    requires
        t.det() != 0real,
    ensures
        t.inverse().a * t.det() == t.d,
        t.inverse().b * t.det() == -t.b,
        t.inverse().c * t.det() == -t.c,
        t.inverse().d * t.det() == t.a,
        t.inverse().e * t.det() == -(t.d * t.e - t.c * t.f),
        t.inverse().f * t.det() == t.b * t.e - t.a * t.f,
{
    let det = t.det();
    lemma_quotient_cancel(t.d, det);
    lemma_quotient_cancel(-t.b, det);
    lemma_quotient_cancel(-t.c, det);
    lemma_quotient_cancel(t.a, det);
    lemma_quotient_cancel(-(t.d * t.e - t.c * t.f), det);
    lemma_quotient_cancel(t.b * t.e - t.a * t.f, det);
}

/// Inverse round-trip: an affine map whose determinant is not zero, followed
/// by its inverse, takes every point back to itself.
pub proof fn lemma_inverse_round_trip(t: Affine, p: Vec2)
    requires
        t.det() != 0real,
    ensures
        t.inverse().apply(t.apply(p)) == p,
{
    let det = t.det();
    let inv = t.inverse();
    let image = t.apply(p);
    let back = inv.apply(image);
    lemma_inverse_numerators(t);
    lemma_combination_scaled(
        inv.a,
        inv.c,
        inv.e,
        det,
        t.d,
        -t.c,
        -(t.d * t.e - t.c * t.f),
        image.x,
        image.y,
    );
    lemma_combination_scaled(
        inv.b,
        inv.d,
        inv.f,
        det,
        -t.b,
        t.a,
        t.b * t.e - t.a * t.f,
        image.x,
        image.y,
    );
    lemma_adjugate_after_map(t.a, t.b, t.c, t.d, t.e, t.f, p.x, p.y);
    lemma_cancel_factor(back.x, p.x, det);
    lemma_cancel_factor(back.y, p.y, det);
}

/// The round-trip the other way: the inverse of an affine map whose
/// determinant is not zero, followed by the map, takes every point back to
/// itself.
pub proof fn lemma_inverse_round_trip_back(t: Affine, q: Vec2)
    requires
        t.det() != 0real,
    ensures
        t.apply(t.inverse().apply(q)) == q,
{
    let det = t.det();
    let inv = t.inverse();
    let image = inv.apply(q);
    let back = t.apply(image);
    let numerator_x = t.d * q.x + (-t.c) * q.y + (-(t.d * t.e - t.c * t.f));
    let numerator_y = (-t.b) * q.x + t.a * q.y + (t.b * t.e - t.a * t.f);
    lemma_inverse_numerators(t);
    lemma_combination_scaled(
        inv.a,
        inv.c,
        inv.e,
        det,
        t.d,
        -t.c,
        -(t.d * t.e - t.c * t.f),
        q.x,
        q.y,
    );
    lemma_combination_scaled(
        inv.b,
        inv.d,
        inv.f,
        det,
        -t.b,
        t.a,
        t.b * t.e - t.a * t.f,
        q.x,
        q.y,
    );
    lemma_image_scaled(t.a, t.c, t.e, det, image.x, image.y, numerator_x, numerator_y);
    lemma_image_scaled(t.b, t.d, t.f, det, image.x, image.y, numerator_x, numerator_y);
    lemma_map_after_adjugate(t.a, t.b, t.c, t.d, t.e, t.f, q.x, q.y);
    lemma_cancel_factor(back.x, q.x, det);
    lemma_cancel_factor(back.y, q.y, det);
}

/// Scale invariant: after the scale of a view box is set to a positive
/// `s`, its scale is `s`, and its window has the content's proportions. This
/// holds where the content has a width or a height.
pub proof fn lemma_scale_is_set(view_box: ViewBoxModel, s: real)
    requires
        view_box.content_box.valid(),
        view_box.content_box.width() > 0real || view_box.content_box.height() > 0real,
        s > 0real,
    ensures
        view_box.with_scale(s).scale() == s,
        view_box.with_scale(s).proportional(),
{
    let content = view_box.content_box;
    lemma_quotient_cancel(content.height(), s);
    lemma_quotient_cancel(content.width(), s);
    if content.width() != 0real {
        lemma_quotient_of_quotient(content.width(), s);
    }
    if content.height() != 0real {
        lemma_quotient_of_quotient(content.height(), s);
    }
}

/// Moving the window changes neither the scale nor the proportions.
pub proof fn lemma_scale_ignores_position(view_box: ViewBoxModel, p: Vec2)
    ensures
        view_box.with_top_left(p).scale() == view_box.scale(),
        view_box.with_top_left(p).proportional() == view_box.proportional(),
{
}

/// Unscaled-dimension invariance for a view box: a zoom to a positive
/// scale leaves the unscaled dimensions as they were, which are the
/// content's. After it the scale is the new scale, and the window has the
/// content's proportions again. This holds where the window had the
/// content's proportions and the content has a width or a height.
pub proof fn lemma_view_box_unscaled_dimensions_kept(
    view_box: ViewBoxModel,
    to_content: Affine,
    fix_point: Vec2,
    new_scale: real,
)
    requires
        view_box.content_box.valid(),
        view_box.content_box.width() > 0real || view_box.content_box.height() > 0real,
        view_box.proportional(),
        new_scale > 0real,
    ensures
        view_box.zoomed(to_content, fix_point, new_scale).unscaled_dimensions()
            == view_box.unscaled_dimensions(),
        view_box.zoomed(to_content, fix_point, new_scale).scale() == new_scale,
        view_box.zoomed(to_content, fix_point, new_scale).proportional(),
{
    let fixed = to_content.apply(fix_point);
    let offset = fixed.minus(view_box.view_box.top_left);
    let moved = view_box.with_top_left(fixed.minus(offset.times(view_box.scale() / new_scale)));
    lemma_scale_is_set(moved, new_scale);
}

/// One axis of a map that carries a window onto a frame: the factor times
/// the window's extent is the frame's extent. Where the window's extent
/// times `scale` is the content's, the factor times the content's extent is
/// the frame's extent times `scale`.
proof fn lemma_axis_factor(
    a: real,
    e: real,
    origin: real,
    extent: real,
    frame_origin: real,
    frame_extent: real,
    scale: real,
    content_extent: real,
)
    requires
        a * origin + e == frame_origin,
        a * (origin + extent) + e == frame_origin + frame_extent,
        extent * scale == content_extent,
    ensures
        a * extent == frame_extent,
        a * content_extent == frame_extent * scale,
{
    lemma_distribute(origin, extent, a);
    lemma_triple(a, extent, scale);
}

/// The factor after the zoom, times the ratio of the scales, is the factor
/// before it.
proof fn lemma_axis_factors_related(
    a: real,
    a2: real,
    k: real,
    old: real,
    new: real,
    frame_extent: real,
    content_extent: real,
)
    requires
        a * content_extent == frame_extent * old,
        a2 * content_extent == frame_extent * new,
        k * new == old,
        content_extent != 0real,
    ensures
        a2 * k == a,
{
    lemma_triple(a2, k, content_extent);
    lemma_triple(frame_extent, new, k);
    lemma_cancel_factor(a2 * k, a, content_extent);
}

/// One axis of the fix-point property: the content coordinate `fixed` is
/// shown at `fix_point` before and after.
proof fn lemma_axis_fixed(
    a: real,
    e: real,
    a2: real,
    e2: real,
    k: real,
    origin: real,
    new_origin: real,
    fixed: real,
    fix_point: real,
    frame_origin: real,
)
    requires
        a * origin + e == frame_origin,
        a * fixed + e == fix_point,
        a2 * new_origin + e2 == frame_origin,
        new_origin == fixed - (fixed - origin) * k,
        a2 * k == a,
    ensures
        a2 * fixed + e2 == fix_point,
{
    lemma_distribute(fixed, (fixed - origin) * k, a2);
    lemma_triple(a2, fixed - origin, k);
    lemma_distribute(fixed, origin, a);
}

/// Fix-point stability for a view box. Let the renderer show the window in
/// the rectangle `frame` of the view port, before the zoom by the map
/// `before` and after it by the map `after`. Then the content point that lay
/// under `fix_point` before the zoom lies under it afterwards, and the fix
/// point lies at the same place of the bounding rectangle, relative to its
/// size, as before. This holds where the content and the frame have a width
/// and a height, the window had the content's proportions, and the new scale
/// is positive.
pub proof fn lemma_view_box_fix_point(
    view_box: ViewBoxModel,
    before: Affine,
    after: Affine,
    frame: RectModel,
    fix_point: Vec2,
    new_scale: real,
)
    requires
        view_box.content_box.width() > 0real,
        view_box.content_box.height() > 0real,
        view_box.proportional(),
        new_scale > 0real,
        frame.width() > 0real,
        frame.height() > 0real,
        before.carries(view_box.view_box, frame),
        after.carries(view_box.zoomed(before.inverse(), fix_point, new_scale).view_box, frame),
    ensures
        ({
            let zoomed = view_box.zoomed(before.inverse(), fix_point, new_scale);
            &&& after.apply(before.inverse().apply(fix_point)) == fix_point
            &&& zoomed.bounding_rect(after).relative_offset(fix_point) == view_box.bounding_rect(
                before,
            ).relative_offset(fix_point)
        }),
{
    let zoomed = view_box.zoomed(before.inverse(), fix_point, new_scale);
    let window = view_box.view_box;
    let new_window = zoomed.view_box;
    let content = view_box.content_box;
    let old = view_box.scale();
    let k = old / new_scale;
    let fixed = before.inverse().apply(fix_point);
    lemma_quotient_cancel(old, new_scale);
    lemma_quotient_cancel(content.width(), new_scale);
    lemma_quotient_cancel(content.height(), new_scale);
    lemma_axis_factor(
        before.a,
        before.e,
        window.left(),
        window.width(),
        frame.left(),
        frame.width(),
        old,
        content.width(),
    );
    lemma_axis_factor(
        before.d,
        before.f,
        window.top(),
        window.height(),
        frame.top(),
        frame.height(),
        old,
        content.height(),
    );
    lemma_axis_factor(
        after.a,
        after.e,
        new_window.left(),
        new_window.width(),
        frame.left(),
        frame.width(),
        new_scale,
        content.width(),
    );
    lemma_axis_factor(
        after.d,
        after.f,
        new_window.top(),
        new_window.height(),
        frame.top(),
        frame.height(),
        new_scale,
        content.height(),
    );
    lemma_nonzero_factors(before.a, window.width());
    lemma_nonzero_factors(before.d, window.height());
    lemma_nonzero_factors(after.a, new_window.width());
    lemma_nonzero_factors(after.d, new_window.height());
    lemma_nonzero_factors(before.a, before.d);
    lemma_zero_factor(before.c, before.b);
    lemma_inverse_round_trip_back(before, fix_point);
    lemma_axis_factors_related(
        before.a,
        after.a,
        k,
        old,
        new_scale,
        frame.width(),
        content.width(),
    );
    lemma_axis_factors_related(
        before.d,
        after.d,
        k,
        old,
        new_scale,
        frame.height(),
        content.height(),
    );
    lemma_axis_fixed(
        before.a,
        before.e,
        after.a,
        after.e,
        k,
        window.left(),
        new_window.left(),
        fixed.x,
        fix_point.x,
        frame.left(),
    );
    lemma_axis_fixed(
        before.d,
        before.f,
        after.d,
        after.f,
        k,
        window.top(),
        new_window.top(),
        fixed.y,
        fix_point.y,
        frame.top(),
    );
}

/// Unscaled-dimension invariance for a translated and scaled element: a
/// zoom from a scale that is not zero to another leaves the unscaled
/// dimensions as they were, which are those of the layout. The element is
/// rendered from the same layout before and after.
pub proof fn lemma_view_state_unscaled_dimensions_kept(
    state: ViewStateModel,
    layout: RectModel,
    fix_point: Vec2,
    new_scale: real,
)
    requires
        state.scale != 0real,
        new_scale != 0real,
    ensures
        ({
            let before = state.rendered(layout);
            let zoomed = state.zoomed(before, fix_point, new_scale);
            &&& state.unscaled_dimensions(before) == layout.dimensions
            &&& zoomed.unscaled_dimensions(zoomed.rendered(layout)) == layout.dimensions
        }),
{
    lemma_product_quotient(layout.dimensions.x, state.scale);
    lemma_product_quotient(layout.dimensions.y, state.scale);
    lemma_product_quotient(layout.dimensions.x, new_scale);
    lemma_product_quotient(layout.dimensions.y, new_scale);
}

/// One axis of the zoom of a translated and scaled element. `offset` is the
/// offset of the fix point from the element's corner before the zoom, and
/// `extent` the extent of the layout.
proof fn lemma_view_state_axis(offset: real, extent: real, old: real, new: real)
    requires
        old != 0real,
        new != 0real,
        extent != 0real,
    ensures
        ({
            let new_offset = offset - offset * (1real - new / old);
            &&& new_offset == offset / old * new
            &&& new_offset / (extent * new) == offset / (extent * old)
        }),
{
    let ratio = new / old;
    let new_offset = offset - offset * (1real - ratio);
    lemma_distribute(1real, ratio, offset);
    lemma_quotient_times(offset, old, new);
    assert(new_offset == offset * ratio);
    // both quotients are offset / (extent old)
    lemma_quotient_cancel(new, old);
    lemma_triple(offset, ratio, old);
    assert(new_offset * old == offset * new);
    lemma_same_fraction(new_offset, offset, extent, old, new);
}

/// Two offsets that are as the scales are the same fraction of the scaled
/// extent.
proof fn lemma_same_fraction(p: real, q: real, extent: real, old: real, new: real)
    by (nonlinear_arith)
    requires
        p * old == q * new,
        extent != 0real,
        old != 0real,
        new != 0real,
    ensures
        p / (extent * new) == q / (extent * old),
{
}

/// Fix-point stability for a translated and scaled element: after a zoom
/// around `fix_point`, the point of the layout that lay under the fix point
/// lies under it again, and the fix point lies at the same place of the
/// element's rectangle, relative to its size, as before. The element is
/// rendered from the same layout, of a size that is not zero, before and
/// after, and neither scale is zero.
pub proof fn lemma_view_state_fix_point(
    state: ViewStateModel,
    layout: RectModel,
    fix_point: Vec2,
    new_scale: real,
)
    requires
        state.scale != 0real,
        new_scale != 0real,
        layout.width() != 0real,
        layout.height() != 0real,
    ensures
        ({
            let before = state.rendered(layout);
            let zoomed = state.zoomed(before, fix_point, new_scale);
            let after = zoomed.rendered(layout);
            let unscaled_offset = before.offset(fix_point).over(state.scale);
            &&& after.top_left.plus(unscaled_offset.times(new_scale)) == fix_point
            &&& after.relative_offset(fix_point) == before.relative_offset(fix_point)
        }),
{
    let before = state.rendered(layout);
    let offset = before.offset(fix_point);
    lemma_view_state_axis(offset.x, layout.width(), state.scale, new_scale);
    lemma_view_state_axis(offset.y, layout.height(), state.scale, new_scale);
}

/// One axis of a step: the content coordinate under the pointer.
proof fn lemma_step_axis(origin: real, extent: real, size: real, pointer: real, zoom: real)
    requires
        size != 0real,
    ensures
        (origin - extent * zoom / size * pointer) + (extent + extent * zoom) * (pointer / size)
            == origin + extent * (pointer / size),
{
    lemma_quotient_times(extent * zoom, size, pointer);
    lemma_distribute(extent, extent * zoom, pointer / size);
}

/// A step of a window keeps the content point under the pointer in place,
/// where the element that shows the window has a width and a height.
pub proof fn lemma_step_keeps_point_under_pointer(
    window: RectModel,
    size: Vec2,
    pointer: Vec2,
    zoom: real,
)
    requires
        size.x != 0real,
        size.y != 0real,
    ensures
        window.stepped(size, pointer, zoom).point_under(size, pointer) == window.point_under(
            size,
            pointer,
        ),
{
    lemma_step_axis(window.top_left.x, window.dimensions.x, size.x, pointer.x, zoom);
    lemma_step_axis(window.top_left.y, window.dimensions.y, size.y, pointer.y, zoom);
}

} // verus!
