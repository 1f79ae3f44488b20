//! The rapier items that the library relies on, with what it assumes of them.
use vstd::prelude::*;

verus! {

#[verifier::external_type_specification]
#[verifier::external_body]
pub struct ExDebugRenderPipeline(rapier3d::pipeline::DebugRenderPipeline);

#[verifier::external_type_specification]
#[verifier::external_body]
pub struct ExDebugRenderStyle(rapier3d::pipeline::DebugRenderStyle);

#[verifier::external_type_specification]
#[verifier::external_body]
pub struct ExDebugRenderMode(rapier3d::pipeline::DebugRenderMode);

#[verifier::external_type_specification]
#[verifier::external_body]
pub struct ExColliderSet(rapier3d::geometry::ColliderSet);

/// The style that a debug-render pipeline colors and sizes its lines with
/// (its public `style` field).
pub uninterp spec fn pipeline_style(
    p: rapier3d::pipeline::DebugRenderPipeline,
) -> rapier3d::pipeline::DebugRenderStyle;

/// The flags that select what a debug-render pipeline draws (its public
/// `mode` field).
pub uninterp spec fn pipeline_mode(
    p: rapier3d::pipeline::DebugRenderPipeline,
) -> rapier3d::pipeline::DebugRenderMode;

/// The colliders of a collider set: the `user_data` of each one, keyed by
/// the raw parts (index, generation) of its handle.
pub uninterp spec fn collider_user_data(
    s: rapier3d::geometry::ColliderSet,
) -> Map<(u32, u32), u128>;

/// The number of segments a style approximates curved outlines with (its
/// public `subdivisions` field).
pub uninterp spec fn style_subdivisions(s: rapier3d::pipeline::DebugRenderStyle) -> u32;

/// Whether a style is the one `DebugRenderStyle::default` returns, which is
/// a constant.
pub uninterp spec fn is_stock_style(s: rapier3d::pipeline::DebugRenderStyle) -> bool;

/// The flag bits of a render mode (what its `bits` method returns).
pub uninterp spec fn mode_bits(m: rapier3d::pipeline::DebugRenderMode) -> u32;

/// Relies on rapier's `DebugRenderStyle::default`, the stock line style,
/// which uses 20 subdivisions.
pub assume_specification[ <rapier3d::pipeline::DebugRenderStyle as core::default::Default>::default ]() -> (r: rapier3d::pipeline::DebugRenderStyle)
    ensures
        is_stock_style(r),
        style_subdivisions(r) == 20,
;

/// Relies on rapier's `DebugRenderMode::default`: collider shapes, rigid-body
/// axes and both kinds of joints, the bits `1 | 2 | 4 | 8`.
pub assume_specification[ <rapier3d::pipeline::DebugRenderMode as core::default::Default>::default ]() -> (r: rapier3d::pipeline::DebugRenderMode)
    ensures
        mode_bits(r) == 15,
;

/// Relies on `DebugRenderMode::all`, written by `bitflags!`: every flag the
/// mode declares, the bits `1` to `1 << 6`.
pub assume_specification[ rapier3d::pipeline::DebugRenderMode::all ]() -> (r: rapier3d::pipeline::DebugRenderMode)
    ensures
        mode_bits(r) == 127,
;

/// Relies on rapier's `DebugRenderPipeline::new`: it stores the style and
/// the mode it is given in its public fields. It builds outlines with the
/// style's subdivisions, and panics where there are none.
pub assume_specification[ rapier3d::pipeline::DebugRenderPipeline::new ](
    style: rapier3d::pipeline::DebugRenderStyle,
    mode: rapier3d::pipeline::DebugRenderMode,
) -> (r: rapier3d::pipeline::DebugRenderPipeline)
    requires
        style_subdivisions(style) > 0,
    ensures
        pipeline_style(r) == style,
        pipeline_mode(r) == mode,
;

/// Relies on rapier's `DebugRenderPipeline::default`: a pipeline built by
/// `DebugRenderPipeline::new` from the default style and mode.
pub assume_specification[ <rapier3d::pipeline::DebugRenderPipeline as core::default::Default>::default ]() -> (r: rapier3d::pipeline::DebugRenderPipeline)
    ensures
        is_stock_style(pipeline_style(r)),
        style_subdivisions(pipeline_style(r)) == 20,
        mode_bits(pipeline_mode(r)) == 15,
;

/// Reads the public `subdivisions` field of a rapier `DebugRenderStyle`.
#[verifier::external_body]
pub(crate) fn subdivisions_of(s: &rapier3d::pipeline::DebugRenderStyle) -> (r: u32)
    ensures
        r == style_subdivisions(*s),
{
    s.subdivisions
}

/// Reads the public `style` field of a rapier `DebugRenderPipeline`.
#[verifier::external_body]
pub(crate) fn style_of(p: &rapier3d::pipeline::DebugRenderPipeline) -> (r:
    rapier3d::pipeline::DebugRenderStyle)
    ensures
        r == pipeline_style(*p),
{
    p.style
}

/// Writes the public `style` field of a rapier `DebugRenderPipeline`; its
/// `mode` field is left as it was.
#[verifier::external_body]
pub(crate) fn set_style(
    p: &mut rapier3d::pipeline::DebugRenderPipeline,
    style: rapier3d::pipeline::DebugRenderStyle,
)
    ensures
        pipeline_style(*final(p)) == style,
        pipeline_mode(*final(p)) == pipeline_mode(*old(p)),
{
    p.style = style;
}

/// Relies on rapier's `ColliderSet::get` with the handle made by
/// `ColliderHandle::from_raw_parts`: the collider that the handle names,
/// if the set holds it, whose public `user_data` field is returned.
#[verifier::external_body]
pub(crate) fn user_data_of(
    colliders: &rapier3d::geometry::ColliderSet,
    index: u32,
    generation: u32,
) -> (r: Option<u128>)
    ensures
        r == (if collider_user_data(*colliders).contains_key((index, generation)) {
            Some(collider_user_data(*colliders)[(index, generation)])
        } else {
            None
        }),
{
    let handle = rapier3d::geometry::ColliderHandle::from_raw_parts(index, generation);
    colliders.get(handle).map(|co| co.user_data)
}

} // verus!
