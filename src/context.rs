//! The debug-render settings, and the frame pass that keeps the pipeline's
//! style as the user left it.
use rapier3d::pipeline::{DebugRenderMode, DebugRenderPipeline, DebugRenderStyle};
use vstd::prelude::*;
use crate::physics::{
    is_stock_style, mode_bits, pipeline_mode, pipeline_style, set_style, style_of, style_subdivisions,
    subdivisions_of,
};
use crate::policy::OverlayPolicy;

verus! {

/// The settings the debug renderer starts with.
pub struct RapierDebugRenderPlugin {
    /// Whether every collider is drawn, or only those of entities marked
    /// with `ColliderDebug`.
    pub global: bool,
    /// Whether debug rendering is on.
    pub enabled: bool,
    /// How the lines are colored and sized.
    pub style: DebugRenderStyle,
    /// Which parts of the physics scene are drawn.
    pub mode: DebugRenderMode,
}

impl Default for RapierDebugRenderPlugin {
    /// On, global, with rapier's default style, drawing every part of the
    /// scene.
    fn default() -> (r: Self)
        ensures
            r.enabled,
            r.global,
            is_stock_style(r.style),
            style_subdivisions(r.style) == 20,
            mode_bits(r.mode) == 127,
    {
        RapierDebugRenderPlugin {
            enabled: true,
            global: true,
            style: DebugRenderStyle::default(),
            mode: DebugRenderMode::all(),
        }
    }
}

impl RapierDebugRenderPlugin {
    /// The same settings, with rendering off to begin with.
    pub fn disabled(self) -> (r: Self)
        ensures
            !r.enabled,
            r.global == self.global,
            r.style == self.style,
            r.mode == self.mode,
    {
        let mut r = self;
        r.enabled = false;
        r
    }

    /// The render context these settings start a session with. The style
    /// needs at least one subdivision to outline curved shapes with.
    pub fn context(&self) -> (r: DebugRenderContext)
        requires
            style_subdivisions(self.style) > 0,
        ensures
            r.enabled == self.enabled,
            r.global == self.global,
            pipeline_style(r.pipeline) == self.style,
            pipeline_mode(r.pipeline) == self.mode,
    {
        DebugRenderContext {
            enabled: self.enabled,
            global: self.global,
            pipeline: DebugRenderPipeline::new(self.style, self.mode),
        }
    }
}

impl RapierDebugRenderPlugin {
    /// The render context these settings start a session with, or `None`
    /// where the style has no subdivisions to outline curved shapes with.
    pub fn try_context(&self) -> (r: Option<DebugRenderContext>)
        ensures
            r is None <==> style_subdivisions(self.style) == 0,
            r matches Some(c) ==> {
                &&& c.enabled == self.enabled
                &&& c.global == self.global
                &&& pipeline_style(c.pipeline) == self.style
                &&& pipeline_mode(c.pipeline) == self.mode
            },
    {
        if subdivisions_of(&self.style) == 0 {
            return None;
        }
        Some(self.context())
    }
}

/// The debug renderer's settings while it runs.
pub struct DebugRenderContext {
    /// Whether debug rendering is on.
    pub enabled: bool,
    /// Whether every collider is drawn, or only those of entities marked
    /// with `ColliderDebug`.
    pub global: bool,
    /// The pipeline that turns the physics scene into lines; its `style` and
    /// `mode` fields may be changed between frames.
    pub pipeline: DebugRenderPipeline,
}

impl Default for DebugRenderContext {
    /// On, global, with rapier's default pipeline: the default style, and
    /// collider shapes, rigid-body axes and joints drawn.
    fn default() -> (r: Self)
        ensures
            r.enabled,
            r.global,
            is_stock_style(pipeline_style(r.pipeline)),
            style_subdivisions(pipeline_style(r.pipeline)) == 20,
            mode_bits(pipeline_mode(r.pipeline)) == 15,
    {
        DebugRenderContext { enabled: true, global: true, pipeline: DebugRenderPipeline::default() }
    }
}

/// What a frame starts from: nothing where rendering is off, else the
/// pipeline's style as the user set it.
pub open spec fn frame_start(ctx: DebugRenderContext) -> Option<DebugRenderStyle> {
    if ctx.enabled {
        Some(pipeline_style(ctx.pipeline))
    } else {
        None
    }
}

/// `after` is `during` with the style `saved` put back into its pipeline.
pub open spec fn frame_end(during: DebugRenderContext, saved: DebugRenderStyle, after: DebugRenderContext) -> bool {
    &&& after.enabled == during.enabled
    &&& after.global == during.global
    &&& pipeline_style(after.pipeline) == saved
    &&& pipeline_mode(after.pipeline) == pipeline_mode(during.pipeline)
}

impl DebugRenderContext {
    /// Starts a frame. Returns `None` where rendering is off, and then the
    /// frame draws nothing; otherwise the style to put back once the
    /// pipeline, whose style may be rescaled meanwhile, has rendered.
    pub fn begin_frame(&self) -> (r: Option<DebugRenderStyle>)
        ensures
            r == frame_start(*self),
            r is None <==> !self.enabled,
    {
        if !self.enabled {
            return None;
        }
        Some(style_of(&self.pipeline))
    }

    /// Ends a frame: puts the style `saved` back into the pipeline.
    pub fn end_frame(&mut self, saved: DebugRenderStyle)
        ensures
            frame_end(*old(self), saved, *final(self)),
    {
        set_style(&mut self.pipeline, saved);
    }

    /// The policy for one frame: global as this context is, with no entity
    /// marked and no color set yet.
    pub fn policy<C: Copy>(&self) -> (r: OverlayPolicy<C>)
        ensures
            r.global == self.global,
            r.visible@ == Set::<u64>::empty(),
            r.custom_colors@ == Map::<u64, crate::policy::ColliderDebugColor<C>>::empty(),
    {
        OverlayPolicy::new(self.global)
    }
}

/// A frame leaves the pipeline's style as it found it: whatever was done to
/// the style between `begin_frame` and `end_frame`, the style afterwards is
/// the one before. Where rendering is off, `begin_frame` returns `None` and
/// the frame changes nothing.
pub proof fn lemma_frame_restores_style(
    before: DebugRenderContext,
    saved: DebugRenderStyle,
    during: DebugRenderContext,
    after: DebugRenderContext,
)
    requires
        frame_start(before) == Some(saved),
        frame_end(during, saved, after),
    ensures
        pipeline_style(after.pipeline) == pipeline_style(before.pipeline),
{
}

} // verus!
