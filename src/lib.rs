//! Debug rendering of a rapier physics scene: which lines get drawn and in
//! what color, and how the render context keeps its style across a frame.
pub mod context;
pub mod physics;
pub mod policy;

pub use context::{DebugRenderContext, RapierDebugRenderPlugin};
pub use policy::{ColliderDebug, ColliderDebugColor, DrawableObject, OverlayPolicy};
pub use rapier3d::pipeline::{DebugRenderMode, DebugRenderStyle};
