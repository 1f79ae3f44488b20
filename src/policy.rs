//! Which debug lines are drawn, and in what color.
//!
//! A collider is tied to an application entity through its user data. Two
//! per-entity attachments steer its lines: a `ColliderDebug` marker makes it
//! drawn while the overlay is not global, and a `ColliderDebugColor`
//! replaces the color that the physics engine suggests. Anything else the
//! engine draws (bodies, joints, contacts) is always drawn in its own color.
use std::collections::{HashMap, HashSet};
use vstd::prelude::*;
use crate::physics::{collider_user_data, user_data_of};

verus! {

broadcast use vstd::std_specs::hash::group_hash_axioms;

/// The color a collider's lines are drawn with, whatever the physics engine
/// suggests.
#[derive(Clone, Copy, Debug, PartialEq)]
pub struct ColliderDebugColor<C>(pub C);

/// Marks an entity whose collider is drawn while the overlay is not global.
#[derive(Clone, Copy, Debug, PartialEq, Eq)]
pub struct ColliderDebug;

/// One thing the physics engine draws lines for.
#[derive(Clone, Copy, Debug, PartialEq, Eq)]
pub enum DrawableObject {
    /// A collider, with the entity its user data names, or `None` where the
    /// collider could not be found.
    Collider(Option<u64>),
    /// A rigid body, a joint or a contact.
    Other,
}

/// The entity bits held in the low 64 bits of a collider's user data.
pub open spec fn entity_of(user_data: u128) -> u64 {
    (user_data % 0x1_0000_0000_0000_0000) as u64
}

/// The object that stands for the collider with the given handle parts in a
/// set whose colliders hold `user_data`.
pub open spec fn collider_object(user_data: Map<(u32, u32), u128>, index: u32, generation: u32) -> DrawableObject {
    if user_data.contains_key((index, generation)) {
        DrawableObject::Collider(Some(entity_of(user_data[(index, generation)])))
    } else {
        DrawableObject::Collider(None)
    }
}

impl DrawableObject {
    /// The entity that a collider's user data names.
    pub fn from_user_data(user_data: Option<u128>) -> (r: DrawableObject)
        ensures
            r == DrawableObject::Collider(
                match user_data {
                    Some(u) => Some(entity_of(u)),
                    None => None,
                },
            ),
    {
        match user_data {
            Some(u) => DrawableObject::Collider(Some((u % 0x1_0000_0000_0000_0000u128) as u64)),
            None => DrawableObject::Collider(None),
        }
    }

    /// The object for the collider whose handle has the raw parts
    /// `(index, generation)`, looked up in `colliders`.
    pub fn collider(colliders: &rapier3d::geometry::ColliderSet, index: u32, generation: u32) -> (r: DrawableObject)
        ensures
            r == collider_object(collider_user_data(*colliders), index, generation),
    {
        let user_data = user_data_of(colliders, index, generation);
        DrawableObject::from_user_data(user_data)
    }
}

/// Whether the lines of `object` are drawn: always for what is not a
/// collider; for a collider, when the overlay is global, or else when its
/// entity is marked with `ColliderDebug`.
pub open spec fn is_drawn(global: bool, marked: Set<u64>, object: DrawableObject) -> bool {
    match object {
        DrawableObject::Collider(entity) => global || match entity {
            Some(e) => marked.contains(e),
            None => false,
        },
        DrawableObject::Other => true,
    }
}

/// The color the lines of `object` are drawn with: the entity's
/// `ColliderDebugColor` for a collider that has one, else `default`.
pub open spec fn drawn_color<C>(colors: Map<u64, ColliderDebugColor<C>>, object: DrawableObject, default: C) -> C {
    match object {
        DrawableObject::Collider(Some(e)) => if colors.contains_key(e) {
            colors[e].0
        } else {
            default
        },
        _ => default,
    }
}

/// While the overlay is global, every collider is drawn, whatever entities
/// are marked.
pub proof fn lemma_global_draws_every_collider(marked: Set<u64>, entity: Option<u64>)
    ensures
        is_drawn(true, marked, DrawableObject::Collider(entity)),
{
}

/// While the overlay is not global, a collider is drawn exactly when its
/// entity is marked; one whose entity is unknown is not drawn.
pub proof fn lemma_marked_colliders_drawn(marked: Set<u64>, entity: Option<u64>)
    ensures
        is_drawn(false, marked, DrawableObject::Collider(entity)) <==> (entity is Some
            && marked.contains(entity->0)),
        !is_drawn(false, marked, DrawableObject::Collider(None)),
{
}

/// A collider whose entity has a `ColliderDebugColor` is drawn in that
/// color, whatever color the physics engine suggests.
pub proof fn lemma_custom_color_wins<C>(
    colors: Map<u64, ColliderDebugColor<C>>,
    entity: u64,
    default: C,
)
    requires
        colors.contains_key(entity),
    ensures
        drawn_color(colors, DrawableObject::Collider(Some(entity)), default) == colors[entity].0,
{
}

/// A collider with no `ColliderDebugColor` is drawn in the color the physics
/// engine suggests, unchanged.
pub proof fn lemma_default_color_kept<C>(
    colors: Map<u64, ColliderDebugColor<C>>,
    entity: Option<u64>,
    default: C,
)
    requires
        entity is None || !colors.contains_key(entity->0),
    ensures
        drawn_color(colors, DrawableObject::Collider(entity), default) == default,
{
}

/// What is not a collider is always drawn, in the color the physics engine
/// suggests, whatever the overlay's settings and attachments.
pub proof fn lemma_others_untouched<C>(
    global: bool,
    marked: Set<u64>,
    colors: Map<u64, ColliderDebugColor<C>>,
    default: C,
)
    ensures
        is_drawn(global, marked, DrawableObject::Other),
        drawn_color(colors, DrawableObject::Other, default) == default,
{
}

/// What the overlay knows in one frame: whether it draws every collider, and
/// the entities' attachments.
pub struct OverlayPolicy<C> {
    /// Whether every collider is drawn, marked or not.
    pub global: bool,
    /// The entities marked with `ColliderDebug`.
    pub visible: HashSet<u64>,
    /// The entities' `ColliderDebugColor`s.
    pub custom_colors: HashMap<u64, ColliderDebugColor<C>>,
}

impl<C: Copy> OverlayPolicy<C> {
    /// A policy with no entity marked and no color set.
    pub fn new(global: bool) -> (r: Self)
        ensures
            r.global == global,
            r.visible@ == Set::<u64>::empty(),
            r.custom_colors@ == Map::<u64, ColliderDebugColor<C>>::empty(),
    {
        OverlayPolicy { global, visible: HashSet::new(), custom_colors: HashMap::new() }
    }

    /// Marks `entity` with `ColliderDebug`.
    pub fn mark_visible(&mut self, entity: u64)
        ensures
            final(self).global == old(self).global,
            final(self).visible@ == old(self).visible@.insert(entity),
            final(self).custom_colors@ == old(self).custom_colors@,
    {
        self.visible.insert(entity);
    }

    /// Attaches `color` to `entity`, replacing the color it had.
    pub fn set_color(&mut self, entity: u64, color: ColliderDebugColor<C>)
        ensures
            final(self).global == old(self).global,
            final(self).visible@ == old(self).visible@,
            final(self).custom_colors@ == old(self).custom_colors@.insert(entity, color),
    {
        self.custom_colors.insert(entity, color);
    }

    /// Whether the lines of `object` are drawn.
    pub fn drawing_enabled(&self, object: DrawableObject) -> (r: bool)
        ensures
            r == is_drawn(self.global, self.visible@, object),
    {
        match object {
            DrawableObject::Collider(entity) => {
                if self.global {
                    true
                } else {
                    match entity {
                        Some(e) => self.visible.contains(&e),
                        None => false,
                    }
                }
            },
            DrawableObject::Other => true,
        }
    }

    /// The color the lines of `object` are drawn with, where the physics
    /// engine suggests `default`.
    pub fn object_color(&self, object: DrawableObject, default: C) -> (r: C)
        ensures
            r == drawn_color(self.custom_colors@, object, default),
    {
        match object {
            DrawableObject::Collider(Some(e)) => match self.custom_colors.get(&e) {
                Some(color) => color.0,
                None => default,
            },
            _ => default,
        }
    }

    /// The color to draw one line of `object` with, where the physics engine
    /// suggests `default`, or `None` where the line is not drawn.
    pub fn line_color(&self, object: DrawableObject, default: C) -> (r: Option<C>)
        ensures
            r == (if is_drawn(self.global, self.visible@, object) {
                Some(drawn_color(self.custom_colors@, object, default))
            } else {
                None
            }),
    {
        if !self.drawing_enabled(object) {
            return None;
        }
        Some(self.object_color(object, default))
    }
}

} // verus!
