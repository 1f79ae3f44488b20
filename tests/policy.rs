use rapier3d::geometry::{ColliderBuilder, ColliderSet};
use rapier_debug_render::{ColliderDebugColor, DrawableObject, OverlayPolicy};

const RED: [f32; 4] = [0.0, 1.0, 0.5, 1.0];
const BLUE: [f32; 4] = [240.0, 1.0, 0.5, 1.0];
const SUGGESTED: [f32; 4] = [120.0, 0.5, 0.25, 1.0];

fn scenario_policy() -> OverlayPolicy<[f32; 4]> {
    let mut policy = OverlayPolicy::new(false);
    policy.mark_visible(7);
    policy.set_color(7, ColliderDebugColor(RED));
    policy
}

#[test]
fn marked_entity_with_color_is_drawn_in_it() {
    let policy = scenario_policy();
    let a = DrawableObject::Collider(Some(7));
    assert!(policy.drawing_enabled(a));
    assert_eq!(policy.object_color(a, SUGGESTED), RED);
    assert_eq!(policy.line_color(a, SUGGESTED), Some(RED));
    let b = DrawableObject::Collider(Some(9));
    assert!(!policy.drawing_enabled(b));
    assert_eq!(policy.line_color(b, SUGGESTED), None);
}

#[test]
fn global_overlay_draws_unmarked_colliders() {
    let mut policy: OverlayPolicy<[f32; 4]> = OverlayPolicy::new(true);
    assert!(policy.drawing_enabled(DrawableObject::Collider(Some(3))));
    policy.mark_visible(4);
    assert!(policy.drawing_enabled(DrawableObject::Collider(Some(3))));
    assert!(policy.drawing_enabled(DrawableObject::Collider(Some(4))));
    assert_eq!(policy.line_color(DrawableObject::Collider(Some(3)), SUGGESTED), Some(SUGGESTED));
}

#[test]
fn unknown_collider_is_not_drawn_unless_global() {
    let policy: OverlayPolicy<[f32; 4]> = OverlayPolicy::new(false);
    assert!(!policy.drawing_enabled(DrawableObject::Collider(None)));
    assert_eq!(policy.object_color(DrawableObject::Collider(None), SUGGESTED), SUGGESTED);
}

#[test]
fn custom_color_ignores_suggested_color() {
    let mut policy: OverlayPolicy<[f32; 4]> = OverlayPolicy::new(true);
    policy.set_color(5, ColliderDebugColor(BLUE));
    let object = DrawableObject::Collider(Some(5));
    assert_eq!(policy.object_color(object, SUGGESTED), BLUE);
    assert_eq!(policy.object_color(object, RED), BLUE);
    policy.set_color(5, ColliderDebugColor(RED));
    assert_eq!(policy.object_color(object, SUGGESTED), RED);
}

#[test]
fn collider_without_color_keeps_suggested_color() {
    let policy = scenario_policy();
    assert_eq!(policy.object_color(DrawableObject::Collider(Some(9)), SUGGESTED), SUGGESTED);
    assert_eq!(policy.object_color(DrawableObject::Collider(Some(9)), BLUE), BLUE);
}

#[test]
fn other_objects_are_always_drawn_in_suggested_color() {
    let policy = scenario_policy();
    assert!(policy.drawing_enabled(DrawableObject::Other));
    assert_eq!(policy.line_color(DrawableObject::Other, SUGGESTED), Some(SUGGESTED));
    let global: OverlayPolicy<[f32; 4]> = OverlayPolicy::new(true);
    assert_eq!(global.line_color(DrawableObject::Other, BLUE), Some(BLUE));
}

#[test]
fn user_data_names_entity_by_low_bits() {
    assert_eq!(DrawableObject::from_user_data(Some(42)), DrawableObject::Collider(Some(42)));
    assert_eq!(
        DrawableObject::from_user_data(Some((1u128 << 64) | 5)),
        DrawableObject::Collider(Some(5))
    );
    assert_eq!(DrawableObject::from_user_data(None), DrawableObject::Collider(None));
}

#[test]
fn collider_lookup_reads_user_data() {
    let mut colliders = ColliderSet::new();
    let first = colliders.insert(ColliderBuilder::ball(0.5).user_data(42).build());
    let second = colliders.insert(ColliderBuilder::ball(1.0).user_data(u64::MAX as u128 + 8).build());
    let (i, g) = first.into_raw_parts();
    assert_eq!(DrawableObject::collider(&colliders, i, g), DrawableObject::Collider(Some(42)));
    let (i, g) = second.into_raw_parts();
    assert_eq!(DrawableObject::collider(&colliders, i, g), DrawableObject::Collider(Some(7)));
    assert_eq!(DrawableObject::collider(&colliders, 99, 0), DrawableObject::Collider(None));
    assert_eq!(DrawableObject::collider(&colliders, i, g + 1), DrawableObject::Collider(None));
}
