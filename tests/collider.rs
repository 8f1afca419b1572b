use simcore::collider::{Collider, ColliderType};

#[derive(Clone, Copy, Debug, PartialEq)]
struct Surface {
    static_friction: f64,
    dynamic_friction: f64,
    restitution: f64,
}

const DEFAULT_SURFACE: Surface =
    Surface { static_friction: 1.6, dynamic_friction: 1.5, restitution: 0.0 };

#[test]
fn square_is_solid_on_layer_zero() {
    let c = Collider::solid((1.5f64, 1.5f64), DEFAULT_SURFACE);
    assert!(c.is_solid());
    assert_eq!(c.layer, 0);
    assert_eq!(c.shape, (1.5, 1.5));
    assert!(matches!(c.ty, ColliderType::Solid(m) if m == DEFAULT_SURFACE));
}

#[test]
fn trigger_keeps_shape_and_layer() {
    let c = Collider::solid((1.5f64, 1.5f64), DEFAULT_SURFACE).with_layer(3);
    let t = c.trigger();
    assert!(!t.is_solid());
    assert_eq!(t.shape, (1.5, 1.5));
    assert_eq!(t.layer, 3);
}

#[test]
fn with_material_makes_solid_again() {
    let other = Surface { static_friction: 1.0, dynamic_friction: 1.0, restitution: 0.2 };
    let c = Collider::solid(2.0f64, DEFAULT_SURFACE).trigger().with_material(other);
    assert!(c.is_solid());
    assert!(matches!(c.ty, ColliderType::Solid(m) if m == other));
    assert_eq!(c.shape, 2.0);
    assert_eq!(c.layer, 0);
}

#[test]
fn with_layer_changes_only_layer() {
    let c = Collider::solid(2.0f64, DEFAULT_SURFACE).with_layer(7);
    assert_eq!(c.layer, 7);
    assert!(c.is_solid());
    assert_eq!(c.shape, 2.0);
}
