//! Golden-value checks for the fixed-point spatial math and the
//! scale-rotate-translate composition of the world transform.

use quacker::game::actor::BaseActor;
use quacker::math::fixed::fix_mul;
use quacker::math::mat4::{Mat4, Rotation};
use quacker::math::vec3::Vec3;

#[test]
fn fix_mul_matches_real_products() {
    assert_eq!(fix_mul(1000, 1000), 1000);
    assert_eq!(fix_mul(2000, 1500), 3000);
    assert_eq!(fix_mul(-1500, 2000), -3000);
    assert_eq!(fix_mul(-500, -500), 250);
}

#[test]
fn fix_mul_truncates_toward_zero() {
    assert_eq!(fix_mul(1, 1), 0);
    assert_eq!(fix_mul(-1, 1), 0);
    assert_eq!(fix_mul(1999, 1), 1);
    assert_eq!(fix_mul(-1999, 1), -1);
}

#[test]
fn identity_transform_fixes_points() {
    let m = Mat4::identity();
    let p = Vec3 { x: 1234, y: -5678, z: 9000 };
    assert_eq!(m.transform_point(p), p);
}

#[test]
fn world_transform_scales_then_translates() {
    // Position (1, 2, 3), rotation 0, scale 2: the local point (1, 0, 0)
    // lands on (3, 2, 3) — scaled first, then translated.
    let m = Mat4::world_transform(
        Vec3 { x: 1000, y: 2000, z: 3000 },
        Rotation::identity(),
        2000,
    );
    let p = m.transform_point(Vec3 { x: 1000, y: 0, z: 0 });
    assert_eq!(p, Vec3 { x: 3000, y: 2000, z: 3000 });
}

#[test]
fn world_transform_rotates_before_translating() {
    // A quarter turn about z (cosine 0, sine 1) with no scale change maps
    // the local +x axis onto +y; the translation is applied afterward.
    let m = Mat4::world_transform(
        Vec3 { x: 100, y: 0, z: 0 },
        Rotation { cos: 0, sin: 1000 },
        1000,
    );
    let p = m.transform_point(Vec3 { x: 1000, y: 0, z: 0 });
    assert_eq!(p, Vec3 { x: 100, y: 1000, z: 0 });
}

#[test]
fn world_transform_composition_order_is_srt() {
    // Scale 2, quarter turn, translation (5, 0, 0): local (1, 0, 0) is
    // scaled to (2, 0, 0), rotated to (0, 2, 0), translated to (5, 2, 0).
    // The other composition orders would give (4, ...) or (0, 12, 0)-style
    // results, so this pins scale-then-rotate-then-translate.
    let m = Mat4::world_transform(
        Vec3 { x: 5000, y: 0, z: 0 },
        Rotation { cos: 0, sin: 1000 },
        2000,
    );
    let p = m.transform_point(Vec3 { x: 1000, y: 0, z: 0 });
    assert_eq!(p, Vec3 { x: 5000, y: 2000, z: 0 });
}

#[test]
fn forward_axis_follows_rotation() {
    let mut a = BaseActor::new(1, 0);
    a.setRotation(Rotation { cos: 0, sin: 1000 });
    assert_eq!(a.getForward(), Vec3 { x: 0, y: 1000, z: 0 });
}

#[test]
fn transform_recomputed_only_when_dirty() {
    let mut a = BaseActor::new(1, 0);
    a.computeWorldTransform();
    let clean = a.getWorldTransform();
    // Mutating the position marks the transform dirty but does not touch
    // the cached matrix until the next recompute.
    a.setPosition(Vec3 { x: 7000, y: 0, z: 0 });
    assert_eq!(a.getWorldTransform(), clean);
    a.computeWorldTransform();
    assert_eq!(a.getWorldTransform().m14, 7000);
}

#[test]
fn default_point_is_origin() {
    let p: quacker::geometry::point::Point = Default::default();
    assert_eq!(p.x, 0);
    assert_eq!(p.y, 0);
}
