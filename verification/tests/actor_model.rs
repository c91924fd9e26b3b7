//! Actor/component model behavior: lifecycle gating, stable component
//! ordering, mid-frame removal semantics, and the game root driving actors.

use quacker::game::actor::{BaseActor, State};
use quacker::game::component::{BaseComponent, Behavior};
use quacker::game::game::{Quacker, STEP_DELTA};
use quacker::math::vec3::Vec3;

fn drift(id: u64, order: i32, x: i64, y: i64, z: i64) -> BaseComponent {
    BaseComponent::new(id, order, Behavior::Drift { velocity: Vec3 { x, y, z } })
}

fn component_ids(a: &BaseActor) -> Vec<u64> {
    let mut ids = Vec::new();
    for c in a.components.iter() {
        ids.push(c.id);
    }
    ids
}

#[test]
fn dead_actor_performs_no_updates() {
    let mut a = BaseActor::new(1, 7);
    a.addComponent(drift(10, 0, 1000, 0, 0));
    a.setState(State::EDead);
    let position_before = a.getPosition();
    let transform_before = a.getWorldTransform();
    a.update(1000);
    assert_eq!(a.getPosition(), position_before);
    assert_eq!(a.getWorldTransform(), transform_before);
    assert_eq!(a.components.len(), 1);
    assert!(matches!(a.getState(), State::EDead));
}

#[test]
fn paused_actor_performs_no_updates() {
    let mut a = BaseActor::new(1, 7);
    a.addComponent(drift(10, 0, 1000, 0, 0));
    a.setState(State::EPaused);
    let position_before = a.getPosition();
    a.update(1000);
    assert_eq!(a.getPosition(), position_before);
}

#[test]
fn active_actor_applies_components_and_recomputes_transform() {
    let mut a = BaseActor::new(1, 7);
    a.addComponent(drift(10, 0, 1000, 0, 0));
    // One second of drift at one unit per second.
    a.update(1000);
    assert_eq!(a.getPosition(), Vec3 { x: 1000, y: 0, z: 0 });
    // The post-update transform carries the new translation.
    assert_eq!(a.getWorldTransform().m14, 1000);
}

#[test]
fn insertion_is_stable_for_equal_orders() {
    let mut a = BaseActor::new(1, 7);
    a.addComponent(drift(1, 2, 0, 0, 0));
    a.addComponent(drift(2, 1, 0, 0, 0));
    a.addComponent(drift(3, 2, 0, 0, 0));
    a.addComponent(drift(4, 1, 0, 0, 0));
    // Ascending order; among equal orders, insertion order is kept.
    assert_eq!(component_ids(&a), vec![2, 4, 1, 3]);
    let orders: Vec<i32> = a.components.iter().map(|c| c.update_order).collect();
    assert_eq!(orders, vec![1, 1, 2, 2]);
}

#[test]
fn add_component_binds_owner() {
    let mut a = BaseActor::new(9, 7);
    a.addComponent(drift(1, 0, 0, 0, 0));
    assert_eq!(a.components[0].owner, 9);
}

#[test]
fn remove_component_keeps_sibling_order() {
    let mut a = BaseActor::new(1, 7);
    a.addComponent(drift(1, 1, 0, 0, 0));
    a.addComponent(drift(2, 2, 0, 0, 0));
    a.addComponent(drift(3, 3, 0, 0, 0));
    a.removeComponent(2);
    assert_eq!(component_ids(&a), vec![1, 3]);
}

#[test]
fn remove_absent_component_changes_nothing() {
    let mut a = BaseActor::new(1, 7);
    a.addComponent(drift(1, 1, 0, 0, 0));
    a.removeComponent(42);
    assert_eq!(component_ids(&a), vec![1]);
}

#[test]
fn removal_mid_frame_skips_no_sibling() {
    let mut a = BaseActor::new(1, 7);
    a.addComponent(drift(1, 1, 1000, 0, 0));
    a.addComponent(BaseComponent::new(2, 2, Behavior::Expire));
    a.addComponent(drift(3, 3, 0, 2000, 0));
    a.update(1000);
    // Both drifting siblings ran exactly once despite the middle component
    // removing itself; the removal took effect at the end of the pass.
    assert_eq!(a.getPosition(), Vec3 { x: 1000, y: 2000, z: 0 });
    assert_eq!(component_ids(&a), vec![1, 3]);
}

#[test]
fn expired_component_is_gone_next_frame() {
    let mut a = BaseActor::new(1, 7);
    a.addComponent(BaseComponent::new(2, 2, Behavior::Expire));
    a.update(1000);
    assert_eq!(a.components.len(), 0);
    a.update(1000);
    assert_eq!(a.components.len(), 0);
}

#[test]
fn actor_without_components_still_recomputes_transform() {
    let mut a = BaseActor::new(1, 7);
    a.setPosition(Vec3 { x: 4000, y: 0, z: 0 });
    a.update(1000);
    assert_eq!(a.getPosition(), Vec3 { x: 4000, y: 0, z: 0 });
    assert_eq!(a.getWorldTransform().m14, 4000);
}

#[test]
fn initialize_resets_transform_state() {
    let mut a = BaseActor::new(1, 7);
    a.setPosition(Vec3 { x: 5000, y: 0, z: 0 });
    a.setScale(3000);
    a.setState(State::EPaused);
    a.initialize(8);
    assert_eq!(a.getPosition(), Vec3 { x: 0, y: 0, z: 0 });
    assert_eq!(a.getScale(), 1000);
    assert_eq!(a.getRotation().cos, 1000);
    assert_eq!(a.getRotation().sin, 0);
    assert!(matches!(a.getState(), State::EActive));
    assert_eq!(a.getGame(), 8);
}

#[test]
fn component_initialize_binds_owner_and_order() {
    let mut c = BaseComponent::new(5, 0, Behavior::Inert);
    c.initialize(3, 11);
    assert_eq!(c.owner, 3);
    assert_eq!(c.getUpdateOrder(), 11);
}

#[test]
fn inert_component_moves_nothing() {
    let c = BaseComponent::new(5, 0, Behavior::Inert);
    let p = c.update(1000, Vec3 { x: 1, y: 2, z: 3 });
    assert_eq!(p, Vec3 { x: 1, y: 2, z: 3 });
}

#[test]
fn drift_scales_velocity_by_delta() {
    let c = drift(5, 0, 1000, -500, 0);
    // Half a second: half the velocity.
    let p = c.update(500, Vec3 { x: 0, y: 0, z: 0 });
    assert_eq!(p, Vec3 { x: 500, y: -250, z: 0 });
}

#[test]
fn drift_saturates_at_world_volume() {
    let c = drift(5, 0, 1_000_000_000, 0, 0);
    let near_edge = Vec3 { x: 999_999_999_999, y: 0, z: 0 };
    let p = c.update(1_000_000, near_edge);
    assert_eq!(p.x, 1_000_000_000_000);
}

#[test]
fn quacker_advances_every_actor_each_tick() {
    let mut g = Quacker::new();
    let mut a = BaseActor::new(1, 0);
    a.addComponent(drift(1, 0, 1000, 0, 0));
    g.add_actor(a);
    let mut loner = BaseActor::new(2, 0);
    loner.addComponent(drift(1, 0, 0, 0, 3000));
    g.add_actor(loner);
    quacker::engine::engine::Game::update(&mut g);
    assert_eq!(g.ticks, 1);
    assert_eq!(g.actors[0].getPosition().x, STEP_DELTA);
    assert_eq!(g.actors[1].getPosition().z, 3 * STEP_DELTA);
}

#[test]
fn quacker_initialize_returns_fresh_game() {
    let g = Quacker::new();
    let fresh = g.initialize().expect("initialization cannot fail");
    assert_eq!(fresh.ticks, 0);
    assert_eq!(fresh.actors.len(), 0);
}
