//! Attachable behavior units. A component belongs to exactly one actor, has
//! an explicit update-order priority, and is dispatched every simulation tick
//! while its owner is active. Behaviors form a closed set of variants
//! dispatched by a single match, so an actor can own a mixed, ordered
//! collection of them without trait objects.

use vstd::prelude::*;

use crate::math::fixed::{
    clamp_coord, clamp_coord_spec, fix_mul, fix_mul_spec, COORD_LIMIT, DELTA_LIMIT, VEL_LIMIT,
};
use crate::math::vec3::{vec3_in_range, Vec3};

verus! {

/// The closed set of component behaviors.
#[derive(Clone, Copy, PartialEq, Eq, Structural, Debug)]
pub enum Behavior {
    /// Reacts to nothing.
    Inert,
    /// Moves the owning actor by `velocity` scaled by the tick's delta.
    Drift { velocity: Vec3<i64> },
    /// Requests its own removal when updated; the removal takes effect at the
    /// end of the owning actor's component pass for that tick.
    Expire,
}

/// One attachable behavior unit.
#[derive(Clone, Copy, PartialEq, Eq, Structural, Debug)]
pub struct BaseComponent {
    /// Stable identity within the owning actor's collection.
    pub id: u64,
    /// Identifier of the owning actor; bound by `initialize`.
    pub owner: u64,
    /// Priority: lower values update first within an actor.
    pub update_order: i32,
    /// What the component does each tick.
    pub behavior: Behavior,
}

/// The component's fields are within the spatial model's ranges.
pub open spec fn component_wf(c: BaseComponent) -> bool {
    match c.behavior {
        Behavior::Drift { velocity } => vec3_in_range(velocity, VEL_LIMIT as int),
        _ => true,
    }
}

/// Whether the component drives the owner's transform when updated.
pub open spec fn component_moves(c: BaseComponent) -> bool {
    c.behavior matches Behavior::Drift { .. }
}

/// Whether the component requests its own removal when updated.
pub open spec fn component_expires(c: BaseComponent) -> bool {
    c.behavior matches Behavior::Expire
}

/// The owner position after this component's update, starting from `pos`:
/// a drifting component adds its velocity scaled by `delta`, each coordinate
/// saturating at the world volume; other behaviors leave the position alone.
pub open spec fn component_move_spec(pos: Vec3<i64>, c: BaseComponent, delta: int) -> Vec3<i64> {
    match c.behavior {
        Behavior::Drift { velocity } => Vec3 {
            x: clamp_coord_spec(pos.x + fix_mul_spec(velocity.x as int, delta)) as i64,
            y: clamp_coord_spec(pos.y + fix_mul_spec(velocity.y as int, delta)) as i64,
            z: clamp_coord_spec(pos.z + fix_mul_spec(velocity.z as int, delta)) as i64,
        },
        _ => pos,
    }
}

impl BaseComponent {
    /// A fresh, detached component with the given identity and behavior. It
    /// belongs to no actor until `initialize` binds it.
    pub fn new(id: u64, update_order: i32, behavior: Behavior) -> (c: BaseComponent)
        ensures
            c.id == id,
            c.owner == 0,
            c.update_order == update_order,
            c.behavior == behavior,
    {
        BaseComponent { id, owner: 0, update_order, behavior }
    }

    /// Binds the back-reference to the owning actor and the update-order
    /// priority. Must be called (by the owning actor's `addComponent`) before
    /// any update.
    pub fn initialize(&mut self, owner: u64, update_order: i32)
        ensures
            final(self).owner == owner,
            final(self).update_order == update_order,
            final(self).id == old(self).id,
            final(self).behavior == old(self).behavior,
    {
        self.owner = owner;
        self.update_order = update_order;
    }

    /// Per-tick behavior step, driven by the owning actor: takes the owner's
    /// current position and returns the position after this component's
    /// effect. The component itself is left unchanged; an expiring component
    /// is instead dropped by the owner at the end of the pass.
    pub fn update(&self, delta: i64, position: Vec3<i64>) -> (p: Vec3<i64>)
        requires
            component_wf(*self),
            vec3_in_range(position, COORD_LIMIT as int),
            0 <= delta <= DELTA_LIMIT,
        ensures
            p == component_move_spec(position, *self, delta as int),
            vec3_in_range(p, COORD_LIMIT as int),
    {
        match self.behavior {
            Behavior::Drift { velocity } => {
                proof {
                    crate::math::fixed::lemma_mul_le(
                        velocity.x as int,
                        delta as int,
                        VEL_LIMIT as int,
                        DELTA_LIMIT as int,
                    );
                    crate::math::fixed::lemma_mul_le(
                        velocity.y as int,
                        delta as int,
                        VEL_LIMIT as int,
                        DELTA_LIMIT as int,
                    );
                    crate::math::fixed::lemma_mul_le(
                        velocity.z as int,
                        delta as int,
                        VEL_LIMIT as int,
                        DELTA_LIMIT as int,
                    );
                    crate::math::fixed::lemma_fix_mul_bound(
                        velocity.x as int,
                        delta as int,
                        VEL_LIMIT as int,
                        DELTA_LIMIT as int,
                    );
                    crate::math::fixed::lemma_fix_mul_bound(
                        velocity.y as int,
                        delta as int,
                        VEL_LIMIT as int,
                        DELTA_LIMIT as int,
                    );
                    crate::math::fixed::lemma_fix_mul_bound(
                        velocity.z as int,
                        delta as int,
                        VEL_LIMIT as int,
                        DELTA_LIMIT as int,
                    );
                }
                Vec3 {
                    x: clamp_coord(position.x + fix_mul(velocity.x, delta)),
                    y: clamp_coord(position.y + fix_mul(velocity.y, delta)),
                    z: clamp_coord(position.z + fix_mul(velocity.z, delta)),
                }
            },
            _ => position,
        }
    }

    /// Input-state handling hook; no input model is in scope, so the base
    /// component leaves itself unchanged.
    pub fn processInput(&mut self)
        ensures
            *final(self) == *old(self),
    {
    }

    /// Hook run after the owner recomputes its world transform; the base
    /// component has no derived state to refresh.
    pub fn onUpdateWorldTransform(&mut self)
        ensures
            *final(self) == *old(self),
    {
    }

    /// The update-order priority.
    pub fn getUpdateOrder(&self) -> (r: i32)
        ensures
            r == self.update_order,
    {
        self.update_order
    }
}

} // verus!
