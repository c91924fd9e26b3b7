//! Simulated entities. An actor owns its spatial state (position, scale,
//! rotation, derived world transform), an ordered collection of components,
//! and a handle to its hosting game. Each tick it recomputes its transform,
//! updates its components in ascending update order, runs its own behavior
//! hook, and recomputes the transform again so drawing sees the post-update
//! pose.

use vstd::prelude::*;

use crate::game::component::{
    component_expires, component_move_spec, component_moves, component_wf, BaseComponent,
};
use crate::math::fixed::{COORD_LIMIT, DELTA_LIMIT, FIX_ONE, SCALE_LIMIT};
use crate::math::mat4::{
    affine_in_range, is_world_transform, rotation_in_range, Mat4, Rotation,
};
use crate::math::vec3::{vec3_in_range, Vec3};

verus! {

/// Actor lifecycle state.
#[derive(Clone, Copy, PartialEq, Eq, Structural, Debug)]
pub enum State {
    /// Updated and drawn.
    EActive,
    /// Update suspended, still drawn; resumable.
    EPaused,
    /// Terminal: receives no update dispatch.
    EDead,
}

/// One simulated entity.
pub struct BaseActor {
    /// Stable identity within the hosting game.
    pub id: u64,
    /// Lifecycle state; transitions are driven externally via `setState`.
    pub state: State,
    /// World-space position, fixed-point thousandths.
    pub position: Vec3<i64>,
    /// Cached composition of position, rotation and scale as of the last
    /// recompute (see `computeWorldTransform`).
    pub world_transform: Mat4<i64>,
    /// Uniform scale factor, fixed-point thousandths.
    pub scale: i64,
    /// Single-axis orientation.
    pub rotation: Rotation,
    /// Dirty flag: set when spatial state changed since the last recompute.
    pub recompute_world_transform: bool,
    /// Owned components, kept sorted by ascending `update_order` with ties in
    /// insertion order, identities distinct, all bound to this actor.
    pub components: Vec<BaseComponent>,
    /// Handle of the hosting game, bound for the actor's lifetime.
    pub game: u64,
}

/// The component collection invariant: every entry is well formed, bound to
/// `owner`, ordered by non-decreasing `update_order`, with distinct
/// identities.
pub open spec fn components_wf(s: Seq<BaseComponent>, owner: u64) -> bool {
    &&& forall|i: int| 0 <= i < s.len() ==> component_wf(#[trigger] s[i])
    &&& forall|i: int| 0 <= i < s.len() ==> (#[trigger] s[i]).owner == owner
    &&& forall|i: int, j: int|
        #![trigger s[i], s[j]]
        0 <= i < j < s.len() ==> s[i].update_order <= s[j].update_order && s[i].id != s[j].id
}

/// The actor invariant: spatial fields within the model's ranges, the cached
/// world transform consistent with the spatial fields whenever the dirty flag
/// is clear, and the component collection well formed.
pub open spec fn actor_wf(a: BaseActor) -> bool {
    &&& vec3_in_range(a.position, COORD_LIMIT as int)
    &&& rotation_in_range(a.rotation)
    &&& -SCALE_LIMIT <= a.scale <= SCALE_LIMIT
    &&& affine_in_range(a.world_transform)
    &&& !a.recompute_world_transform ==> is_world_transform(
        a.world_transform,
        a.position,
        a.rotation,
        a.scale,
    )
    &&& components_wf(a.components@, a.id)
}

/// The actor position after the components in `s` have updated in order,
/// starting from `pos`.
pub open spec fn run_components_spec(pos: Vec3<i64>, s: Seq<BaseComponent>, delta: int) -> Vec3<
    i64,
>
    decreases s.len(),
{
    if s.len() == 0 {
        pos
    } else {
        run_components_spec(component_move_spec(pos, s[0], delta), s.skip(1), delta)
    }
}

/// The components left after a full pass: those present at the start of the
/// pass that did not request removal, in their original order.
pub open spec fn survivors_spec(s: Seq<BaseComponent>) -> Seq<BaseComponent>
    decreases s.len(),
{
    if s.len() == 0 {
        Seq::empty()
    } else if component_expires(s[0]) {
        survivors_spec(s.skip(1))
    } else {
        seq![s[0]] + survivors_spec(s.skip(1))
    }
}

/// Whether any component in `s` drives the owner's transform.
pub open spec fn any_moves(s: Seq<BaseComponent>) -> bool {
    exists|i: int| 0 <= i < s.len() && component_moves(s[i])
}

/// How one simulation tick relates an actor's pre-state to its post-state.
/// A non-active actor is left exactly as it was; an active actor's position
/// is the fold of its components' effects in update order, its collection
/// keeps exactly the components that did not request removal, and its cached
/// world transform reflects the post-update pose with the dirty flag clear.
pub open spec fn actor_ticked(pre: BaseActor, post: BaseActor, delta: int) -> bool {
    if pre.state != State::EActive {
        post == pre
    } else {
        &&& post.position == run_components_spec(pre.position, pre.components@, delta)
        &&& post.components@ == survivors_spec(pre.components@)
        &&& is_world_transform(post.world_transform, post.position, pre.rotation, pre.scale)
        &&& post.recompute_world_transform == false
        &&& post.state == pre.state
        &&& post.rotation == pre.rotation
        &&& post.scale == pre.scale
        &&& post.id == pre.id
        &&& post.game == pre.game
    }
}

/// Component update order within a well-formed actor is non-decreasing in
/// `update_order`: the pass of `updateComponents` walks the collection front
/// to back, so components run in ascending priority, with equal priorities
/// kept in insertion order by `addComponent`'s stable insertion.
pub proof fn lemma_component_update_order(a: BaseActor)
    requires
        actor_wf(a),
    ensures
        forall|i: int, j: int|
            #![trigger a.components@[i], a.components@[j]]
            0 <= i < j < a.components@.len() ==> a.components@[i].update_order
                <= a.components@[j].update_order,
{
}

/// Appending one component to a pass extends the position fold by that
/// component's effect.
proof fn lemma_run_components_snoc(pos: Vec3<i64>, s: Seq<BaseComponent>, c: BaseComponent, delta: int)
    ensures
        run_components_spec(pos, s.push(c), delta) == component_move_spec(
            run_components_spec(pos, s, delta),
            c,
            delta,
        ),
    decreases s.len(),
{
    assert(run_components_spec(pos, s.push(c), delta) == run_components_spec(
        component_move_spec(pos, s.push(c)[0], delta),
        s.push(c).skip(1),
        delta,
    ));
    if s.len() == 0 {
        assert(s.push(c)[0] == c);
        assert(s.push(c).skip(1) =~= Seq::<BaseComponent>::empty());
    } else {
        assert(s.push(c)[0] == s[0]);
        assert(s.push(c).skip(1) =~= s.skip(1).push(c));
        lemma_run_components_snoc(component_move_spec(pos, s[0], delta), s.skip(1), c, delta);
    }
}

/// Appending one component appends it to the survivors exactly when it does
/// not expire.
proof fn lemma_survivors_snoc(s: Seq<BaseComponent>, c: BaseComponent)
    ensures
        survivors_spec(s.push(c)) == if component_expires(c) {
            survivors_spec(s)
        } else {
            survivors_spec(s) + seq![c]
        },
    decreases s.len(),
{
    assert(survivors_spec(s.push(c)) == if component_expires(s.push(c)[0]) {
        survivors_spec(s.push(c).skip(1))
    } else {
        seq![s.push(c)[0]] + survivors_spec(s.push(c).skip(1))
    });
    if s.len() == 0 {
        assert(s.push(c)[0] == c);
        assert(s.push(c).skip(1) =~= Seq::<BaseComponent>::empty());
        if component_expires(c) {
        } else {
            assert(survivors_spec(s.push(c)) =~= survivors_spec(s) + seq![c]);
        }
    } else {
        assert(s.push(c)[0] == s[0]);
        assert(s.push(c).skip(1) =~= s.skip(1).push(c));
        lemma_survivors_snoc(s.skip(1), c);
        if !component_expires(c) && !component_expires(s[0]) {
            assert(seq![s[0]] + (survivors_spec(s.skip(1)) + seq![c]) =~= (seq![s[0]]
                + survivors_spec(s.skip(1))) + seq![c]);
        }
    }
}

/// Every survivor of a pass was present in the pass.
proof fn lemma_survivors_membership(s: Seq<BaseComponent>)
    ensures
        forall|k: int|
            0 <= k < survivors_spec(s).len() ==> s.contains(#[trigger] survivors_spec(s)[k]),
    decreases s.len(),
{
    if s.len() == 0 {
    } else {
        lemma_survivors_membership(s.skip(1));
        assert forall|k: int|
            0 <= k < survivors_spec(s).len() implies s.contains(
            #[trigger] survivors_spec(s)[k],
        ) by {
            if component_expires(s[0]) {
                let e = survivors_spec(s)[k];
                assert(s.skip(1).contains(e));
                let j = choose|j: int| 0 <= j < s.skip(1).len() && s.skip(1)[j] == e;
                assert(s[j + 1] == e);
            } else if k == 0 {
                assert(s[0] == survivors_spec(s)[0]);
            } else {
                let e = survivors_spec(s)[k];
                assert(e == survivors_spec(s.skip(1))[k - 1]);
                assert(s.skip(1).contains(e));
                let j = choose|j: int| 0 <= j < s.skip(1).len() && s.skip(1)[j] == e;
                assert(s[j + 1] == e);
            }
        }
    }
}

/// A pass preserves the component collection invariant: the survivors are
/// well formed, still bound to `owner`, still ordered, identities still
/// distinct.
proof fn lemma_survivors_wf(s: Seq<BaseComponent>, owner: u64)
    requires
        components_wf(s, owner),
    ensures
        components_wf(survivors_spec(s), owner),
    decreases s.len(),
{
    if s.len() == 0 {
    } else {
        let t = s.skip(1);
        assert forall|i: int| 0 <= i < t.len() implies component_wf(#[trigger] t[i])
            && (#[trigger] t[i]).owner == owner by {
            assert(t[i] == s[i + 1]);
        }
        assert forall|i: int, j: int|
            #![trigger t[i], t[j]]
            0 <= i < j < t.len() implies t[i].update_order <= t[j].update_order && t[i].id
            != t[j].id by {
            assert(t[i] == s[i + 1] && t[j] == s[j + 1]);
        }
        lemma_survivors_wf(t, owner);
        lemma_survivors_membership(t);
        if component_expires(s[0]) {
        } else {
            let r = survivors_spec(s);
            assert(r == seq![s[0]] + survivors_spec(t));
            assert forall|i: int, j: int|
                #![trigger r[i], r[j]]
                0 <= i < j < r.len() implies r[i].update_order <= r[j].update_order && r[i].id
                != r[j].id by {
                if i == 0 {
                    let e = survivors_spec(t)[j - 1];
                    assert(r[j] == e);
                    assert(t.contains(e));
                    let m = choose|m: int| 0 <= m < t.len() && t[m] == e;
                    assert(t[m] == s[m + 1]);
                    assert(s[0].update_order <= s[m + 1].update_order && s[0].id != s[m + 1].id);
                } else {
                    assert(r[i] == survivors_spec(t)[i - 1]);
                    assert(r[j] == survivors_spec(t)[j - 1]);
                }
            }
            assert forall|i: int| 0 <= i < r.len() implies component_wf(#[trigger] r[i])
                && (#[trigger] r[i]).owner == owner by {
                if i > 0 {
                    assert(r[i] == survivors_spec(t)[i - 1]);
                }
            }
        }
    }
}

impl BaseActor {
    /// A fresh actor with the given identity, bound to the given game:
    /// transform fields at identity, state active, no components.
    pub fn new(id: u64, game: u64) -> (a: BaseActor)
        ensures
            a.id == id,
            a.game == game,
            a.state == State::EActive,
            a.position == (Vec3 { x: 0i64, y: 0i64, z: 0i64 }),
            a.scale == FIX_ONE,
            a.rotation == (Rotation { cos: FIX_ONE, sin: 0i64 }),
            is_world_transform(
                a.world_transform,
                Vec3 { x: 0i64, y: 0i64, z: 0i64 },
                Rotation { cos: FIX_ONE, sin: 0i64 },
                FIX_ONE,
            ),
            a.recompute_world_transform == true,
            a.components@ =~= Seq::<BaseComponent>::empty(),
            actor_wf(a),
    {
        BaseActor {
            id,
            state: State::EActive,
            position: Vec3::zero(),
            world_transform: Mat4::identity(),
            scale: FIX_ONE,
            rotation: Rotation::identity(),
            recompute_world_transform: true,
            components: Vec::new(),
            game,
        }
    }

    /// Resets the transform state to identity (position zero, scale one,
    /// rotation zero, cached world transform the identity matrix), marks the
    /// transform dirty, sets the state active and binds the owning game. The
    /// component collection is left alone.
    pub fn initialize(&mut self, game: u64)
        requires
            actor_wf(*old(self)),
        ensures
            final(self).game == game,
            final(self).state == State::EActive,
            final(self).position == (Vec3 { x: 0i64, y: 0i64, z: 0i64 }),
            final(self).scale == FIX_ONE,
            final(self).rotation == (Rotation { cos: FIX_ONE, sin: 0i64 }),
            is_world_transform(
                final(self).world_transform,
                Vec3 { x: 0i64, y: 0i64, z: 0i64 },
                Rotation { cos: FIX_ONE, sin: 0i64 },
                FIX_ONE,
            ),
            final(self).recompute_world_transform == true,
            final(self).components == old(self).components,
            final(self).id == old(self).id,
            actor_wf(*final(self)),
    {
        self.game = game;
        self.state = State::EActive;
        self.position = Vec3::zero();
        self.world_transform = Mat4::identity();
        self.scale = FIX_ONE;
        self.rotation = Rotation::identity();
        self.recompute_world_transform = true;
    }

    /// One simulation tick. A non-active actor performs no component updates
    /// and no behavior updates and is left exactly as it was. An active actor
    /// recomputes its world transform (in case it was mutated externally
    /// since last tick), updates its components in ascending update order,
    /// runs its own behavior hook, and recomputes the transform again so the
    /// cached pose reflects the post-update state.
    pub fn update(&mut self, delta: i64)
        requires
            actor_wf(*old(self)),
            0 <= delta <= DELTA_LIMIT,
        ensures
            actor_wf(*final(self)),
            actor_ticked(*old(self), *final(self), delta as int),
            old(self).state != State::EActive ==> *final(self) == *old(self),
    {
        match self.state {
            State::EActive => {
                self.computeWorldTransform();
                self.updateComponents(delta);
                self.updateActor(delta);
                self.computeWorldTransform();
            },
            _ => {},
        }
    }

    /// Updates every component present at the start of the pass exactly once,
    /// in ascending update order, feeding each the position left by its
    /// predecessors; components that requested removal during the pass are
    /// dropped at its end, the others are kept in order.
    pub fn updateComponents(&mut self, delta: i64)
        requires
            actor_wf(*old(self)),
            0 <= delta <= DELTA_LIMIT,
        ensures
            actor_wf(*final(self)),
            final(self).position == run_components_spec(
                old(self).position,
                old(self).components@,
                delta as int,
            ),
            final(self).components@ == survivors_spec(old(self).components@),
            final(self).recompute_world_transform == (old(self).recompute_world_transform
                || any_moves(old(self).components@)),
            final(self).state == old(self).state,
            final(self).rotation == old(self).rotation,
            final(self).scale == old(self).scale,
            final(self).world_transform == old(self).world_transform,
            final(self).id == old(self).id,
            final(self).game == old(self).game,
    {
        let ghost s = self.components@;
        let ghost pos0 = self.position;
        let ghost a0 = *self;
        let mut kept: Vec<BaseComponent> = Vec::new();
        let n = self.components.len();
        let mut i: usize = 0;
        while i < n
            invariant
                actor_wf(*self),
                0 <= delta <= DELTA_LIMIT,
                i <= n,
                n == s.len(),
                self.components@ == s,
                self.position == run_components_spec(pos0, s.take(i as int), delta as int),
                kept@ == survivors_spec(s.take(i as int)),
                self.recompute_world_transform == (a0.recompute_world_transform || any_moves(
                    s.take(i as int),
                )),
                self.state == a0.state,
                self.rotation == a0.rotation,
                self.scale == a0.scale,
                self.world_transform == a0.world_transform,
                self.id == a0.id,
                self.game == a0.game,
                vec3_in_range(self.position, COORD_LIMIT as int),
            decreases n - i,
        {
            let c = self.components[i];
            let moved = c.update(delta, self.position);
            proof {
                assert(s.take(i as int + 1) =~= s.take(i as int).push(s[i as int]));
                lemma_run_components_snoc(pos0, s.take(i as int), c, delta as int);
                lemma_survivors_snoc(s.take(i as int), c);
                if component_moves(c) {
                    assert(s.take(i as int + 1)[i as int] == c);
                    assert(component_moves(s.take(i as int + 1)[i as int]));
                    assert(any_moves(s.take(i as int + 1)));
                } else {
                    assert forall|j: int|
                        0 <= j < s.take(i as int + 1).len() && component_moves(
                            #[trigger] s.take(i as int + 1)[j],
                        ) implies any_moves(s.take(i as int)) by {
                        if j < i {
                            assert(component_moves(s.take(i as int)[j]));
                        }
                    }
                }
            }
            self.position = moved;
            match c.behavior {
                crate::game::component::Behavior::Drift { .. } => {
                    self.recompute_world_transform = true;
                },
                crate::game::component::Behavior::Expire => {},
                crate::game::component::Behavior::Inert => {},
            }
            if !matches!(c.behavior, crate::game::component::Behavior::Expire) {
                kept.push(c);
            }
            i = i + 1;
        }
        proof {
            assert(s.take(n as int) =~= s);
            lemma_survivors_wf(s, self.id);
        }
        self.components = kept;
    }

    /// Actor-specific behavior hook, run after the component pass; the base
    /// actor has none and leaves itself unchanged.
    pub fn updateActor(&mut self, delta: i64)
        ensures
            *final(self) == *old(self),
    {
    }

    /// Input-state handling hook; no input model is in scope, so the base
    /// actor leaves itself unchanged.
    pub fn processInput(&mut self)
        ensures
            *final(self) == *old(self),
    {
    }

    /// Recomputes the cached world transform from position, rotation and
    /// scale — composed scale first, then rotation, then translation — but
    /// only when the dirty flag is set; clears the flag afterward and gives
    /// every owned component its chance to react to the new transform. With
    /// the flag clear the actor is left exactly as it was.
    pub fn computeWorldTransform(&mut self)
        requires
            actor_wf(*old(self)),
        ensures
            actor_wf(*final(self)),
            is_world_transform(
                final(self).world_transform,
                old(self).position,
                old(self).rotation,
                old(self).scale,
            ),
            final(self).recompute_world_transform == false,
            !old(self).recompute_world_transform ==> *final(self) == *old(self),
            final(self).position == old(self).position,
            final(self).state == old(self).state,
            final(self).rotation == old(self).rotation,
            final(self).scale == old(self).scale,
            final(self).components@ == old(self).components@,
            final(self).id == old(self).id,
            final(self).game == old(self).game,
    {
        if self.recompute_world_transform {
            self.world_transform = Mat4::world_transform(self.position, self.rotation, self.scale);
            self.recompute_world_transform = false;
            let ghost a1 = *self;
            let n = self.components.len();
            let mut i: usize = 0;
            while i < n
                invariant
                    i <= n,
                    n == a1.components@.len(),
                    self.components@ == a1.components@,
                    self.position == a1.position,
                    self.rotation == a1.rotation,
                    self.scale == a1.scale,
                    self.world_transform == a1.world_transform,
                    self.recompute_world_transform == a1.recompute_world_transform,
                    self.state == a1.state,
                    self.id == a1.id,
                    self.game == a1.game,
                decreases n - i,
            {
                self.components[i].onUpdateWorldTransform();
                proof {
                    assert(self.components@ =~= a1.components@);
                }
                i = i + 1;
            }
        }
    }

    /// Adds a component to the owned collection, binding it to this actor,
    /// at the unique position that keeps the collection sorted by ascending
    /// update order with the newcomer after every earlier entry of equal
    /// order (stable insertion).
    pub fn addComponent(&mut self, component: BaseComponent)
        requires
            actor_wf(*old(self)),
            component_wf(component),
            forall|j: int|
                0 <= j < old(self).components@.len() ==> (#[trigger] old(
                    self,
                ).components@[j]).id != component.id,
            old(self).components@.len() < usize::MAX,
        ensures
            actor_wf(*final(self)),
            exists|k: int|
                {
                    &&& 0 <= k <= old(self).components@.len()
                    &&& final(self).components@ =~= old(self).components@.insert(
                        k,
                        BaseComponent {
                            owner: old(self).id,
                            ..component
                        },
                    )
                    &&& forall|j: int|
                        0 <= j < k ==> (#[trigger] old(self).components@[j]).update_order
                            <= component.update_order
                    &&& forall|j: int|
                        k <= j < old(self).components@.len() ==> (#[trigger] old(
                            self,
                        ).components@[j]).update_order > component.update_order
                },
            final(self).position == old(self).position,
            final(self).state == old(self).state,
            final(self).rotation == old(self).rotation,
            final(self).scale == old(self).scale,
            final(self).world_transform == old(self).world_transform,
            final(self).recompute_world_transform == old(self).recompute_world_transform,
            final(self).id == old(self).id,
            final(self).game == old(self).game,
    {
        let ghost s = self.components@;
        let mut bound = component;
        let order = bound.getUpdateOrder();
        bound.initialize(self.id, order);
        let n = self.components.len();
        let mut k: usize = 0;
        while k < n && self.components[k].update_order <= order
            invariant
                k <= n,
                n == s.len(),
                self.components@ == s,
                components_wf(s, self.id),
                bound == (BaseComponent { owner: self.id, ..component }),
                order == component.update_order,
                forall|j: int|
                    0 <= j < k ==> (#[trigger] s[j]).update_order <= component.update_order,
            decreases n - k,
        {
            k = k + 1;
        }
        proof {
            if k < s.len() {
                assert forall|j: int|
                    k <= j < s.len() implies (#[trigger] s[j]).update_order
                    > component.update_order by {
                    if j > k {
                        assert(s[k as int].update_order <= s[j].update_order);
                    }
                }
            }
        }
        self.components.insert(k, bound);
        proof {
            let t = self.components@;
            assert(t =~= s.insert(k as int, bound));
            assert forall|i: int, j: int|
                #![trigger t[i], t[j]]
                0 <= i < j < t.len() implies t[i].update_order <= t[j].update_order && t[i].id
                != t[j].id by {
                if i < k && j < k {
                } else if i < k && j == k {
                    assert(t[i] == s[i]);
                } else if i < k && j > k {
                    assert(t[i] == s[i] && t[j] == s[j - 1]);
                } else if i == k && j > k {
                    assert(t[j] == s[j - 1]);
                } else if i > k {
                    assert(t[i] == s[i - 1] && t[j] == s[j - 1]);
                }
            }
            assert forall|i: int| 0 <= i < t.len() implies component_wf(#[trigger] t[i]) && (
            #[trigger] t[i]).owner == self.id by {
                if i < k {
                    assert(t[i] == s[i]);
                } else if i > k {
                    assert(t[i] == s[i - 1]);
                }
            }
            assert(0 <= k as int <= s.len() && t =~= s.insert(
                k as int,
                BaseComponent { owner: self.id, ..component },
            ));
        }
    }

    /// Removes the component with the given identity from the owned
    /// collection, leaving the order of the others untouched; with no such
    /// component the collection is left alone. The removed component is
    /// detached and never updated again by this actor.
    pub fn removeComponent(&mut self, id: u64)
        requires
            actor_wf(*old(self)),
        ensures
            actor_wf(*final(self)),
            (forall|j: int| 0 <= j < old(self).components@.len() ==> (#[trigger] old(
                self,
            ).components@[j]).id != id) ==> *final(self) == *old(self),
            forall|k: int|
                0 <= k < old(self).components@.len() && (#[trigger] old(
                    self,
                ).components@[k]).id == id ==> final(self).components@ =~= old(
                    self,
                ).components@.remove(k),
            final(self).position == old(self).position,
            final(self).state == old(self).state,
            final(self).rotation == old(self).rotation,
            final(self).scale == old(self).scale,
            final(self).world_transform == old(self).world_transform,
            final(self).recompute_world_transform == old(self).recompute_world_transform,
            final(self).id == old(self).id,
            final(self).game == old(self).game,
    {
        let ghost s = self.components@;
        let ghost a0 = *self;
        let n = self.components.len();
        let mut k: usize = 0;
        while k < n && self.components[k].id != id
            invariant
                k <= n,
                n == s.len(),
                *self == a0,
                self.components@ == s,
                components_wf(s, a0.id),
                forall|j: int| 0 <= j < k ==> (#[trigger] s[j]).id != id,
            decreases n - k,
        {
            k = k + 1;
        }
        if k < n {
            self.components.remove(k);
            proof {
                let t = self.components@;
                assert(t =~= s.remove(k as int));
                assert forall|i: int, j: int|
                    #![trigger t[i], t[j]]
                    0 <= i < j < t.len() implies t[i].update_order <= t[j].update_order && t[i].id
                    != t[j].id by {
                    let si: int = if i < k { i } else { i + 1 };
                    let sj: int = if j < k { j } else { j + 1 };
                    assert(t[i] == s[si] && t[j] == s[sj]);
                }
                assert forall|i: int| 0 <= i < t.len() implies component_wf(#[trigger] t[i]) && (
                #[trigger] t[i]).owner == a0.id by {
                    let si: int = if i < k { i } else { i + 1 };
                    assert(t[i] == s[si]);
                }
                assert forall|m: int|
                    0 <= m < s.len() && (#[trigger] s[m]).id == id implies self.components@ =~= s.remove(
                    m,
                ) by {
                    if m != k {
                        assert(s[m].id != s[k as int].id);
                    }
                }
            }
        }
    }

    /// Sets the position and marks the world transform dirty.
    pub fn setPosition(&mut self, position: Vec3<i64>)
        requires
            actor_wf(*old(self)),
            vec3_in_range(position, COORD_LIMIT as int),
        ensures
            actor_wf(*final(self)),
            final(self).position == position,
            final(self).recompute_world_transform == true,
            final(self).state == old(self).state,
            final(self).rotation == old(self).rotation,
            final(self).scale == old(self).scale,
            final(self).world_transform == old(self).world_transform,
            final(self).components == old(self).components,
            final(self).id == old(self).id,
            final(self).game == old(self).game,
    {
        self.position = position;
        self.recompute_world_transform = true;
    }

    /// The current position.
    pub fn getPosition(&self) -> (r: Vec3<i64>)
        ensures
            r == self.position,
    {
        self.position
    }

    /// Sets the uniform scale and marks the world transform dirty.
    pub fn setScale(&mut self, scale: i64)
        requires
            actor_wf(*old(self)),
            -SCALE_LIMIT <= scale <= SCALE_LIMIT,
        ensures
            actor_wf(*final(self)),
            final(self).scale == scale,
            final(self).recompute_world_transform == true,
            final(self).state == old(self).state,
            final(self).position == old(self).position,
            final(self).rotation == old(self).rotation,
            final(self).world_transform == old(self).world_transform,
            final(self).components == old(self).components,
            final(self).id == old(self).id,
            final(self).game == old(self).game,
    {
        self.scale = scale;
        self.recompute_world_transform = true;
    }

    /// The current uniform scale.
    pub fn getScale(&self) -> (r: i64)
        ensures
            r == self.scale,
    {
        self.scale
    }

    /// Sets the orientation and marks the world transform dirty.
    pub fn setRotation(&mut self, rotation: Rotation)
        requires
            actor_wf(*old(self)),
            rotation_in_range(rotation),
        ensures
            actor_wf(*final(self)),
            final(self).rotation == rotation,
            final(self).recompute_world_transform == true,
            final(self).state == old(self).state,
            final(self).position == old(self).position,
            final(self).scale == old(self).scale,
            final(self).world_transform == old(self).world_transform,
            final(self).components == old(self).components,
            final(self).id == old(self).id,
            final(self).game == old(self).game,
    {
        self.rotation = rotation;
        self.recompute_world_transform = true;
    }

    /// The current orientation.
    pub fn getRotation(&self) -> (r: Rotation)
        ensures
            r == self.rotation,
    {
        self.rotation
    }

    /// The cached world transform.
    pub fn getWorldTransform(&self) -> (m: Mat4<i64>)
        ensures
            m == self.world_transform,
    {
        self.world_transform
    }

    /// The actor's local forward axis (+x) rotated by its current
    /// orientation; derived, not stored.
    pub fn getForward(&self) -> (v: Vec3<i64>)
        ensures
            v == (Vec3 { x: self.rotation.cos, y: self.rotation.sin, z: 0i64 }),
    {
        Vec3 { x: self.rotation.cos, y: self.rotation.sin, z: 0 }
    }

    /// The lifecycle state.
    pub fn getState(&self) -> (s: State)
        ensures
            s == self.state,
    {
        self.state
    }

    /// Sets the lifecycle state; transitions are driven by the hosting game.
    pub fn setState(&mut self, state: State)
        requires
            actor_wf(*old(self)),
        ensures
            actor_wf(*final(self)),
            final(self).state == state,
            final(self).position == old(self).position,
            final(self).rotation == old(self).rotation,
            final(self).scale == old(self).scale,
            final(self).world_transform == old(self).world_transform,
            final(self).recompute_world_transform == old(self).recompute_world_transform,
            final(self).components == old(self).components,
            final(self).id == old(self).id,
            final(self).game == old(self).game,
    {
        self.state = state;
    }

    /// The handle of the hosting game.
    pub fn getGame(&self) -> (g: u64)
        ensures
            g == self.game,
    {
        self.game
    }

    /// Networked packet serialization extension point; not specified, the
    /// base actor writes nothing.
    pub fn writePacket(&self) {
    }
}

} // verus!

