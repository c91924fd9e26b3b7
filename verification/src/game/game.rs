//! The concrete game: the single mutable simulation root. It owns the
//! actors, advances each of them by exactly one fixed step per update, and
//! prepares one frame per draw.

use vstd::prelude::*;

use crate::engine::browser::GameError;
use crate::engine::engine::Game;
use crate::engine::renderer::Renderer;
use crate::game::actor::{actor_ticked, actor_wf, BaseActor};

verus! {

/// Per-step delta handed to every actor, in fixed-point seconds: one
/// sixtieth of a second rounded to thousandths.
pub const STEP_DELTA: i64 = 17;

/// The duck game. It fetches nothing at initialization and renders
/// nothing yet; it owns the live actors and drives them.
pub struct Quacker {
    /// All owned actors, advanced in order each update.
    pub actors: Vec<BaseActor>,
    /// Number of simulation steps performed so far.
    pub ticks: u64,
}

impl Quacker {
    /// A fresh game: no actors, no steps performed.
    pub fn new() -> (g: Quacker)
        ensures
            g.actors@.len() == 0,
            g.ticks == 0,
            g.inv(),
    {
        Quacker { actors: Vec::new(), ticks: 0 }
    }

    /// One-time setup before the loop starts, producing the live game
    /// object. This game fetches no resources, so initialization
    /// always succeeds with a fresh instance.
    pub fn initialize(&self) -> (r: Result<Quacker, GameError>)
        ensures
            r is Ok,
            r->Ok_0.actors@.len() == 0,
            r->Ok_0.ticks == 0,
            r->Ok_0.inv(),
    {
        Ok(Quacker::new())
    }

    /// Takes ownership of an actor into the game's active set.
    pub fn add_actor(&mut self, actor: BaseActor)
        requires
            old(self).inv(),
            actor_wf(actor),
            old(self).actors@.len() < usize::MAX,
        ensures
            final(self).inv(),
            final(self).actors@ == old(self).actors@.push(actor),
            final(self).ticks == old(self).ticks,
    {
        self.actors.push(actor);
        proof {
            assert forall|j: int| 0 <= j < self.actors@.len() implies actor_wf(
                #[trigger] self.actors@[j],
            ) by {
                if j < old(self).actors@.len() {
                    assert(self.actors@[j] == old(self).actors@[j]);
                }
            }
        }
    }
}

impl Game for Quacker {
    /// One step per tick performed so far.
    open spec fn updates(&self) -> nat {
        self.ticks as nat
    }

    /// Every owned actor satisfies the actor invariant.
    open spec fn inv(&self) -> bool {
        forall|i: int| 0 <= i < self.actors@.len() ==> actor_wf(#[trigger] self.actors@[i])
    }

    /// Advances every owned actor by exactly one fixed step, in order.
    fn update(&mut self)
        ensures
            final(self).actors@.len() == old(self).actors@.len(),
            forall|i: int|
                0 <= i < old(self).actors@.len() ==> actor_ticked(
                    old(self).actors@[i],
                    #[trigger] final(self).actors@[i],
                    STEP_DELTA as int,
                ),
    {
        self.ticks = self.ticks + 1;
        let ghost t = self.ticks;
        let ghost prev = self.actors@;
        let n = self.actors.len();
        let mut i: usize = 0;
        while i < n
            invariant
                i <= n,
                n == prev.len(),
                self.actors@.len() == prev.len(),
                self.ticks == t,
                forall|j: int|
                    0 <= j < i ==> actor_ticked(
                        prev[j],
                        #[trigger] self.actors@[j],
                        STEP_DELTA as int,
                    ),
                forall|j: int| i <= j < n ==> #[trigger] self.actors@[j] == prev[j],
                forall|j: int| 0 <= j < n ==> actor_wf(#[trigger] self.actors@[j]),
            decreases n - i,
        {
            self.actors[i].update(STEP_DELTA);
            i = i + 1;
        }
    }

    /// Prepares the surface for this frame; this game draws no
    /// geometry yet.
    fn draw(&self, renderer: &mut Renderer) {
        renderer.clear();
    }
}

} // verus!
