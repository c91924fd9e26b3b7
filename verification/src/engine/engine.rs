//! The fixed-timestep game loop. A repaint callback hands the loop a
//! timestamp; the loop converts the variable real-time interval since the
//! previous repaint into a whole number of fixed simulation steps plus a
//! carried remainder, runs exactly that many game updates, and prepares
//! exactly one frame for drawing — decoupling the simulation rate from the
//! display refresh rate.
//!
//! Timestamps are integers in sixtieths of a millisecond, so that the fixed
//! step of 1000/60 ms is the exact whole number `FRAME_SIZE`. The hosting
//! layer converts the platform's clock readings into this unit.

use vstd::prelude::*;

use crate::engine::browser::GameError;
use crate::engine::renderer::{Renderer, LOGICAL_CANVAS_SIZE};

verus! {

/// One simulation step, in sixtieths of a millisecond: 1000/60 ms.
pub const FRAME_SIZE: u64 = 1000;

/// Largest admitted clock reading (same unit); far beyond any session length
/// the platform clock can reach, and small enough that accumulator
/// arithmetic never overflows.
pub const MAX_TIMESTAMP: u64 = 0x0100_0000_0000_0000;

/// The polymorphic simulation root, implemented by the concrete game.
/// One-time asynchronous bootstrapping happens at the boundary before the
/// loop starts; the loop itself only ever calls `update` and `draw`.
pub trait Game: Sized {
    /// Abstract count of simulation updates performed so far; each `update`
    /// call accounts for exactly one.
    spec fn updates(&self) -> nat;

    /// The game's own invariant, established at construction and preserved
    /// by every update.
    spec fn inv(&self) -> bool;

    /// Advances all owned simulation state by exactly one fixed step;
    /// deterministic given the game's state (no reliance on a wall clock).
    fn update(&mut self)
        requires
            old(self).inv(),
            old(self).updates() < u64::MAX,
        ensures
            final(self).inv(),
            final(self).updates() == old(self).updates() + 1,
    ;

    /// Renders the current state. The game is taken by shared reference, so
    /// simulation state cannot change; exactly one frame is prepared on the
    /// renderer, whose configuration is left alone.
    fn draw(&self, renderer: &mut Renderer)
        requires
            old(renderer).frames < u64::MAX,
        ensures
            final(renderer).frames == old(renderer).frames + 1,
            final(renderer).width == old(renderer).width,
            final(renderer).height == old(renderer).height,
            final(renderer).configured == old(renderer).configured,
    ;
}

/// The loop's timing state: the previous repaint's timestamp and the
/// simulation time not yet consumed by whole steps.
pub struct GameLoop {
    /// Timestamp of the previous repaint.
    pub last_frame: u64,
    /// Unconsumed simulation time, always less than one step between
    /// repaints; never discarded, never reset.
    pub accumulated_time: u64,
}

/// The loop invariant between repaints: the residual is below one step and
/// the clock reading within the admitted range.
pub open spec fn game_loop_wf(l: GameLoop) -> bool {
    &&& l.accumulated_time < FRAME_SIZE
    &&& l.last_frame <= MAX_TIMESTAMP
}

/// A running session: the loop's timing state, the live game, and the
/// renderer bound to the drawable surface. The hosting layer re-registers
/// the repaint callback around `run_frame` for as long as the session lives.
pub struct Session<G> {
    pub game_loop: GameLoop,
    pub game: G,
    pub renderer: Renderer,
}

impl GameLoop {
    /// Timing state for a loop whose first repaint has not yet arrived:
    /// the clock reading `now` becomes the previous-repaint reference and no
    /// simulation time has accumulated.
    pub fn new(now: u64) -> (l: GameLoop)
        requires
            now <= MAX_TIMESTAMP,
        ensures
            l.last_frame == now,
            l.accumulated_time == 0,
            game_loop_wf(l),
    {
        GameLoop { last_frame: now, accumulated_time: 0 }
    }

    /// The number of whole simulation steps ready to run when a repaint
    /// arrives at time `perf`.
    pub open spec fn pending_steps(self, perf: u64) -> int {
        (self.accumulated_time + perf - self.last_frame) / (FRAME_SIZE as int)
    }

    /// One repaint invocation at timestamp `perf`: accumulates the elapsed
    /// real time, runs one game update per whole step contained in the
    /// accumulator, carries the exact remainder forward, and has the game
    /// draw exactly once — no matter whether zero, one or many updates ran.
    /// Returns the number of updates performed.
    pub fn run_frame<G: Game>(
        &mut self,
        game: &mut G,
        renderer: &mut Renderer,
        perf: u64,
    ) -> (n: u64)
        requires
            game_loop_wf(*old(self)),
            old(self).last_frame <= perf <= MAX_TIMESTAMP,
            old(game).inv(),
            old(game).updates() + MAX_TIMESTAMP + FRAME_SIZE <= u64::MAX,
            old(renderer).frames < u64::MAX,
        ensures
            game_loop_wf(*final(self)),
            n == old(self).pending_steps(perf),
            final(self).last_frame == perf,
            final(self).accumulated_time == (old(self).accumulated_time + perf
                - old(self).last_frame) % (FRAME_SIZE as int),
            old(self).accumulated_time + (perf - old(self).last_frame) == n * FRAME_SIZE
                + final(self).accumulated_time,
            final(game).updates() == old(game).updates() + n,
            final(game).inv(),
            final(renderer).frames == old(renderer).frames + 1,
            final(renderer).width == old(renderer).width,
            final(renderer).height == old(renderer).height,
            final(renderer).configured == old(renderer).configured,
    {
        let frame_time = perf - self.last_frame;
        let ghost u0 = game.updates();
        self.accumulated_time = self.accumulated_time + frame_time;
        let ghost total: int = self.accumulated_time as int;
        let mut n: u64 = 0;
        while self.accumulated_time >= FRAME_SIZE
            invariant
                game.inv(),
                game.updates() == u0 + n,
                u0 + MAX_TIMESTAMP + FRAME_SIZE <= u64::MAX,
                n * FRAME_SIZE + self.accumulated_time == total,
                total <= MAX_TIMESTAMP + FRAME_SIZE,
                self.last_frame == old(self).last_frame,
            decreases self.accumulated_time,
        {
            proof {
                assert(n * FRAME_SIZE == n + 999 * (n as int));
                assert(n <= n * FRAME_SIZE);
            }
            game.update();
            self.accumulated_time = self.accumulated_time - FRAME_SIZE;
            n = n + 1;
        }
        self.last_frame = perf;
        game.draw(renderer);
        proof {
            assert(n * FRAME_SIZE == n + 999 * (n as int));
            vstd::arithmetic::div_mod::lemma_fundamental_div_mod_converse(
                total,
                FRAME_SIZE as int,
                n as int,
                self.accumulated_time as int,
            );
        }
        n
    }

    /// The synchronous core of loop startup, deciding from the outcomes of
    /// the two boundary steps — the game's one-time asynchronous
    /// initialization and the first clock reading — whether a session comes
    /// to exist. A failed initialization or clock aborts startup with that
    /// failure and no session, so the hosting layer never registers a
    /// repaint callback; with both outcomes good, the session holds the
    /// initialized game, a renderer configured to the logical canvas size,
    /// and timing state anchored at the clock reading.
    pub fn start<G: Game>(init: Result<G, GameError>, now: Result<u64, GameError>) -> (r: Result<
        Session<G>,
        GameError,
    >)
        requires
            now is Ok ==> now->Ok_0 <= MAX_TIMESTAMP,
        ensures
            init is Err ==> r is Err && r->Err_0 == init->Err_0,
            init is Ok && now is Err ==> r is Err && r->Err_0 == now->Err_0,
            init is Ok && now is Ok ==> {
                &&& r is Ok
                &&& r->Ok_0.game == init->Ok_0
                &&& r->Ok_0.game_loop.last_frame == now->Ok_0
                &&& r->Ok_0.game_loop.accumulated_time == 0
                &&& game_loop_wf(r->Ok_0.game_loop)
                &&& r->Ok_0.renderer.width == LOGICAL_CANVAS_SIZE
                &&& r->Ok_0.renderer.height == LOGICAL_CANVAS_SIZE
                &&& r->Ok_0.renderer.configured == true
                &&& r->Ok_0.renderer.frames == 0
            },
    {
        let game = match init {
            Ok(game) => game,
            Err(e) => {
                return Err(e);
            },
        };
        let now = match now {
            Ok(now) => now,
            Err(e) => {
                return Err(e);
            },
        };
        let game_loop = GameLoop::new(now);
        let mut renderer = Renderer::new(LOGICAL_CANVAS_SIZE, LOGICAL_CANVAS_SIZE);
        renderer.initialize();
        Ok(Session { game_loop, game, renderer })
    }
}

} // verus!

