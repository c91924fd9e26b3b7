//! Fixed-timestep loop behavior: update counts, residual carry, one draw per
//! repaint, and startup outcomes.

use quacker::engine::browser::GameError;
use quacker::engine::engine::{GameLoop, Session};
use quacker::engine::renderer::Renderer;
use quacker::game::game::Quacker;

fn session_at(now: u64) -> Session<Quacker> {
    let game = Quacker::new();
    let init = game.initialize();
    GameLoop::start(init, Ok(now)).expect("startup with good outcomes")
}

#[test]
fn one_update_after_exactly_one_step() {
    let mut s = session_at(0);
    let n = s.game_loop.run_frame(&mut s.game, &mut s.renderer, 1000);
    assert_eq!(n, 1);
    assert_eq!(s.game_loop.accumulated_time, 0);
    assert_eq!(s.game_loop.last_frame, 1000);
    assert_eq!(s.game.ticks, 1);
}

#[test]
fn zero_updates_on_short_frame_still_draws_once() {
    let mut s = session_at(0);
    let frames_before = s.renderer.frames;
    let n = s.game_loop.run_frame(&mut s.game, &mut s.renderer, 500);
    assert_eq!(n, 0);
    assert_eq!(s.game.ticks, 0);
    assert_eq!(s.game_loop.accumulated_time, 500);
    assert_eq!(s.renderer.frames, frames_before + 1);
}

#[test]
fn many_updates_catch_up_in_one_repaint() {
    let mut s = session_at(0);
    let frames_before = s.renderer.frames;
    let n = s.game_loop.run_frame(&mut s.game, &mut s.renderer, 3500);
    assert_eq!(n, 3);
    assert_eq!(s.game.ticks, 3);
    assert_eq!(s.game_loop.accumulated_time, 500);
    assert_eq!(s.renderer.frames, frames_before + 1);
}

#[test]
fn residual_carries_across_repaints() {
    let mut s = session_at(0);
    let n1 = s.game_loop.run_frame(&mut s.game, &mut s.renderer, 700);
    assert_eq!(n1, 0);
    assert_eq!(s.game_loop.accumulated_time, 700);
    let n2 = s.game_loop.run_frame(&mut s.game, &mut s.renderer, 1400);
    assert_eq!(n2, 1);
    assert_eq!(s.game_loop.accumulated_time, 400);
    assert_eq!(s.game.ticks, 1);
}

#[test]
fn update_count_is_floor_of_accumulated_over_step() {
    let mut s = session_at(100);
    let n = s.game_loop.run_frame(&mut s.game, &mut s.renderer, 2099);
    // accumulated 1999: one whole step, remainder 999.
    assert_eq!(n, 1);
    assert_eq!(s.game_loop.accumulated_time, 999);
    let n = s.game_loop.run_frame(&mut s.game, &mut s.renderer, 2100);
    // 999 carried + 1 elapsed: exactly one more step, nothing left over.
    assert_eq!(n, 1);
    assert_eq!(s.game_loop.accumulated_time, 0);
}

#[test]
fn each_repaint_draws_exactly_once() {
    let mut s = session_at(0);
    let mut perf = 0u64;
    for k in 1..=5u64 {
        perf += 700 * k;
        s.game_loop.run_frame(&mut s.game, &mut s.renderer, perf);
        assert_eq!(s.renderer.frames, k);
    }
}

#[test]
fn repaint_with_no_elapsed_time_only_draws() {
    let mut s = session_at(250);
    let n = s.game_loop.run_frame(&mut s.game, &mut s.renderer, 250);
    assert_eq!(n, 0);
    assert_eq!(s.game_loop.accumulated_time, 0);
    assert_eq!(s.renderer.frames, 1);
}

#[test]
fn startup_with_good_outcomes_builds_configured_session() {
    let s = session_at(42);
    assert_eq!(s.game_loop.last_frame, 42);
    assert_eq!(s.game_loop.accumulated_time, 0);
    assert_eq!(s.renderer.width, 600);
    assert_eq!(s.renderer.height, 600);
    assert!(s.renderer.configured);
    assert_eq!(s.renderer.frames, 0);
    assert_eq!(s.game.ticks, 0);
}

#[test]
fn failed_initialization_registers_no_callback() {
    // Drive the scheduling decision the way the hosting layer does: the
    // callback is registered only for a session that came to exist.
    let init: Result<Quacker, GameError> = Err(GameError::Platform(format!("fetch failed")));
    let mut registrations = 0;
    match GameLoop::start(init, Ok(0)) {
        Ok(_session) => registrations += 1,
        Err(e) => assert!(matches!(e, GameError::Platform(_))),
    }
    assert_eq!(registrations, 0);
}

#[test]
fn failed_clock_aborts_startup() {
    let game = Quacker::new();
    let r = GameLoop::start(game.initialize(), Err(GameError::NoWindow));
    assert!(matches!(r, Err(GameError::NoWindow)));
}

#[test]
fn renderer_counts_prepared_frames() {
    let mut r = Renderer::new(600, 600);
    assert_eq!(r.frames, 0);
    r.initialize();
    assert!(r.configured);
    r.clear();
    r.clear();
    assert_eq!(r.frames, 2);
}

#[test]
fn error_messages_name_the_failure() {
    assert_eq!(GameError::NoWindow.message(), "no window found");
    assert_eq!(GameError::NoDocument.message(), "no document found");
    let missing = GameError::ElementNotFound(format!("ui"));
    assert_eq!(missing.message(), "element not found");
    assert!(matches!(missing, GameError::ElementNotFound(id) if id == "ui"));
    assert_eq!(GameError::NoCanvas.message(), "no canvas element found");
    assert_eq!(GameError::Platform(format!("scheduling refused")).message(), "scheduling refused");
}
