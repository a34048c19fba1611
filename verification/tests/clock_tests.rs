use deltaruined::clock::{
    ClockController, KeyFrame, WorldClock, COARSE_QUANTUM_MS, FINE_QUANTUM_MS,
};

fn keys(pause_held: bool, advance_held: bool, modifier_held: bool) -> KeyFrame {
    KeyFrame { pause_held, advance_held, modifier_held }
}

#[test]
fn initial_state_is_paused_at_zero() {
    let clock = WorldClock::new();
    assert!(clock.paused);
    assert_eq!(clock.elapsed_ms, 0);

    let ctl = ClockController::new();
    assert_eq!(ctl.prev, keys(false, false, false));
}

#[test]
fn world_clock_resource_interface() {
    let mut clock = WorldClock::new();
    assert!(clock.is_paused());

    clock.unpause();
    assert!(!clock.is_paused());
    assert_eq!(clock.elapsed_ms, 0);

    clock.pause();
    assert!(clock.is_paused());

    clock.advance_by(25);
    assert_eq!(clock.elapsed_ms, 25);
    assert!(clock.is_paused());
}

#[test]
fn pause_edges_toggle_by_parity() {
    let mut clock = WorldClock::new();
    let mut ctl = ClockController::new();

    // Three press-edges separated by releases: odd count, so the clock that
    // started paused ends playing.
    for presses in 1..=3 {
        ctl.frame(&mut clock, keys(true, false, false));
        ctl.frame(&mut clock, keys(false, false, false));
        assert_eq!(clock.paused, presses % 2 == 0);
    }
    assert!(!clock.paused);
    assert_eq!(clock.elapsed_ms, 0);
}

#[test]
fn step_while_playing_is_noop() {
    let mut clock = WorldClock::new();
    let mut ctl = ClockController::new();

    // Unpause via one press-edge, then try to step.
    ctl.frame(&mut clock, keys(true, false, false));
    ctl.frame(&mut clock, keys(false, false, false));
    assert!(!clock.paused);

    ctl.frame(&mut clock, keys(false, true, false));
    assert_eq!(clock.elapsed_ms, 0);
    ctl.frame(&mut clock, keys(false, false, false));
    ctl.frame(&mut clock, keys(false, true, true));
    assert_eq!(clock.elapsed_ms, 0);
    assert!(!clock.paused);
}

#[test]
fn step_quanta_are_exact() {
    assert_eq!(FINE_QUANTUM_MS, 10);
    assert_eq!(COARSE_QUANTUM_MS, 100);
    assert_eq!(COARSE_QUANTUM_MS, 10 * FINE_QUANTUM_MS);

    let mut clock = WorldClock::new();
    let mut ctl = ClockController::new();

    // Paused from the start: fine step with the modifier held.
    ctl.frame(&mut clock, keys(false, true, true));
    assert_eq!(clock.elapsed_ms, FINE_QUANTUM_MS);

    // Release, then a coarse step without the modifier.
    ctl.frame(&mut clock, keys(false, false, false));
    ctl.frame(&mut clock, keys(false, true, false));
    assert_eq!(clock.elapsed_ms, FINE_QUANTUM_MS + COARSE_QUANTUM_MS);
    assert!(clock.paused);
}

#[test]
fn holding_pause_key_toggles_at_most_once() {
    let mut clock = WorldClock::new();
    let mut ctl = ClockController::new();

    for _ in 0..5 {
        ctl.frame(&mut clock, keys(true, false, false));
        // The single press-edge of the run flipped the clock to playing;
        // the held frames after it must not flip it back.
        assert!(!clock.paused);
    }
    assert_eq!(clock.elapsed_ms, 0);
}

#[test]
fn holding_advance_key_steps_at_most_once() {
    let mut clock = WorldClock::new();
    let mut ctl = ClockController::new();

    for _ in 0..5 {
        ctl.frame(&mut clock, keys(false, true, false));
        assert_eq!(clock.elapsed_ms, COARSE_QUANTUM_MS);
    }
    assert!(clock.paused);
}

#[test]
fn scenario_pause_step_fine_then_coarse() {
    // Viewport 1280x960 session; the clock starts paused.
    let mut clock = WorldClock::new();
    let mut ctl = ClockController::new();
    assert!(clock.paused);

    // Press the pause key once: the clock starts playing.
    ctl.frame(&mut clock, keys(true, false, false));
    ctl.frame(&mut clock, keys(false, false, false));
    assert!(!clock.paused);

    // Press the advance key while playing: elapsed unchanged.
    ctl.frame(&mut clock, keys(false, true, false));
    ctl.frame(&mut clock, keys(false, false, false));
    assert_eq!(clock.elapsed_ms, 0);

    // Press the pause key again: paused.
    ctl.frame(&mut clock, keys(true, false, false));
    ctl.frame(&mut clock, keys(false, false, false));
    assert!(clock.paused);

    // Press the advance key with the modifier held: elapsed += 10 ms.
    ctl.frame(&mut clock, keys(false, true, true));
    ctl.frame(&mut clock, keys(false, false, false));
    assert_eq!(clock.elapsed_ms, 10);

    // Press the advance key without the modifier: elapsed += 100 ms.
    ctl.frame(&mut clock, keys(false, true, false));
    ctl.frame(&mut clock, keys(false, false, false));

    // Total advance over the whole scenario: 110 ms.
    assert_eq!(clock.elapsed_ms, 110);
    assert!(clock.paused);
}
