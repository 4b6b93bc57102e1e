use gravity_sandbox::scalar::Scalar;
use gravity_sandbox::world::{
    Game, GameState, Signal, Work, INITIAL_SPEED_BITS, MAX_SPEED_BITS, MIN_SPEED_BITS,
    STEP_SIZE_BITS,
};

#[test]
fn setting_constants_are_the_ieee_patterns() {
    assert_eq!(STEP_SIZE_BITS, 0.1f32.to_bits());
    assert_eq!(INITIAL_SPEED_BITS, 1.0f32.to_bits());
    assert_eq!(MIN_SPEED_BITS, 30.0f32.to_bits());
    assert_eq!(MAX_SPEED_BITS, 1000.0f32.to_bits());
}

#[test]
fn the_clock_starts_paused() {
    assert_eq!(GameState::initial(), GameState::Paused);
    assert!(!GameState::initial().is_running());
}

#[test]
fn toggling_alternates_between_the_two_states() {
    assert_eq!(GameState::Paused.toggled(), GameState::Running);
    assert_eq!(GameState::Running.toggled(), GameState::Paused);
    assert_eq!(GameState::Paused.toggled().toggled(), GameState::Paused);
}

#[test]
fn react_covers_every_state_and_signal() {
    let p = GameState::Paused;
    let r = GameState::Running;
    assert_eq!(p.react(Signal::Toggle), (r, Work::CommitStaged));
    assert_eq!(r.react(Signal::Toggle), (p, Work::Idle));
    assert_eq!(p.react(Signal::Tick), (p, Work::Idle));
    assert_eq!(r.react(Signal::Tick), (r, Work::Integrate));
    assert_eq!(p.react(Signal::Frame { preview: true }), (p, Work::Predict));
    assert_eq!(p.react(Signal::Frame { preview: false }), (p, Work::Idle));
    assert_eq!(r.react(Signal::Frame { preview: true }), (r, Work::Idle));
    assert_eq!(r.react(Signal::Frame { preview: false }), (r, Work::Idle));
}

#[test]
fn a_run_commits_once_per_resume() {
    let signals = vec![
        Signal::Tick,
        Signal::Toggle,
        Signal::Tick,
        Signal::Frame { preview: true },
        Signal::Tick,
        Signal::Toggle,
        Signal::Frame { preview: true },
        Signal::Toggle,
        Signal::Tick,
    ];
    let mut state = GameState::initial();
    let mut work = Vec::new();
    for signal in signals {
        let (next, due) = state.react(signal);
        state = next;
        work.push(due);
    }
    assert_eq!(
        work,
        vec![
            Work::Idle,
            Work::CommitStaged,
            Work::Integrate,
            Work::Idle,
            Work::Integrate,
            Work::Idle,
            Work::Predict,
            Work::CommitStaged,
            Work::Integrate,
        ]
    );
    assert_eq!(state, GameState::Running);
}

#[test]
fn a_new_game_has_the_fixed_step_size_and_no_planets() {
    let game = Game::new();
    assert_eq!(f32::from_bits(game.stepsize().to_bits()), 0.1);
    assert_eq!(f32::from_bits(game.speed().to_bits()), 1.0);
    assert_eq!(game.planet_count(), 0);
}

#[test]
fn set_speed_clamps_to_the_bounds() {
    let cases: Vec<(f32, f32)> = vec![
        (30.0, 30.0),
        (1000.0, 1000.0),
        (64.0, 64.0),
        (999.5, 999.5),
        (29.999, 30.0),
        (1.0, 30.0),
        (0.0, 30.0),
        (-0.0, 30.0),
        (-500.0, 30.0),
        (f32::NEG_INFINITY, 30.0),
        (1000.5, 1000.0),
        (1.0e30, 1000.0),
        (f32::INFINITY, 1000.0),
        (f32::NAN, 30.0),
        (-f32::NAN, 30.0),
    ];
    for (requested, expected) in cases {
        let mut game = Game::new();
        game.set_speed(Scalar::from_bits(requested.to_bits()));
        assert_eq!(f32::from_bits(game.speed().to_bits()), expected, "requested {requested}");
    }
}

#[test]
fn changing_the_speed_never_changes_the_step_size() {
    let mut game = Game::new();
    for requested in [30.0f32, 1000.0, 5.0, 1.0e9, f32::NAN] {
        game.set_speed(Scalar::from_bits(requested.to_bits()));
        assert_eq!(game.stepsize().to_bits(), 0.1f32.to_bits());
        assert_eq!(game.planet_count(), 0);
    }
}
