use gravity_sandbox::planets::{
    EditError, Planet, Sandbox, Transition, DEFAULT_GRAVITY_BITS, DEFAULT_RADIUS_BITS,
};
use gravity_sandbox::scalar::{Scalar, Vec2};
use gravity_sandbox::schedule::Action;
use gravity_sandbox::world::{GameState, Signal, Work};

fn scalar(value: f32) -> Scalar {
    Scalar::from_bits(value.to_bits())
}

fn point(x: f32, y: f32) -> Vec2 {
    Vec2::new(scalar(x), scalar(y))
}

fn three_bodies() -> Sandbox {
    let mut sandbox = Sandbox::new();
    sandbox.spawn_planet(point(0.0, 0.0)).unwrap();
    sandbox.spawn_planet(point(120.0, -40.0)).unwrap();
    sandbox.spawn_planet(point(-300.5, 12.25)).unwrap();
    sandbox
}

fn staged_after_toggle(sandbox: &mut Sandbox) -> Vec<Vec2> {
    match sandbox.toggle() {
        Transition::Resumed { staged } => staged,
        Transition::Suspended => panic!("the simulation was not paused"),
    }
}

#[test]
fn default_constants_are_the_ieee_patterns() {
    assert_eq!(DEFAULT_GRAVITY_BITS, 10.0f32.to_bits());
    assert_eq!(DEFAULT_RADIUS_BITS, 100.0f32.to_bits());
}

#[test]
fn a_new_sandbox_is_paused_and_empty() {
    let sandbox = Sandbox::new();
    assert_eq!(sandbox.state(), GameState::Paused);
    assert_eq!(sandbox.planet_count(), 0);
    assert_eq!(sandbox.game().planet_count(), 0);
    assert!(sandbox.snapshot().is_empty());
    assert_eq!(sandbox.planet(0), None);
    assert_eq!(sandbox.planet(1), None);
}

#[test]
fn spawning_three_bodies_assigns_three_distinct_ids() {
    let mut sandbox = Sandbox::new();
    let a = sandbox.spawn_planet(point(0.0, 0.0)).unwrap();
    let b = sandbox.spawn_planet(point(10.0, 0.0)).unwrap();
    let c = sandbox.spawn_planet(point(0.0, 10.0)).unwrap();
    assert_eq!((a, b, c), (1, 2, 3));
    assert!(a != b && b != c && a != c);
    assert_eq!(sandbox.planet_count(), 3);
    assert_eq!(sandbox.game().planet_count(), 3);
    assert_eq!(sandbox.planet(a).unwrap().id, a);
    assert_eq!(sandbox.planet(b).unwrap().id, b);
    assert_eq!(sandbox.planet(c).unwrap().id, c);
    assert_eq!(sandbox.planet(b).unwrap().position, point(10.0, 0.0));
    // Identities are stable under every later operation.
    sandbox.stage_velocity(b, point(1.0, 2.0)).unwrap();
    sandbox.toggle();
    sandbox.spawn_planet(point(5.0, 5.0)).unwrap();
    assert_eq!(sandbox.planet(a).unwrap().id, a);
    assert_eq!(sandbox.planet(b).unwrap().position, point(10.0, 0.0));
    assert_eq!(sandbox.planet(c).unwrap().position, point(0.0, 10.0));
    assert_eq!(sandbox.planet_count(), 4);
}

#[test]
fn a_spawned_body_is_at_rest_with_default_parameters() {
    let mut sandbox = Sandbox::new();
    let id = sandbox.spawn_planet(point(-7.5, 3.0)).unwrap();
    let planet = sandbox.planet(id).unwrap();
    assert_eq!(
        planet,
        Planet {
            id: 1,
            position: point(-7.5, 3.0),
            velocity: point(0.0, 0.0),
            acceleration: point(0.0, 0.0),
            initial_velocity: point(0.0, 0.0),
            gravity: scalar(10.0),
            radius: scalar(100.0),
        }
    );
    assert!(planet.is_sound());
}

#[test]
fn a_spawn_at_a_position_that_is_no_number_is_refused() {
    let mut sandbox = Sandbox::new();
    assert_eq!(sandbox.spawn_planet(point(f32::NAN, 0.0)), Err(EditError::NotFinite));
    assert_eq!(sandbox.spawn_planet(point(0.0, f32::INFINITY)), Err(EditError::NotFinite));
    assert_eq!(sandbox.planet_count(), 0);
    assert_eq!(sandbox.spawn_planet(point(0.0, 0.0)), Ok(1));
}

#[test]
fn edits_of_an_unknown_body_are_refused() {
    let mut sandbox = three_bodies();
    let before = sandbox.snapshot();
    assert_eq!(sandbox.stage_velocity(0, point(1.0, 1.0)), Err(EditError::UnknownPlanet));
    assert_eq!(sandbox.stage_velocity(4, point(1.0, 1.0)), Err(EditError::UnknownPlanet));
    assert_eq!(sandbox.set_gravity(4, scalar(5.0)), Err(EditError::UnknownPlanet));
    assert_eq!(sandbox.set_radius(0, scalar(5.0)), Err(EditError::UnknownPlanet));
    assert_eq!(sandbox.set_radius(9, scalar(-5.0)), Err(EditError::UnknownPlanet));
    assert_eq!(sandbox.snapshot(), before);
}

#[test]
fn only_positive_strength_and_radius_are_admitted() {
    let mut sandbox = three_bodies();
    for bad in [0.0f32, -0.0, -1.0, f32::INFINITY, f32::NEG_INFINITY, f32::NAN] {
        assert_eq!(sandbox.set_gravity(2, scalar(bad)), Err(EditError::NotPositive));
        assert_eq!(sandbox.set_radius(2, scalar(bad)), Err(EditError::NotPositive));
    }
    assert_eq!(sandbox.planet(2).unwrap().gravity, scalar(10.0));
    assert_eq!(sandbox.planet(2).unwrap().radius, scalar(100.0));
    assert_eq!(sandbox.set_gravity(2, scalar(42.5)), Ok(()));
    assert_eq!(sandbox.set_radius(2, scalar(0.25)), Ok(()));
    assert_eq!(sandbox.planet(2).unwrap().gravity, scalar(42.5));
    assert_eq!(sandbox.planet(2).unwrap().radius, scalar(0.25));
    assert_eq!(sandbox.planet(1).unwrap().gravity, scalar(10.0));
    assert_eq!(sandbox.planet(3).unwrap().radius, scalar(100.0));
}

#[test]
fn staging_changes_only_the_staged_velocity() {
    let mut sandbox = three_bodies();
    let before = sandbox.snapshot();
    assert_eq!(sandbox.stage_velocity(3, point(2.5, -1.0)), Ok(()));
    let after = sandbox.snapshot();
    assert_eq!(after[0], before[0]);
    assert_eq!(after[1], before[1]);
    assert_eq!(after[2], Planet { initial_velocity: point(2.5, -1.0), ..before[2] });
    assert_eq!(sandbox.stage_velocity(3, point(f32::NAN, 0.0)), Err(EditError::NotFinite));
    assert_eq!(sandbox.snapshot(), after);
}

#[test]
fn staging_while_running_is_stored_and_lies_inert() {
    let mut sandbox = three_bodies();
    sandbox.toggle();
    assert_eq!(sandbox.state(), GameState::Running);
    assert_eq!(sandbox.stage_velocity(1, point(4.0, 4.0)), Ok(()));
    assert_eq!(sandbox.planet(1).unwrap().velocity, point(0.0, 0.0));
    assert_eq!(sandbox.planet(1).unwrap().initial_velocity, point(4.0, 4.0));
}

#[test]
fn resuming_hands_out_the_staged_velocities_and_resets_them() {
    let mut sandbox = three_bodies();
    sandbox.stage_velocity(1, point(1.0, 2.0)).unwrap();
    sandbox.stage_velocity(3, point(-3.0, 0.5)).unwrap();
    let staged = staged_after_toggle(&mut sandbox);
    assert_eq!(staged, vec![point(1.0, 2.0), point(0.0, 0.0), point(-3.0, 0.5)]);
    assert_eq!(sandbox.state(), GameState::Running);
    for planet in sandbox.snapshot() {
        assert_eq!(planet.initial_velocity, Vec2::zero());
        assert_eq!(planet.initial_velocity.x.to_bits(), 0);
        assert_eq!(planet.initial_velocity.y.to_bits(), 0);
    }
}

#[test]
fn a_second_resume_without_an_edit_adds_nothing() {
    let mut sandbox = three_bodies();
    sandbox.stage_velocity(2, point(9.0, 9.0)).unwrap();
    staged_after_toggle(&mut sandbox);
    let running = sandbox.snapshot();
    assert!(matches!(sandbox.toggle(), Transition::Suspended));
    assert_eq!(sandbox.state(), GameState::Paused);
    assert_eq!(sandbox.snapshot(), running);
    let staged = staged_after_toggle(&mut sandbox);
    assert_eq!(staged, vec![Vec2::zero(); 3]);
    assert_eq!(sandbox.snapshot(), running);
}

#[test]
fn pausing_changes_no_body() {
    let mut sandbox = three_bodies();
    sandbox.toggle();
    sandbox.stage_velocity(1, point(1.0, 1.0)).unwrap();
    let before = sandbox.snapshot();
    assert!(matches!(sandbox.toggle(), Transition::Suspended));
    assert_eq!(sandbox.snapshot(), before);
}

#[test]
fn motion_is_stored_only_while_running() {
    let mut sandbox = three_bodies();
    let mut bodies = sandbox.snapshot();
    bodies[0].position = point(1.0, 1.0);
    assert_eq!(sandbox.store_motion(&bodies), Err(EditError::NotRunning));
    assert_eq!(sandbox.planet(1).unwrap().position, point(0.0, 0.0));
    sandbox.toggle();
    assert_eq!(sandbox.store_motion(&bodies), Ok(()));
    assert_eq!(sandbox.planet(1).unwrap().position, point(1.0, 1.0));
    assert_eq!(sandbox.snapshot(), bodies);
}

#[test]
fn stored_motion_must_keep_identity_and_parameters() {
    let mut sandbox = three_bodies();
    sandbox.toggle();
    let stored = sandbox.snapshot();

    let mut fewer = stored.clone();
    fewer.pop();
    assert_eq!(sandbox.store_motion(&fewer), Err(EditError::Mismatch));

    let mut renamed = stored.clone();
    renamed[1].id = 7;
    assert_eq!(sandbox.store_motion(&renamed), Err(EditError::Mismatch));

    let mut heavier = stored.clone();
    heavier[2].gravity = scalar(11.0);
    assert_eq!(sandbox.store_motion(&heavier), Err(EditError::Mismatch));

    let mut wider = stored.clone();
    wider[0].radius = scalar(101.0);
    assert_eq!(sandbox.store_motion(&wider), Err(EditError::Mismatch));

    let mut restaged = stored.clone();
    restaged[0].initial_velocity = point(1.0, 0.0);
    assert_eq!(sandbox.store_motion(&restaged), Err(EditError::Mismatch));

    // A mismatch is reported before a coordinate that is no number.
    let mut both = stored.clone();
    both[0].velocity = point(f32::NAN, 0.0);
    both[2].id = 9;
    assert_eq!(sandbox.store_motion(&both), Err(EditError::Mismatch));

    assert_eq!(sandbox.snapshot(), stored);
}

#[test]
fn motion_that_is_no_number_is_never_stored() {
    let mut sandbox = three_bodies();
    sandbox.toggle();
    let stored = sandbox.snapshot();
    for bad in [f32::NAN, f32::INFINITY, f32::NEG_INFINITY] {
        let mut a = stored.clone();
        a[1].position = point(bad, 0.0);
        assert_eq!(sandbox.store_motion(&a), Err(EditError::NotFinite));
        let mut b = stored.clone();
        b[2].velocity = point(0.0, bad);
        assert_eq!(sandbox.store_motion(&b), Err(EditError::NotFinite));
        let mut c = stored.clone();
        c[0].acceleration = point(bad, bad);
        assert_eq!(sandbox.store_motion(&c), Err(EditError::NotFinite));
    }
    assert_eq!(sandbox.snapshot(), stored);
}

#[test]
fn a_snapshot_is_detached_from_the_live_bodies() {
    let mut sandbox = three_bodies();
    sandbox.stage_velocity(1, point(1.0, 0.0)).unwrap();
    let live = sandbox.snapshot();
    let mut copy = sandbox.snapshot();
    for planet in copy.iter_mut() {
        planet.position = point(999.0, 999.0);
        planet.velocity = point(1.0, 1.0);
        planet.initial_velocity = point(2.0, 2.0);
    }
    assert_eq!(sandbox.snapshot(), live);
    assert_eq!(sandbox.snapshot(), sandbox.snapshot());
}

#[test]
fn the_speed_of_a_sandbox_is_clamped_and_leaves_the_rest() {
    let mut sandbox = three_bodies();
    let before = sandbox.snapshot();
    sandbox.set_speed(scalar(2000.0));
    assert_eq!(sandbox.game().speed(), scalar(1000.0));
    sandbox.set_speed(scalar(64.0));
    assert_eq!(sandbox.game().speed(), scalar(64.0));
    assert_eq!(sandbox.game().stepsize(), scalar(0.1));
    assert_eq!(sandbox.game().planet_count(), 3);
    assert_eq!(sandbox.state(), GameState::Paused);
    assert_eq!(sandbox.snapshot(), before);
}

#[test]
fn soundness_and_motion_checks_of_a_single_record() {
    let sound = Planet {
        id: 1,
        position: point(1.0, 2.0),
        velocity: point(0.0, 0.0),
        acceleration: point(0.0, 0.0),
        initial_velocity: point(0.0, 0.0),
        gravity: scalar(10.0),
        radius: scalar(100.0),
    };
    assert!(sound.is_sound());
    assert!(!Planet { radius: scalar(0.0), ..sound }.is_sound());
    assert!(!Planet { gravity: scalar(-1.0), ..sound }.is_sound());
    assert!(!Planet { initial_velocity: point(f32::NAN, 0.0), ..sound }.is_sound());
    let moved = Planet { position: point(5.0, 5.0), velocity: point(1.0, 0.0), ..sound };
    assert!(moved.is_moved_from(&sound));
    assert!(!Planet { id: 2, ..sound }.is_moved_from(&sound));
    assert!(!Planet { radius: scalar(1.0), ..sound }.is_moved_from(&sound));
}

#[test]
fn the_sandbox_tells_what_a_signal_sets_in_motion() {
    let mut sandbox = three_bodies();
    assert_eq!(sandbox.work_on(Signal::Tick), Work::Idle);
    assert_eq!(sandbox.work_on(Signal::Frame { preview: true }), Work::Predict);
    assert_eq!(sandbox.work_on(Signal::Frame { preview: false }), Work::Idle);
    assert_eq!(sandbox.work_on(Signal::Toggle), Work::CommitStaged);
    assert_eq!(sandbox.state(), GameState::Paused);
    sandbox.toggle();
    assert_eq!(sandbox.work_on(Signal::Tick), Work::Integrate);
    assert_eq!(sandbox.work_on(Signal::Frame { preview: true }), Work::Idle);
    assert_eq!(sandbox.work_on(Signal::Toggle), Work::Idle);
    assert_eq!(sandbox.state(), GameState::Running);
}

#[test]
fn stepper_and_predictor_of_a_sandbox_cover_its_bodies() {
    let sandbox = three_bodies();
    let stepper = sandbox.stepper();
    assert_eq!(stepper.body_count(), 3);
    assert_eq!(stepper.total_steps(), 1);
    assert_eq!(stepper.peek(), Action::Interact { first: 1, second: 0 });
    let predictor = sandbox.predictor();
    assert_eq!(predictor.pending(), Action::Interact { first: 1, second: 0 });
    assert_eq!(predictor.path_len(3), Some(0));
    assert_eq!(predictor.path_len(4), None);
    assert!(Sandbox::new().stepper().is_finished());
    assert!(Sandbox::new().predictor().is_finished());
}

#[test]
fn a_step_begins_with_every_acceleration_at_zero() {
    let mut sandbox = three_bodies();
    sandbox.toggle();
    let mut moved = sandbox.snapshot();
    moved[0].acceleration = point(3.0, -2.0);
    moved[2].acceleration = point(0.5, 0.5);
    moved[1].velocity = point(1.0, 1.0);
    sandbox.store_motion(&moved).unwrap();
    let start = sandbox.begin_step();
    assert_eq!(start.len(), 3);
    for (fresh, stored) in start.iter().zip(moved.iter()) {
        assert_eq!(fresh.acceleration, Vec2::zero());
        assert_eq!(*fresh, Planet { acceleration: Vec2::zero(), ..*stored });
        assert!(fresh.is_moved_from(stored));
    }
    assert_eq!(sandbox.snapshot(), moved);
}
