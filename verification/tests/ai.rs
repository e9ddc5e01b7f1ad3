use sprite_sim::game::ai::{AIController, State};

#[test]
fn new_controller_stands_for_two_seconds() {
    let c = AIController::new(7);
    assert!(matches!(c.state, State::Standing { duration: 2000, started: 7 }));
}

#[test]
fn no_transition_until_duration_strictly_elapses() {
    let mut c = AIController::new(0);
    c.update_with(1999, 1, 2, 3);
    assert!(matches!(c.state, State::Standing { duration: 2000, started: 0 }));
    // Exactly the duration is not enough: the rule is strict.
    c.update_with(2000, 1, 2, 3);
    assert!(matches!(c.state, State::Standing { duration: 2000, started: 0 }));
    c.update_with(2001, 1, 2, 3);
    assert!(matches!(c.state, State::Walking { .. }));
}

#[test]
fn standing_to_walking_samples_duration_and_velocity() {
    let mut c = AIController::new(0);
    c.update_with(2001, 5, 0, 2000);
    match c.state {
        State::Walking { duration, started, velocity } => {
            assert_eq!(duration, 805);
            assert_eq!(started, 2001);
            assert_eq!(velocity, (-1000, 1000));
        }
        State::Standing { .. } => panic!("expected a walking phase"),
    }
}

#[test]
fn walking_to_standing_drops_velocity() {
    let mut c = AIController::new(0);
    c.update_with(2001, 0, 1000, 1000);
    assert!(matches!(c.state, State::Walking { duration: 800, started: 2001, .. }));
    // 2801 is not strictly past 2001 + 800; one more millisecond is.
    c.update_with(2801, 999, 0, 0);
    assert!(matches!(c.state, State::Walking { .. }));
    c.update_with(2802, 999, 0, 0);
    assert!(matches!(c.state, State::Standing { duration: 1799, started: 2802 }));
}

#[test]
fn sampled_durations_cover_the_range_edges() {
    // jitter = r % 1000: 0 gives the minimum, 999 the maximum, 1000 wraps.
    let cases: Vec<(u64, u64)> = vec![(0, 800), (999, 1799), (1000, 800), (4321, 1121)];
    for (r, expected) in cases {
        let mut c = AIController::new(0);
        c.update_with(2001, r, 0, 0);
        match c.state {
            State::Walking { duration, .. } => assert_eq!(duration, expected),
            State::Standing { .. } => panic!("expected a walking phase"),
        }
    }
}

#[test]
fn sampled_velocity_components_cover_the_range_edges() {
    // component = r % 2001 - 1000: 0 gives -1000, 2000 gives 1000, 2001 wraps.
    let cases: Vec<(u64, i64)> = vec![(0, -1000), (2000, 1000), (1000, 0), (2001, -1000)];
    for (r, expected) in cases {
        let mut c = AIController::new(0);
        c.update_with(2001, 0, r, r);
        match c.state {
            State::Walking { velocity, .. } => assert_eq!(velocity, (expected, expected)),
            State::Standing { .. } => panic!("expected a walking phase"),
        }
    }
}

#[test]
fn phases_strictly_alternate_under_the_real_random_source() {
    // Every tick is spaced 1800 ms apart, which strictly exceeds any sampled
    // duration (at most 1799 ms), so every tick fires a transition: the
    // phases must strictly alternate, and every sampled duration and
    // velocity must lie in its documented range.
    let mut c = AIController::new(0);
    let mut now = 2001; // strictly past the 2000 ms initial standing phase
    let mut expect_walking = true;
    for _ in 0..50 {
        c.update(now);
        match c.state {
            State::Walking { duration, started, velocity } => {
                assert!(expect_walking, "two walking phases in a row");
                assert!((800..=1799).contains(&duration));
                assert_eq!(started, now);
                assert!((-1000..=1000).contains(&velocity.0));
                assert!((-1000..=1000).contains(&velocity.1));
            }
            State::Standing { duration, started } => {
                assert!(!expect_walking, "two standing phases in a row");
                assert!((800..=1799).contains(&duration));
                assert_eq!(started, now);
            }
        }
        expect_walking = !expect_walking;
        now += 1800;
    }
}

#[test]
fn update_leaves_an_unexpired_phase_alone() {
    // The randomized update must not touch a phase whose timer has not run
    // out, whatever it draws.
    let mut c = AIController::new(100);
    for now in [100, 500, 2100] {
        c.update(now);
        assert!(matches!(c.state, State::Standing { duration: 2000, started: 100 }));
    }
}
