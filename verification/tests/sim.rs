use sprite_sim::game::ai::State;
use sprite_sim::game::{Animation, Direction, GameState};

#[test]
fn new_game_state_layout() {
    let g = GameState::new(10);
    assert_eq!(g.last_frame, 10);
    assert_eq!(g.time_delta, Some(0));
    assert_eq!(g.current_sprite_frame, 0);
    assert_eq!(g.sprite_frame_count, 24);
    assert_eq!(g.instances.len(), 20);
    assert_eq!(g.ai_controllers.len(), 20);
    assert_eq!(g.animations.len(), 4);
    let expected_frames: Vec<Vec<usize>> = vec![
        vec![0, 1, 2, 3, 4],
        vec![6, 7, 8, 9, 10],
        vec![12, 13, 14, 15, 16],
        vec![18, 19, 20, 21, 22],
    ];
    for (a, frames) in g.animations.iter().zip(expected_frames.iter()) {
        assert_eq!(&a.frames, frames);
        assert_eq!(a.default_timing, 100);
    }
    for (i, inst) in g.instances.iter().enumerate() {
        assert_eq!(inst.position.x, 0);
        assert_eq!(inst.position.y, 2_000_000); // two world units up
        assert_eq!(inst.position.z, 0);
        assert_eq!(inst.direction, Direction::N);
        assert_eq!(inst.frame, 0);
        assert_eq!(inst.animator.current_frame_index, 0);
        assert_eq!(inst.animator.animation.frames, expected_frames[i % 4]);
        assert_eq!(inst.animator.current_frame, expected_frames[i % 4][0]);
        assert_eq!(inst.animator.last_frame_time, 10);
    }
    for c in &g.ai_controllers {
        assert!(matches!(c.state, State::Standing { duration: 2000, started: 10 }));
    }
}

#[test]
fn with_roster_assigns_animations_round_robin() {
    let animations = vec![
        Animation { frames: vec![0, 1], default_timing: 50 },
        Animation { frames: vec![2, 3], default_timing: 50 },
        Animation { frames: vec![4, 5], default_timing: 50 },
        Animation { frames: vec![6, 7], default_timing: 50 },
    ];
    let g = GameState::with_roster(6, animations, 0);
    assert_eq!(g.instances.len(), 6);
    assert_eq!(g.instances[0].animator.current_frame, 0);
    assert_eq!(g.instances[1].animator.current_frame, 2);
    assert_eq!(g.instances[2].animator.current_frame, 4);
    assert_eq!(g.instances[3].animator.current_frame, 6);
    assert_eq!(g.instances[4].animator.current_frame, 0);
    assert_eq!(g.instances[5].animator.current_frame, 2);
}

#[test]
fn walking_integrates_position_exactly() {
    // A walk of one unit per second to the right over half a second moves
    // the instance exactly half a world unit in x and nothing in y.
    let mut g = GameState::new(0);
    for c in g.ai_controllers.iter_mut() {
        c.state = State::Walking { duration: 10_000_000, started: 0, velocity: (1000, 0) };
    }
    g.update(500);
    assert_eq!(g.time_delta, Some(500));
    assert_eq!(g.last_frame, 500);
    let inst = &g.instances[0];
    assert_eq!(inst.position.x, 500_000); // half of 1_000_000
    assert_eq!(inst.position.y, 2_000_000); // unchanged
    assert_eq!(inst.position.z, 0);
}

#[test]
fn walking_rebinding_switches_animation_and_keeps_index() {
    let mut g = GameState::new(0);
    for c in g.ai_controllers.iter_mut() {
        c.state = State::Walking { duration: 10_000_000, started: 0, velocity: (1000, 0) };
    }
    // (1000, 0): horizontal dominates, vx >= 0, so the instance turns West
    // and is rebound to the West animation (frames 6..=10). 500 ms also
    // fires one animator advance: index 1, frame 7.
    g.update(500);
    let inst = &g.instances[0];
    assert_eq!(inst.direction, Direction::W);
    assert_eq!(inst.animator.animation.frames, vec![6, 7, 8, 9, 10]);
    assert_eq!(inst.animator.current_frame_index, 1);
    assert_eq!(inst.animator.current_frame, 7);

    // Turn around: (-1000, 0) resolves East (frames 18..=22). The frame
    // index carries over from 1 and steps to 2 — it is not reset to 0 —
    // so the displayed frame is 20, not 19.
    for c in g.ai_controllers.iter_mut() {
        c.state = State::Walking { duration: 10_000_000, started: 0, velocity: (-1000, 0) };
    }
    g.update(700);
    let inst = &g.instances[0];
    assert_eq!(inst.direction, Direction::E);
    assert_eq!(inst.animator.animation.frames, vec![18, 19, 20, 21, 22]);
    assert_eq!(inst.animator.current_frame_index, 2);
    assert_eq!(inst.animator.current_frame, 20);
    assert_eq!(inst.position.x, 500_000 - 200_000);
}

#[test]
fn unchanged_direction_does_not_rebind() {
    let mut g = GameState::new(0);
    for c in g.ai_controllers.iter_mut() {
        c.state = State::Walking { duration: 10_000_000, started: 0, velocity: (0, -500) };
    }
    // (0, -500) resolves South; a second tick with a different velocity of
    // the same direction must keep the animation without re-cloning it.
    g.update(10);
    assert_eq!(g.instances[0].direction, Direction::S);
    assert_eq!(g.instances[0].animator.animation.frames, vec![0, 1, 2, 3, 4]);
    for c in g.ai_controllers.iter_mut() {
        c.state = State::Walking { duration: 10_000_000, started: 0, velocity: (100, -900) };
    }
    g.update(20);
    assert_eq!(g.instances[0].direction, Direction::S);
    assert_eq!(g.instances[0].animator.animation.frames, vec![0, 1, 2, 3, 4]);
}

#[test]
fn standing_instances_keep_animating() {
    // The initial controllers stand for 2000 ms; a 150 ms tick moves no
    // instance but advances every animator once.
    let mut g = GameState::new(0);
    g.update(150);
    for c in &g.ai_controllers {
        assert!(matches!(c.state, State::Standing { duration: 2000, started: 0 }));
    }
    for (i, inst) in g.instances.iter().enumerate() {
        assert_eq!(inst.position.x, 0);
        assert_eq!(inst.position.y, 2_000_000);
        assert_eq!(inst.direction, Direction::N);
        assert_eq!(inst.animator.current_frame_index, 1);
        assert_eq!(inst.animator.current_frame, [1, 7, 13, 19][i % 4]);
        assert_eq!(inst.animator.last_frame_time, 150);
    }
}

#[test]
fn zero_elapsed_tick_skips_animators_but_runs_the_walk() {
    let mut g = GameState::new(0);
    for c in g.ai_controllers.iter_mut() {
        c.state = State::Walking { duration: 10_000_000, started: 0, velocity: (1000, 0) };
    }
    // Advance once so the animator has a non-trivial state.
    g.update(200);
    let frame_before = g.instances[0].animator.current_frame;
    let index_before = g.instances[0].animator.current_frame_index;
    let x_before = g.instances[0].position.x;
    // A tick with zero elapsed time: the walk logic still runs (moving by
    // zero, re-resolving the direction) but no animator is touched.
    g.update(200);
    assert_eq!(g.time_delta, Some(0));
    let inst = &g.instances[0];
    assert_eq!(inst.position.x, x_before);
    assert_eq!(inst.animator.current_frame, frame_before);
    assert_eq!(inst.animator.current_frame_index, index_before);
    assert_eq!(inst.animator.last_frame_time, 200);
    assert_eq!(inst.direction, Direction::W);
}

#[test]
fn full_tick_under_the_real_random_source() {
    // Drive the whole roster through the randomized controller updates: at
    // 2001 ms every controller's initial standing phase has expired, so
    // every instance starts walking and moves by its freshly drawn velocity
    // over the whole elapsed time.
    let mut g = GameState::new(0);
    g.update(2001);
    for (inst, c) in g.instances.iter().zip(g.ai_controllers.iter()) {
        match c.state {
            State::Walking { duration, started, velocity } => {
                assert!((800..=1799).contains(&duration));
                assert_eq!(started, 2001);
                assert!((-1000..=1000).contains(&velocity.0));
                assert!((-1000..=1000).contains(&velocity.1));
                assert_eq!(inst.position.x, velocity.0 * 2001);
                assert_eq!(inst.position.y, 2_000_000 + velocity.1 * 2001);
            }
            State::Standing { .. } => panic!("every controller should walk now"),
        }
    }
}
