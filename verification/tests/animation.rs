use game_core::{AAnimation, Frame};

#[test]
fn it_works() {
    assert_eq!(2 + 2, 4);
}

#[test]
fn default_animation_is_inactive() {
    let a = AAnimation::default();
    assert_eq!(a.total_frames, 0);
    assert_eq!(a.max_count_till_next_frame, 0);
    assert_eq!(a.frame_life_time_count, 0);
    assert_eq!(a.current_frame, 0);
}

#[test]
fn countdown_decreases_without_advance() {
    let mut a = AAnimation {
        total_frames: 4,
        max_count_till_next_frame: 10,
        frame_life_time_count: 5,
        current_frame: 2,
    };
    let mut sprite: usize = 2;
    a.frame_update(&mut sprite, 3);
    assert_eq!(a.frame_life_time_count, 2);
    assert_eq!(a.current_frame, 2);
    assert_eq!(sprite, 2);
}

#[test]
fn countdown_clamps_at_zero() {
    let mut a = AAnimation {
        total_frames: 4,
        max_count_till_next_frame: 10,
        frame_life_time_count: 5,
        current_frame: 2,
    };
    let mut sprite: usize = 2;
    a.frame_update(&mut sprite, 9);
    assert_eq!(a.frame_life_time_count, 0);
    assert_eq!(a.current_frame, 2);
}

#[test]
fn expired_countdown_advances_and_resets() {
    let mut a = AAnimation {
        total_frames: 4,
        max_count_till_next_frame: 10,
        frame_life_time_count: 0,
        current_frame: 1,
    };
    let mut sprite: usize = 1;
    a.frame_update(&mut sprite, 3);
    assert_eq!(a.current_frame, 2);
    assert_eq!(a.frame_life_time_count, 10);
    assert_eq!(sprite, 2);
}

#[test]
fn advance_wraps_modulo() {
    let mut a = AAnimation {
        total_frames: 4,
        max_count_till_next_frame: 7,
        frame_life_time_count: 0,
        current_frame: 3,
    };
    let mut sprite: usize = 3;
    a.frame_update(&mut sprite, 1);
    assert_eq!(a.current_frame, 0);
    assert_eq!(a.frame_life_time_count, 7);
    assert_eq!(sprite, 0);
}

#[test]
fn cycle_returns_after_total_advances() {
    // Feeding the timer exactly its per-frame duration, each advance takes
    // two updates; after `total_frames` advances the frame index is back.
    let mut a = AAnimation {
        total_frames: 3,
        max_count_till_next_frame: 2,
        frame_life_time_count: 0,
        current_frame: 1,
    };
    let mut sprite: usize = 1;
    for _ in 0..(2 * a.total_frames) {
        a.frame_update(&mut sprite, 2);
    }
    assert_eq!(a.current_frame, 1);
    assert_eq!(a.frame_life_time_count, 0);
}

#[test]
fn inactive_animation_never_changes() {
    let mut a = AAnimation::default();
    let mut sprite: usize = 42;
    for dt in [0u64, 1, 5, 1000, u64::MAX] {
        a.frame_update(&mut sprite, dt);
        assert_eq!(a.current_frame, 0);
        assert_eq!(a.frame_life_time_count, 0);
        assert_eq!(sprite, 42);
    }
}

#[test]
fn frame_run_updates_every_entity() {
    let mut frame = Frame;
    let mut animations = vec![
        AAnimation {
            total_frames: 2,
            max_count_till_next_frame: 5,
            frame_life_time_count: 0,
            current_frame: 0,
        },
        AAnimation::default(),
        AAnimation {
            total_frames: 3,
            max_count_till_next_frame: 5,
            frame_life_time_count: 4,
            current_frame: 2,
        },
    ];
    let mut sprites: Vec<usize> = vec![0, 9, 2];
    frame.run(&mut animations, &mut sprites, 3);
    // first: expired countdown, advance 0 -> 1 and reset
    assert_eq!(animations[0].current_frame, 1);
    assert_eq!(animations[0].frame_life_time_count, 5);
    assert_eq!(sprites[0], 1);
    // second: inactive, untouched
    assert_eq!(animations[1].current_frame, 0);
    assert_eq!(sprites[1], 9);
    // third: countdown 4 -> 1, frame kept, sprite rewritten
    assert_eq!(animations[2].frame_life_time_count, 1);
    assert_eq!(animations[2].current_frame, 2);
    assert_eq!(sprites[2], 2);
}
