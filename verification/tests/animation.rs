use pixi::animation::{Animation, TICKS_PER_FRAME};

const S: i64 = TICKS_PER_FRAME;

#[test]
fn construction_defaults() {
    let a: Animation<u8> = Animation::new(vec![1, 2, 3], Vec::new());
    assert!(a.is_looped());
    assert!(!a.is_playing());
    assert_eq!(a.len(), 3);
    assert!(!a.is_empty());
    assert_eq!(a.speed(), 1000);
    assert_eq!(a.current_frame(), 0);

    let empty: Animation<u8> = Animation::new(Vec::new(), Vec::new());
    assert!(empty.is_empty());
    assert_eq!(empty.len(), 0);
}

#[test]
fn looped_uniform_playback_wraps() {
    // Four frames, uniform speed: each full-frame step reports the next
    // frame, wrapped exactly when the step closes the loop.
    let n: usize = 4;
    let mut a: Animation<()> = Animation::new(vec![(); 4], Vec::new());
    a.play();
    for i in 0..(2 * n) {
        let ev = a.update(S);
        let expect_frame = (i + 1) % n;
        let expect_wrap = (i + 1) % n == 0;
        assert_eq!(ev, Some((expect_frame, expect_wrap)));
        assert_eq!(a.current_frame(), expect_frame);
        assert!(a.is_playing());
    }
}

#[test]
fn sub_frame_steps_report_nothing() {
    let mut a: Animation<()> = Animation::new(vec![(); 4], Vec::new());
    assert_eq!(a.update(S / 2), None);
    assert_eq!(a.current_frame(), 0);
    assert_eq!(a.update(S / 2), Some((1, false)));
}

#[test]
fn non_looped_clamps_at_end_and_stops() {
    // Five frames, not looped: driving the clock past the end clamps to
    // the last frame, stops playback, and reports it as wrapped.
    let mut a: Animation<u8> = Animation::new(vec![0; 5], Vec::new());
    a.set_looped(false);
    a.play();
    assert_eq!(a.update(3 * S), Some((3, false)));
    assert!(a.is_playing());
    assert_eq!(a.update(3 * S), Some((4, true)));
    assert!(!a.is_playing());
    assert_eq!(a.current_frame(), 4);
    // The engine does not guard against stepping a stopped animation:
    // another step past the end reports the clamp again.
    assert_eq!(a.update(S), Some((4, true)));
    assert!(!a.is_playing());
}

#[test]
fn non_looped_clamps_at_start_backward() {
    let mut a: Animation<u8> = Animation::new(vec![0; 5], Vec::new());
    a.set_looped(false);
    a.set_speed(-1000);
    a.goto_and_play(2);
    assert_eq!(a.update(3 * S), Some((0, true)));
    assert!(!a.is_playing());
    assert_eq!(a.current_frame(), 0);
}

#[test]
fn backward_looped_playback_wraps() {
    let mut a: Animation<u8> = Animation::new(vec![0; 3], Vec::new());
    a.set_speed(-1000);
    a.play();
    // From frame 0 one step back lands on the last frame, wrapped.
    assert_eq!(a.update(S), Some((2, true)));
    assert_eq!(a.update(S), Some((1, false)));
    assert_eq!(a.update(S), Some((0, false)));
    assert_eq!(a.update(S), Some((2, true)));
}

#[test]
fn goto_and_stop_positions_the_clock() {
    let mut a: Animation<u8> = Animation::new(vec![0; 6], Vec::new());
    a.goto_and_play(4);
    assert!(a.is_playing());
    assert_eq!(a.current_frame(), 4);
    a.goto_and_stop(1);
    assert!(!a.is_playing());
    assert_eq!(a.current_frame(), 1);
}

#[test]
fn durations_hold_frames_for_their_own_time() {
    // Frame 0 holds 100 ms, frame 1 holds 200 ms. One frame of step time
    // is worth 1000/60 ms of lag, so six frames' worth covers frame 0.
    let mut a: Animation<u8> = Animation::new(vec![0, 1], vec![100, 200]);
    a.play();
    assert_eq!(a.update(6 * S), Some((1, false)));
    assert_eq!(a.current_frame(), 1);
}

#[test]
fn durations_accumulate_fractional_lag() {
    let mut a: Animation<u8> = Animation::new(vec![0, 1], vec![100, 200]);
    a.play();
    // Half of frame 0's duration: no event yet.
    assert_eq!(a.update(3 * S), None);
    assert_eq!(a.current_frame(), 0);
    // The second half arrives exactly at frame 1.
    assert_eq!(a.update(3 * S), Some((1, false)));
    assert_eq!(a.current_frame(), 1);
}

#[test]
fn durations_step_backward() {
    let mut a: Animation<u8> = Animation::new(vec![0, 1], vec![100, 200]);
    a.play();
    assert_eq!(a.update(6 * S), Some((1, false)));
    a.set_speed(-1000);
    // 50 ms backward out of frame 1 lands halfway into frame 0; the index
    // change is reported, not marked as wrapped.
    assert_eq!(a.update(3 * S), Some((0, false)));
    assert_eq!(a.current_frame(), 0);
}
