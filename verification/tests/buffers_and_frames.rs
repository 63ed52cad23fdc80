use shader_sandbox::buffers::{BufferId, DoubleBufferedState};
use shader_sandbox::frame::{FrameAction, FrameDriver, FramePhase};

#[test]
fn baseline_has_buffer_a_current() {
    let state = DoubleBufferedState::new();
    assert!(state.a_current);
    assert_eq!(state.current(), BufferId::A);
    assert_eq!(state.next(), BufferId::B);
}

#[test]
fn other_buffer_is_the_other() {
    assert_eq!(BufferId::A.other(), BufferId::B);
    assert_eq!(BufferId::B.other(), BufferId::A);
}

#[test]
fn swap_exchanges_the_roles() {
    let mut state = DoubleBufferedState::new();
    state.swap();
    assert_eq!(state.current(), BufferId::B);
    assert_eq!(state.next(), BufferId::A);
    state.swap();
    assert_eq!(state, DoubleBufferedState::new());
}

#[test]
fn current_and_next_always_differ() {
    let mut state = DoubleBufferedState::new();
    for _ in 0..5 {
        assert_ne!(state.current(), state.next());
        state.swap();
    }
}

#[test]
fn reset_returns_to_baseline_from_either_state() {
    let mut state = DoubleBufferedState::new();
    state.reset();
    assert_eq!(state, DoubleBufferedState::new());
    state.swap();
    state.reset();
    assert_eq!(state, DoubleBufferedState::new());
}

#[test]
fn frame_runs_simulate_display_finish() {
    let mut driver = FrameDriver::new();
    assert_eq!(driver.phase, FramePhase::Idle);
    assert_eq!(driver.advance(), FrameAction::Simulate { source: BufferId::A, target: BufferId::B });
    assert_eq!(driver.phase, FramePhase::SimulatingPass);
    assert!(driver.buffers.a_current);
    assert_eq!(driver.advance(), FrameAction::Display { source: BufferId::B });
    assert_eq!(driver.phase, FramePhase::DisplayingPass);
    assert!(driver.buffers.a_current);
    assert_eq!(driver.advance(), FrameAction::Finished);
    assert_eq!(driver.phase, FramePhase::Idle);
    assert!(!driver.buffers.a_current);
}

#[test]
fn second_frame_reads_what_the_first_wrote() {
    let mut driver = FrameDriver::new();
    driver.advance();
    driver.advance();
    driver.advance();
    assert_eq!(driver.advance(), FrameAction::Simulate { source: BufferId::B, target: BufferId::A });
    assert_eq!(driver.advance(), FrameAction::Display { source: BufferId::A });
    assert_eq!(driver.advance(), FrameAction::Finished);
    assert_eq!(driver, FrameDriver::new());
}

#[test]
fn frames_with_a_zero_rule_leave_both_buffers_zero() {
    let mut textures = [vec![0u8; 16], vec![0u8; 16]];
    let mut driver = FrameDriver::new();
    let index = |id: BufferId| if id == BufferId::A { 0usize } else { 1usize };
    for _ in 0..7 {
        loop {
            match driver.advance() {
                FrameAction::Simulate { source, target } => {
                    assert_ne!(source, target);
                    let advanced: Vec<u8> = textures[index(source)].iter().map(|_| 0u8).collect();
                    textures[index(target)] = advanced;
                }
                FrameAction::Display { source } => {
                    assert!(textures[index(source)].iter().all(|cell| *cell == 0));
                }
                FrameAction::Finished => break,
            }
        }
    }
    assert!(textures[0].iter().all(|cell| *cell == 0));
    assert!(textures[1].iter().all(|cell| *cell == 0));
    assert!(!driver.buffers.a_current);
}

#[test]
fn hard_reset_abandons_the_frame() {
    let mut driver = FrameDriver::new();
    driver.advance();
    driver.advance();
    driver.advance();
    driver.advance();
    driver.hard_reset();
    assert_eq!(driver, FrameDriver::new());
}
