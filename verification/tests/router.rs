use shader_sandbox::brush::BrushColor;
use shader_sandbox::buffers::BufferId;
use shader_sandbox::coords::{ScreenCoordinate, SimulationCoordinate, WindowSize};
use shader_sandbox::frame::{FrameAction, FrameDriver, FramePhase};
use shader_sandbox::input::{on_pointer_event, ButtonState, PaintCommand};
use shader_sandbox::router::{Command, Key, MouseButton, Sandbox, WindowEvent};

fn window() -> WindowSize {
    WindowSize { width: 1024, height: 1024 }
}

fn at(x: i32, y: i32) -> ScreenCoordinate {
    ScreenCoordinate::at_pixel(x, y)
}

fn press(button: MouseButton) -> WindowEvent {
    WindowEvent::Mouse { button, pressed: true }
}

fn release(button: MouseButton) -> WindowEvent {
    WindowEvent::Mouse { button, pressed: false }
}

fn moved(x: i32, y: i32) -> WindowEvent {
    WindowEvent::CursorMoved { position: at(x, y) }
}

fn key(key: Key, pressed: bool) -> WindowEvent {
    WindowEvent::Keyboard { key, pressed }
}

fn painted(command: Command) -> PaintCommand {
    match command {
        Command::Paint(paint) => paint,
        other => panic!("expected a stamp, got {:?}", other),
    }
}

fn buttons(left: bool, right: bool, middle: bool) -> ButtonState {
    ButtonState { left, right, middle, ctrl: false }
}

#[test]
fn new_sandbox_is_at_rest() {
    let sandbox = Sandbox::new(window());
    assert_eq!(sandbox.buttons, ButtonState::released());
    assert_eq!(sandbox.cursor, None);
    assert_eq!(sandbox.window, window());
    assert_eq!(sandbox.driver, FrameDriver::new());
}

#[test]
fn left_button_paints_first_channel() {
    let outcome = on_pointer_event(buttons(true, false, false), Some(at(512, 512)), at(520, 512), BufferId::B, window());
    let paint = outcome.paint.expect("a stamp is due");
    assert_eq!(paint.stamp.color.components(), (1, 0, 0));
    assert_eq!(paint.stamp.target, BufferId::B);
    assert_eq!(paint.stamp.origin, SimulationCoordinate { x: 123, y: 123 });
    assert_eq!(paint.cells[5][5].components(), (1, 0, 0));
    assert_eq!(paint.cells[0][0].components(), (0, 0, 0));
    assert_eq!(outcome.track, Some(at(520, 512)));
}

#[test]
fn left_and_middle_paint_first_and_third_channel() {
    let outcome = on_pointer_event(buttons(true, false, true), Some(at(0, 0)), at(1, 1), BufferId::A, window());
    let paint = outcome.paint.expect("a stamp is due");
    assert_eq!(paint.stamp.color.components(), (1, 0, 1));
    assert_eq!(paint.stamp.target, BufferId::A);
    assert_eq!(paint.stamp.origin, SimulationCoordinate { x: 0, y: 245 });
    assert_eq!(paint.cells[5][5], BrushColor { left: true, right: false, middle: true });
}

#[test]
fn every_button_combination_sets_its_channels() {
    for bits in 1..8u8 {
        let held = buttons(bits & 1 != 0, bits & 2 != 0, bits & 4 != 0);
        let outcome = on_pointer_event(held, Some(at(10, 10)), at(10, 10), BufferId::B, window());
        let paint = outcome.paint.expect("a stamp is due");
        assert_eq!(paint.stamp.color.components(), (bits & 1, (bits >> 1) & 1, (bits >> 2) & 1));
    }
}

#[test]
fn no_button_means_no_write_on_move() {
    let outcome = on_pointer_event(buttons(false, false, false), Some(at(512, 512)), at(600, 600), BufferId::B, window());
    assert_eq!(outcome.paint, None);
    assert_eq!(outcome.track, Some(at(600, 600)));
}

#[test]
fn modifier_alone_does_not_paint() {
    let held = ButtonState { left: false, right: false, middle: false, ctrl: true };
    let outcome = on_pointer_event(held, Some(at(512, 512)), at(600, 600), BufferId::B, window());
    assert_eq!(outcome.paint, None);
}

#[test]
fn first_move_after_buttons_go_down_writes_nothing() {
    let outcome = on_pointer_event(buttons(true, true, true), None, at(300, 300), BufferId::B, window());
    assert_eq!(outcome.paint, None);
    assert_eq!(outcome.track, Some(at(300, 300)));
}

#[test]
fn stamp_lags_one_sample_behind_the_cursor() {
    let mut sandbox = Sandbox::new(window());
    assert_eq!(sandbox.handle_event(press(MouseButton::Left)), Command::Nothing);
    assert_eq!(sandbox.handle_event(moved(512, 512)), Command::Nothing);
    let paint = painted(sandbox.handle_event(moved(1020, 4)));
    assert_eq!(paint.stamp.origin, SimulationCoordinate { x: 123, y: 123 });
    let paint = painted(sandbox.handle_event(moved(0, 0)));
    assert_eq!(paint.stamp.origin, SimulationCoordinate { x: 245, y: 245 });
    assert_eq!(sandbox.cursor, Some(at(0, 0)));
}

#[test]
fn button_change_paints_at_the_tracked_position() {
    let mut sandbox = Sandbox::new(window());
    assert_eq!(sandbox.handle_event(moved(512, 512)), Command::Nothing);
    let paint = painted(sandbox.handle_event(press(MouseButton::Right)));
    assert_eq!(paint.stamp.origin, SimulationCoordinate { x: 123, y: 123 });
    assert_eq!(paint.stamp.color.components(), (0, 1, 0));
    assert_eq!(sandbox.cursor, Some(at(512, 512)));
    let paint = painted(sandbox.handle_event(press(MouseButton::Middle)));
    assert_eq!(paint.stamp.color.components(), (0, 1, 1));
    let paint = painted(sandbox.handle_event(release(MouseButton::Right)));
    assert_eq!(paint.stamp.color.components(), (0, 0, 1));
    assert_eq!(sandbox.handle_event(release(MouseButton::Middle)), Command::Nothing);
}

#[test]
fn unbound_button_changes_nothing() {
    let mut sandbox = Sandbox::new(window());
    sandbox.handle_event(moved(5, 5));
    let before = sandbox;
    assert_eq!(sandbox.handle_event(press(MouseButton::Other)), Command::Nothing);
    assert_eq!(sandbox, before);
}

#[test]
fn unbound_key_changes_nothing() {
    let mut sandbox = Sandbox::new(window());
    let before = sandbox;
    assert_eq!(sandbox.handle_event(key(Key::Other, true)), Command::Nothing);
    assert_eq!(sandbox.handle_event(key(Key::R, false)), Command::Nothing);
    assert_eq!(sandbox, before);
}

#[test]
fn stamps_go_to_the_buffer_that_is_next() {
    let mut sandbox = Sandbox::new(window());
    sandbox.handle_event(press(MouseButton::Left));
    sandbox.handle_event(moved(100, 100));
    let paint = painted(sandbox.handle_event(moved(101, 100)));
    assert_eq!(paint.stamp.target, BufferId::B);
    assert_eq!(paint.stamp.target, sandbox.driver.buffers.next());
    assert_eq!(sandbox.handle_event(WindowEvent::RedrawRequested), Command::RunFrame);
    while sandbox.driver.advance() != FrameAction::Finished {}
    let paint = painted(sandbox.handle_event(moved(102, 100)));
    assert_eq!(paint.stamp.target, BufferId::A);
    assert_eq!(paint.stamp.target, sandbox.driver.buffers.next());
}

#[test]
fn hard_reset_clears_and_returns_to_baseline() {
    let mut sandbox = Sandbox::new(window());
    sandbox.handle_event(press(MouseButton::Left));
    sandbox.handle_event(moved(100, 100));
    while sandbox.driver.advance() != FrameAction::Finished {}
    assert!(!sandbox.driver.buffers.a_current);
    let before = sandbox;
    assert_eq!(sandbox.handle_event(key(Key::R, true)), Command::ClearBuffers);
    assert!(sandbox.driver.buffers.a_current);
    assert_eq!(sandbox.driver.phase, FramePhase::Idle);
    assert_eq!(sandbox.buttons, before.buttons);
    assert_eq!(sandbox.cursor, before.cursor);
    assert_eq!(sandbox.window, before.window);
    assert_eq!(sandbox.handle_event(key(Key::R, true)), Command::ClearBuffers);
    assert!(sandbox.driver.buffers.a_current);
}

#[test]
fn hard_reset_in_the_middle_of_a_frame_ends_idle() {
    let mut sandbox = Sandbox::new(window());
    sandbox.driver.advance();
    assert_eq!(sandbox.handle_event(key(Key::R, true)), Command::ClearBuffers);
    assert_eq!(sandbox.driver, FrameDriver::new());
}

#[test]
fn reload_leaves_the_state_alone() {
    let mut sandbox = Sandbox::new(window());
    sandbox.handle_event(moved(100, 100));
    while sandbox.driver.advance() != FrameAction::Finished {}
    assert_eq!(sandbox.handle_event(key(Key::Control, true)), Command::Nothing);
    assert!(sandbox.buttons.ctrl);
    let before = sandbox;
    assert_eq!(sandbox.handle_event(key(Key::R, true)), Command::ReloadSimulation);
    assert_eq!(sandbox, before);
    assert_eq!(sandbox.handle_event(key(Key::Control, false)), Command::Nothing);
    assert!(!sandbox.buttons.ctrl);
    assert_eq!(sandbox.handle_event(key(Key::R, true)), Command::ClearBuffers);
}

#[test]
fn resize_changes_the_mapping_only() {
    let mut sandbox = Sandbox::new(window());
    sandbox.handle_event(press(MouseButton::Left));
    sandbox.handle_event(moved(256, 256));
    let size = WindowSize { width: 512, height: 512 };
    assert_eq!(sandbox.handle_event(WindowEvent::Resized { size }), Command::Nothing);
    assert_eq!(sandbox.window, size);
    assert_eq!(sandbox.driver, FrameDriver::new());
    let paint = painted(sandbox.handle_event(moved(0, 0)));
    assert_eq!(paint.stamp.origin, SimulationCoordinate { x: 123, y: 123 });
}

#[test]
fn close_redraw_and_drain_give_their_commands() {
    let mut sandbox = Sandbox::new(window());
    let before = sandbox;
    assert_eq!(sandbox.handle_event(WindowEvent::CloseRequested), Command::Exit);
    assert_eq!(sandbox.handle_event(WindowEvent::RedrawEventsCleared), Command::RequestRedraw);
    assert_eq!(sandbox.handle_event(WindowEvent::RedrawRequested), Command::RunFrame);
    assert_eq!(sandbox, before);
}
