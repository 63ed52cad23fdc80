//! The input router: the whole mutable state of a run, and the command that
//! follows each window event.

use vstd::prelude::*;
use crate::buffers::DoubleBufferedState;
use crate::coords::{ScreenCoordinate, WindowSize};
use crate::frame::{FrameDriver, FramePhase};
use crate::input::{carries_out, on_pointer_event, planned_stamp, ButtonState, PaintCommand, Stamp};

verus! {

/// A key of the keyboard, as far as the sandbox binds it.
#[derive(Clone, Copy, Debug, PartialEq, Eq, Structural)]
pub enum Key {
    /// Either control key.
    Control,
    /// The `R` key.
    R,
    /// Any key without a bound action.
    Other,
}

/// A button of the mouse, as far as the sandbox binds it.
#[derive(Clone, Copy, Debug, PartialEq, Eq, Structural)]
pub enum MouseButton {
    Left,
    Right,
    Middle,
    /// Any button without an ink channel.
    Other,
}

/// An event of the window.
#[derive(Clone, Copy, Debug, PartialEq, Eq, Structural)]
pub enum WindowEvent {
    /// A key went down (`pressed`) or up.
    Keyboard { key: Key, pressed: bool },
    /// A mouse button went down (`pressed`) or up.
    Mouse { button: MouseButton, pressed: bool },
    /// The cursor moved to `position`.
    CursorMoved { position: ScreenCoordinate },
    /// The window now has the size `size`.
    Resized { size: WindowSize },
    /// The user asked to close the window.
    CloseRequested,
    /// The event queue was drained.
    RedrawEventsCleared,
    /// The window is to be drawn again.
    RedrawRequested,
}

/// What the host does in answer to an event.
#[derive(Clone, Debug, PartialEq, Eq)]
pub enum Command {
    /// Nothing.
    Nothing,
    /// Write the stamp into its target buffer.
    Paint(PaintCommand),
    /// Compile the simulation program again and put it in place of the old
    /// one. The display program and both buffers stay as they are.
    ReloadSimulation,
    /// Clear both buffers to transparent black.
    ClearBuffers,
    /// Ask the window for another redraw.
    RequestRedraw,
    /// Run one frame: call the frame driver until it reports the end.
    RunFrame,
    /// End the run.
    Exit,
}

/// A command without the cells of its stamp.
pub enum CommandKind {
    Nothing,
    Paint(Stamp),
    ReloadSimulation,
    ClearBuffers,
    RequestRedraw,
    RunFrame,
    Exit,
}

impl Command {
    /// The command without the cells of its stamp.
    pub open spec fn kind(self) -> CommandKind {
        match self {
            Command::Nothing => CommandKind::Nothing,
            Command::Paint(paint) => CommandKind::Paint(paint.stamp),
            Command::ReloadSimulation => CommandKind::ReloadSimulation,
            Command::ClearBuffers => CommandKind::ClearBuffers,
            Command::RequestRedraw => CommandKind::RequestRedraw,
            Command::RunFrame => CommandKind::RunFrame,
            Command::Exit => CommandKind::Exit,
        }
    }

    /// A paint command holds a whole stamp inside the simulation domain.
    pub open spec fn well_formed(self) -> bool {
        self matches Command::Paint(paint) ==> paint.well_formed()
    }
}

/// The mutable state of a run: held buttons, tracked cursor, window size and
/// the frame driver with its buffer selector.
#[derive(Clone, Copy, Debug, PartialEq, Eq, Structural)]
pub struct Sandbox {
    pub buttons: ButtonState,
    pub cursor: Option<ScreenCoordinate>,
    pub window: WindowSize,
    pub driver: FrameDriver,
}

/// `buttons` after `button` went down or up.
pub open spec fn with_button(buttons: ButtonState, button: MouseButton, pressed: bool) -> ButtonState {
    match button {
        MouseButton::Left => ButtonState { left: pressed, ..buttons },
        MouseButton::Right => ButtonState { right: pressed, ..buttons },
        MouseButton::Middle => ButtonState { middle: pressed, ..buttons },
        MouseButton::Other => buttons,
    }
}

/// The answer to a planned stamp: paint it, or do nothing.
pub open spec fn paint_or_nothing(planned: Option<Stamp>) -> CommandKind {
    match planned {
        Some(stamp) => CommandKind::Paint(stamp),
        None => CommandKind::Nothing,
    }
}

impl Sandbox {
    /// The state at the start of a run in a window of size `window`.
    pub open spec fn initial(window: WindowSize) -> Sandbox {
        Sandbox {
            buttons: ButtonState { left: false, right: false, middle: false, ctrl: false },
            cursor: None,
            window,
            driver: FrameDriver::initial(),
        }
    }

    /// The state after `event`.
    pub open spec fn after(self, event: WindowEvent) -> Sandbox {
        match event {
            WindowEvent::Keyboard { key: Key::Control, pressed } => Sandbox {
                buttons: ButtonState { ctrl: pressed, ..self.buttons },
                ..self
            },
            WindowEvent::Keyboard { key: Key::R, pressed } => if pressed && !self.buttons.ctrl {
                Sandbox { driver: FrameDriver::initial(), ..self }
            } else {
                self
            },
            WindowEvent::Mouse { button, pressed } => Sandbox {
                buttons: with_button(self.buttons, button, pressed),
                ..self
            },
            WindowEvent::CursorMoved { position } => Sandbox { cursor: Some(position), ..self },
            WindowEvent::Resized { size } => Sandbox { window: size, ..self },
            _ => self,
        }
    }

    /// The command that answers `event`, without the cells of its stamp.
    /// Stamps go to the buffer that is next, never to the one that is read.
    pub open spec fn answer(self, event: WindowEvent) -> CommandKind {
        match event {
            WindowEvent::Keyboard { key: Key::R, pressed } => if !pressed {
                CommandKind::Nothing
            } else if self.buttons.ctrl {
                CommandKind::ReloadSimulation
            } else {
                CommandKind::ClearBuffers
            },
            WindowEvent::Mouse { button, pressed } => paint_or_nothing(
                planned_stamp(
                    with_button(self.buttons, button, pressed),
                    self.cursor,
                    self.driver.buffers.next_spec(),
                    self.window,
                ),
            ),
            WindowEvent::CursorMoved { position } => paint_or_nothing(
                planned_stamp(self.buttons, self.cursor, self.driver.buffers.next_spec(), self.window),
            ),
            WindowEvent::CloseRequested => CommandKind::Exit,
            WindowEvent::RedrawEventsCleared => CommandKind::RequestRedraw,
            WindowEvent::RedrawRequested => CommandKind::RunFrame,
            _ => CommandKind::Nothing,
        }
    }

    /// The state at the start of a run in a window of size `window`: nothing
    /// held, no cursor seen, the driver idle in the baseline buffer state.
    pub fn new(window: WindowSize) -> (sandbox: Sandbox)
        ensures
            sandbox == Self::initial(window),
    {
        Sandbox { buttons: ButtonState::released(), cursor: None, window, driver: FrameDriver::new() }
    }

    /// Takes one event of the window, updates the state and says what the
    /// host does in answer.
    pub fn handle_event(&mut self, event: WindowEvent) -> (command: Command)
        ensures
            *final(self) == old(self).after(event),
            command.kind() == old(self).answer(event),
            command.well_formed(),
    {
        match event {
            WindowEvent::Keyboard { key, pressed } => match key {
                Key::Control => {
                    self.buttons.ctrl = pressed;
                    Command::Nothing
                },
                Key::R => {
                    if !pressed {
                        Command::Nothing
                    } else if self.buttons.ctrl {
                        Command::ReloadSimulation
                    } else {
                        self.driver.hard_reset();
                        Command::ClearBuffers
                    }
                },
                Key::Other => Command::Nothing,
            },
            WindowEvent::Mouse { button, pressed } => {
                match button {
                    MouseButton::Left => {
                        self.buttons.left = pressed;
                    },
                    MouseButton::Right => {
                        self.buttons.right = pressed;
                    },
                    MouseButton::Middle => {
                        self.buttons.middle = pressed;
                    },
                    MouseButton::Other => {},
                }
                match self.cursor {
                    Some(position) => {
                        let outcome = on_pointer_event(
                            self.buttons,
                            self.cursor,
                            position,
                            self.driver.buffers.next(),
                            self.window,
                        );
                        paint_command(outcome.paint)
                    },
                    None => Command::Nothing,
                }
            },
            WindowEvent::CursorMoved { position } => {
                let outcome = on_pointer_event(
                    self.buttons,
                    self.cursor,
                    position,
                    self.driver.buffers.next(),
                    self.window,
                );
                self.cursor = outcome.track;
                paint_command(outcome.paint)
            },
            WindowEvent::Resized { size } => {
                self.window = size;
                Command::Nothing
            },
            WindowEvent::CloseRequested => Command::Exit,
            WindowEvent::RedrawEventsCleared => Command::RequestRedraw,
            WindowEvent::RedrawRequested => Command::RunFrame,
        }
    }
}

/// Wraps the stamp of a pointer event, if there is one, into a command.
fn paint_command(paint: Option<PaintCommand>) -> (command: Command)
    ensures
        forall|planned: Option<Stamp>|
            carries_out(paint, planned) ==> command.kind() == paint_or_nothing(planned)
                && command.well_formed(),
{
    match paint {
        Some(paint) => Command::Paint(paint),
        None => Command::Nothing,
    }
}

/// `R` without the modifier always ends in the baseline: the answer is to
/// clear both buffers, the selector is back at buffer A and the driver is
/// idle, whatever the state before. Buttons, cursor and window size stay.
pub proof fn lemma_hard_reset(sandbox: Sandbox)
    requires
        !sandbox.buttons.ctrl,
    ensures
        sandbox.answer(WindowEvent::Keyboard { key: Key::R, pressed: true }) == CommandKind::ClearBuffers,
        sandbox.after(WindowEvent::Keyboard { key: Key::R, pressed: true }).driver.buffers
            == DoubleBufferedState::baseline(),
        sandbox.after(WindowEvent::Keyboard { key: Key::R, pressed: true }).driver.phase
            == FramePhase::Idle,
        sandbox.after(WindowEvent::Keyboard { key: Key::R, pressed: true }) == (Sandbox {
            driver: FrameDriver::initial(),
            ..sandbox
        }),
{
}

/// `R` with the modifier held asks for the simulation program alone to be
/// replaced: no buffer is cleared or painted and the state does not change.
pub proof fn lemma_reload_keeps_state(sandbox: Sandbox)
    requires
        sandbox.buttons.ctrl,
    ensures
        sandbox.answer(WindowEvent::Keyboard { key: Key::R, pressed: true })
            == CommandKind::ReloadSimulation,
        sandbox.after(WindowEvent::Keyboard { key: Key::R, pressed: true }) == sandbox,
{
}

/// A stamp always goes to the buffer that is next in the state before the
/// event, and so never to the buffer that the simulation pass reads.
pub proof fn lemma_paint_targets_next(sandbox: Sandbox, event: WindowEvent)
    ensures
        sandbox.answer(event) matches CommandKind::Paint(stamp) ==> stamp.target
            == sandbox.driver.buffers.next_spec() && stamp.target
            != sandbox.driver.buffers.current_spec() && stamp.origin.in_bounds(),
{
    match event {
        WindowEvent::Mouse { button, pressed } => {
            crate::input::lemma_planned_stamp_in_bounds(
                with_button(sandbox.buttons, button, pressed),
                sandbox.cursor,
                sandbox.driver.buffers.next_spec(),
                sandbox.window,
            );
        },
        WindowEvent::CursorMoved { position } => {
            crate::input::lemma_planned_stamp_in_bounds(
                sandbox.buttons,
                sandbox.cursor,
                sandbox.driver.buffers.next_spec(),
                sandbox.window,
            );
        },
        _ => {},
    }
}

/// A cursor move paints exactly when a button is down and an earlier
/// position is tracked; either way the new position is tracked afterwards.
pub proof fn lemma_cursor_move(sandbox: Sandbox, position: ScreenCoordinate)
    ensures
        sandbox.after(WindowEvent::CursorMoved { position }).cursor == Some(position),
        sandbox.answer(WindowEvent::CursorMoved { position }) is Paint <==> sandbox.buttons.any_down_spec()
            && sandbox.cursor.is_some(),
        sandbox.answer(WindowEvent::CursorMoved { position }) is Paint || sandbox.answer(
            WindowEvent::CursorMoved { position },
        ) is Nothing,
        sandbox.answer(WindowEvent::CursorMoved { position }) matches CommandKind::Paint(stamp)
            ==> stamp.color == sandbox.buttons.brush_color_spec() && stamp.origin
            == crate::coords::footprint_origin(sandbox.cursor.unwrap(), sandbox.window),
{
}

/// No event but the hard reset touches the driver: every other event leaves
/// phase and selector alone, so that the selector changes only at the end of
/// a frame.
pub proof fn lemma_events_keep_driver(sandbox: Sandbox, event: WindowEvent)
    ensures
        sandbox.after(event).driver == sandbox.driver || (sandbox.answer(event) == CommandKind::ClearBuffers
            && sandbox.after(event).driver == FrameDriver::initial()),
{
}

} // verus!
