//! What the commands and frame actions mean for the contents of the two
//! buffers. The host carries them out on the GPU; this module states their
//! meaning over contents of any kind, so that the protocol can be reasoned
//! about as a whole.

use vstd::prelude::*;
use crate::brush::{black, in_disc, stamp_cell, BrushColor};
use crate::buffers::BufferId;
use crate::coords::{BRUSH_EXTENT, SIM_SIZE};
use crate::frame::{FrameAction, FrameDriver, FramePhase};
use crate::input::Stamp;
use crate::router::{CommandKind, Key, Sandbox, WindowEvent};

verus! {

/// The contents of both buffers.
pub struct Contents<T> {
    pub a: T,
    pub b: T,
}

impl<T> Contents<T> {
    /// The contents of one buffer.
    pub open spec fn of(self, id: BufferId) -> T {
        match id {
            BufferId::A => self.a,
            BufferId::B => self.b,
        }
    }

    /// The contents after buffer `id` was replaced by `value`.
    pub open spec fn with(self, id: BufferId, value: T) -> Contents<T> {
        match id {
            BufferId::A => Contents { a: value, b: self.b },
            BufferId::B => Contents { a: self.a, b: value },
        }
    }
}

/// The contents after a frame action: a simulation pass replaces its target
/// by `rule` of its source; a display pass and the end of a frame change no
/// buffer.
pub open spec fn after_action<T>(contents: Contents<T>, action: FrameAction, rule: spec_fn(T) -> T) -> Contents<T> {
    match action {
        FrameAction::Simulate { source, target } => contents.with(target, rule(contents.of(source))),
        FrameAction::Display { source } => contents,
        FrameAction::Finished => contents,
    }
}

/// The contents after a command: clearing leaves `blank` in both buffers, a
/// stamp changes its target as `stamped` says, and nothing else changes a
/// buffer. A frame is accounted for by `after_frames`.
pub open spec fn after_command<T>(
    contents: Contents<T>,
    command: CommandKind,
    blank: T,
    stamped: spec_fn(T, Stamp) -> T,
) -> Contents<T> {
    match command {
        CommandKind::ClearBuffers => Contents { a: blank, b: blank },
        CommandKind::Paint(stamp) => contents.with(stamp.target, stamped(contents.of(stamp.target), stamp)),
        _ => contents,
    }
}

/// The cell (`x`, `y`) of the simulation domain lies in the footprint of
/// `stamp`.
pub open spec fn in_footprint(stamp: Stamp, x: int, y: int) -> bool {
    stamp.origin.x <= x < stamp.origin.x + BRUSH_EXTENT && stamp.origin.y <= y < stamp.origin.y
        + BRUSH_EXTENT
}

/// A buffer, given as the colour of each cell, after `stamp` was written
/// into it: the footprint holds the stamp, every other cell what it held.
pub open spec fn stamped_grid(grid: spec_fn(int, int) -> BrushColor, stamp: Stamp) -> spec_fn(
    int,
    int,
) -> BrushColor {
    |x: int, y: int|
        if in_footprint(stamp, x, y) {
            stamp_cell(stamp.color, x - stamp.origin.x, y - stamp.origin.y)
        } else {
            grid(x, y)
        }
}

/// A stamp replaces its whole footprint, whatever was there: the disc by the
/// brush colour, the corners by black. No cell outside the footprint changes,
/// and the footprint of a stamp in bounds lies inside the domain.
pub proof fn lemma_stamp_replaces_footprint(
    grid: spec_fn(int, int) -> BrushColor,
    stamp: Stamp,
    x: int,
    y: int,
)
    requires
        stamp.origin.in_bounds(),
    ensures
        in_footprint(stamp, x, y) ==> 0 <= x < SIM_SIZE && 0 <= y < SIM_SIZE,
        in_footprint(stamp, x, y) && in_disc(x - stamp.origin.x, y - stamp.origin.y) ==> stamped_grid(
            grid,
            stamp,
        )(x, y) == stamp.color,
        in_footprint(stamp, x, y) && !in_disc(x - stamp.origin.x, y - stamp.origin.y) ==> stamped_grid(
            grid,
            stamp,
        )(x, y) == black(),
        !in_footprint(stamp, x, y) ==> stamped_grid(grid, stamp)(x, y) == grid(x, y),
{
}

/// Driver and contents after one step of the driver.
pub open spec fn after_step<T>(driver: FrameDriver, contents: Contents<T>, rule: spec_fn(T) -> T) -> (
    FrameDriver,
    Contents<T>,
) {
    (driver.stepped(), after_action(contents, driver.step_action(), rule))
}

/// Driver and contents after `frames` whole frames of three steps each.
pub open spec fn after_frames<T>(
    driver: FrameDriver,
    contents: Contents<T>,
    rule: spec_fn(T) -> T,
    frames: nat,
) -> (FrameDriver, Contents<T>)
    decreases frames,
{
    if frames == 0 {
        (driver, contents)
    } else {
        let before = after_frames(driver, contents, rule, (frames - 1) as nat);
        let simulated = after_step(before.0, before.1, rule);
        let displayed = after_step(simulated.0, simulated.1, rule);
        after_step(displayed.0, displayed.1, rule)
    }
}

/// One frame from idle puts `rule` of the current buffer into the next one,
/// leaves the current one as it was and exchanges the roles.
pub proof fn lemma_one_frame<T>(driver: FrameDriver, contents: Contents<T>, rule: spec_fn(T) -> T)
    requires
        driver.phase == FramePhase::Idle,
    ensures
        after_frames(driver, contents, rule, 1).0 == driver.after_frame(),
        after_frames(driver, contents, rule, 1).1 == contents.with(
            driver.buffers.next_spec(),
            rule(contents.of(driver.buffers.current_spec())),
        ),
        after_frames(driver, contents, rule, 1).1.of(driver.buffers.current_spec()) == contents.of(
            driver.buffers.current_spec(),
        ),
        after_frames(driver, contents, rule, 1).0.buffers.current_spec() == driver.buffers.next_spec(),
{
    reveal_with_fuel(after_frames, 2);
}

/// The selector changes once per frame: after an even number of frames the
/// buffers have the roles they had, after an odd number the other ones.
pub proof fn lemma_frames_alternate<T>(
    driver: FrameDriver,
    contents: Contents<T>,
    rule: spec_fn(T) -> T,
    frames: nat,
)
    requires
        driver.phase == FramePhase::Idle,
    ensures
        after_frames(driver, contents, rule, frames).0.phase == FramePhase::Idle,
        frames % 2 == 0 ==> after_frames(driver, contents, rule, frames).0.buffers == driver.buffers,
        frames % 2 == 1 ==> after_frames(driver, contents, rule, frames).0.buffers
            == driver.buffers.swapped(),
    decreases frames,
{
    if frames > 0 {
        lemma_frames_alternate(driver, contents, rule, (frames - 1) as nat);
    }
}

/// With a rule that turns blank contents into blank contents, any number of
/// frames without input leaves both buffers blank if both were blank, and
/// ends between frames.
pub proof fn lemma_blank_stays_blank<T>(driver: FrameDriver, blank: T, rule: spec_fn(T) -> T, frames: nat)
    requires
        driver.phase == FramePhase::Idle,
        rule(blank) == blank,
    ensures
        after_frames(driver, Contents { a: blank, b: blank }, rule, frames).1 == (Contents {
            a: blank,
            b: blank,
        }),
        after_frames(driver, Contents { a: blank, b: blank }, rule, frames).0.phase == FramePhase::Idle,
    decreases frames,
{
    if frames > 0 {
        lemma_blank_stays_blank(driver, blank, rule, (frames - 1) as nat);
    }
}

/// After `R` without the modifier both buffers are blank and buffer A is
/// current, whatever the buffers held and whichever was current before.
pub proof fn lemma_hard_reset_clears<T>(
    sandbox: Sandbox,
    contents: Contents<T>,
    blank: T,
    stamped: spec_fn(T, Stamp) -> T,
)
    requires
        !sandbox.buttons.ctrl,
    ensures
        after_command(
            contents,
            sandbox.answer(WindowEvent::Keyboard { key: Key::R, pressed: true }),
            blank,
            stamped,
        ) == (Contents { a: blank, b: blank }),
        sandbox.after(WindowEvent::Keyboard { key: Key::R, pressed: true }).driver.buffers.current_spec()
            == BufferId::A,
{
}

/// After `R` with the modifier held both buffers hold what they held before.
pub proof fn lemma_reload_keeps_contents<T>(
    sandbox: Sandbox,
    contents: Contents<T>,
    blank: T,
    stamped: spec_fn(T, Stamp) -> T,
)
    requires
        sandbox.buttons.ctrl,
    ensures
        after_command(
            contents,
            sandbox.answer(WindowEvent::Keyboard { key: Key::R, pressed: true }),
            blank,
            stamped,
        ) == contents,
{
}

/// A stamp changes no buffer but the one that is next: the buffer that the
/// coming simulation pass reads holds what it held.
pub proof fn lemma_paint_spares_current<T>(
    sandbox: Sandbox,
    event: WindowEvent,
    contents: Contents<T>,
    blank: T,
    stamped: spec_fn(T, Stamp) -> T,
)
    requires
        sandbox.answer(event) is Paint,
    ensures
        after_command(contents, sandbox.answer(event), blank, stamped).of(
            sandbox.driver.buffers.current_spec(),
        ) == contents.of(sandbox.driver.buffers.current_spec()),
{
    crate::router::lemma_paint_targets_next(sandbox, event);
}

} // verus!
