//! Buttons, the tracked cursor and the painting of brush stamps.

use vstd::prelude::*;
use crate::brush::{build_stamp, is_stamp_of, BrushColor};
use crate::buffers::BufferId;
use crate::coords::{footprint_origin, map_to_simulation, ScreenCoordinate, SimulationCoordinate, WindowSize};

verus! {

/// The mouse buttons and the modifier key that are held down.
#[derive(Clone, Copy, Debug, PartialEq, Eq, Structural)]
pub struct ButtonState {
    pub left: bool,
    pub right: bool,
    pub middle: bool,
    pub ctrl: bool,
}

impl ButtonState {
    /// At least one mouse button is down.
    pub open spec fn any_down_spec(self) -> bool {
        self.left || self.right || self.middle
    }

    /// The colour that the held buttons paint: a channel is on exactly when
    /// its button is down.
    pub open spec fn brush_color_spec(self) -> BrushColor {
        BrushColor { left: self.left, right: self.right, middle: self.middle }
    }

    /// The state with nothing held.
    pub fn released() -> (buttons: ButtonState)
        ensures
            buttons == (ButtonState { left: false, right: false, middle: false, ctrl: false }),
    {
        ButtonState { left: false, right: false, middle: false, ctrl: false }
    }

    /// Tells whether at least one mouse button is down.
    #[verifier::when_used_as_spec(any_down_spec)]
    pub fn any_down(self) -> (down: bool)
        ensures
            down == self.any_down_spec(),
    {
        self.left || self.right || self.middle
    }

    /// The colour that the held buttons paint.
    #[verifier::when_used_as_spec(brush_color_spec)]
    pub fn brush_color(self) -> (color: BrushColor)
        ensures
            color == self.brush_color_spec(),
    {
        BrushColor { left: self.left, right: self.right, middle: self.middle }
    }
}

/// One brush stamp: the buffer it goes to, the first cell of its footprint
/// and its colour.
#[derive(Clone, Copy, Debug, PartialEq, Eq, Structural)]
pub struct Stamp {
    pub target: BufferId,
    pub origin: SimulationCoordinate,
    pub color: BrushColor,
}

/// A stamp together with the cells to write, indexed by column and then by
/// cell of the footprint.
#[derive(Clone, Debug, PartialEq, Eq)]
pub struct PaintCommand {
    pub stamp: Stamp,
    pub cells: Vec<Vec<BrushColor>>,
}

impl PaintCommand {
    /// The footprint lies inside the simulation domain and the cells are the
    /// full stamp of the colour.
    pub open spec fn well_formed(self) -> bool {
        self.stamp.origin.in_bounds() && is_stamp_of(self.cells@, self.stamp.color)
    }
}

/// What a pointer event leaves behind: the stamp to write, if any, and the
/// position to track from now on.
#[derive(Clone, Debug, PartialEq, Eq)]
pub struct PointerOutcome {
    pub paint: Option<PaintCommand>,
    pub track: Option<ScreenCoordinate>,
}

/// The stamp that a pointer event asks for. There is one exactly when a
/// button is down and a previous position is known; it is centred on that
/// previous position, one sample behind the cursor.
pub open spec fn planned_stamp(
    buttons: ButtonState,
    previous: Option<ScreenCoordinate>,
    target: BufferId,
    window: WindowSize,
) -> Option<Stamp> {
    if buttons.any_down_spec() && previous.is_some() {
        Some(
            Stamp {
                target,
                origin: footprint_origin(previous.unwrap(), window),
                color: buttons.brush_color_spec(),
            },
        )
    } else {
        None
    }
}

/// `paint` carries out `planned`: both are absent, or the command holds the
/// planned stamp with all its cells.
pub open spec fn carries_out(paint: Option<PaintCommand>, planned: Option<Stamp>) -> bool {
    match paint {
        Some(command) => planned == Some(command.stamp) && command.well_formed(),
        None => planned.is_none(),
    }
}

/// Handles a cursor move to `current`, or a button change at `current`, with
/// `buttons` as they are after the event and `previous` as tracked before it.
/// The stamp, if one is due, goes to `target`. The position to track is
/// `current`, whatever the buttons.
pub fn on_pointer_event(
    buttons: ButtonState,
    previous: Option<ScreenCoordinate>,
    current: ScreenCoordinate,
    target: BufferId,
    window: WindowSize,
) -> (outcome: PointerOutcome)
    ensures
        carries_out(outcome.paint, planned_stamp(buttons, previous, target, window)),
        outcome.track == Some(current),
{
    let paint = if buttons.any_down() {
        match previous {
            Some(position) => {
                let color = buttons.brush_color();
                let origin = map_to_simulation(position, window);
                let stamp = Stamp { target, origin, color };
                Some(PaintCommand { stamp, cells: build_stamp(color) })
            },
            None => None,
        }
    } else {
        None
    };
    PointerOutcome { paint, track: Some(current) }
}

/// The channels of a stamp follow the buttons: the left button alone paints
/// the first channel only, left and middle together the first and the third,
/// and so on for every combination.
pub proof fn lemma_color_follows_buttons(
    buttons: ButtonState,
    previous: ScreenCoordinate,
    target: BufferId,
    window: WindowSize,
)
    requires
        buttons.any_down_spec(),
    ensures
        planned_stamp(buttons, Some(previous), target, window).is_some(),
        planned_stamp(buttons, Some(previous), target, window).unwrap().color == (BrushColor {
            left: buttons.left,
            right: buttons.right,
            middle: buttons.middle,
        }),
        planned_stamp(buttons, Some(previous), target, window).unwrap().target == target,
{
}

/// With no button down nothing is painted, wherever the cursor was or is.
pub proof fn lemma_no_button_no_stamp(
    buttons: ButtonState,
    previous: Option<ScreenCoordinate>,
    target: BufferId,
    window: WindowSize,
)
    requires
        !buttons.left && !buttons.right && !buttons.middle,
    ensures
        planned_stamp(buttons, previous, target, window).is_none(),
{
}

/// With no previous position nothing is painted, whatever the buttons: the
/// first event after the cursor arrives only starts the track.
pub proof fn lemma_first_contact_no_stamp(buttons: ButtonState, target: BufferId, window: WindowSize)
    ensures
        planned_stamp(buttons, None, target, window).is_none(),
{
}

/// Every planned stamp keeps its footprint inside the simulation domain.
pub proof fn lemma_planned_stamp_in_bounds(
    buttons: ButtonState,
    previous: Option<ScreenCoordinate>,
    target: BufferId,
    window: WindowSize,
)
    ensures
        planned_stamp(buttons, previous, target, window) matches Some(stamp) ==> stamp.origin.in_bounds(),
{
    if previous.is_some() {
        crate::coords::lemma_origin_in_bounds(previous.unwrap(), window);
    }
}

} // verus!
