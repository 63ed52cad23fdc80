//! The frame driver: one simulation pass, one display pass, then the swap.

use vstd::prelude::*;
use crate::buffers::{BufferId, DoubleBufferedState};

verus! {

/// Where the driver stands within a frame.
#[derive(Clone, Copy, Debug, PartialEq, Eq, Structural)]
pub enum FramePhase {
    /// Between frames.
    Idle,
    /// The simulation pass was handed out.
    SimulatingPass,
    /// The display pass was handed out.
    DisplayingPass,
}

/// What the host does next for the frame.
#[derive(Clone, Copy, Debug, PartialEq, Eq, Structural)]
pub enum FrameAction {
    /// Draw the full-screen quad with the simulation program into `target`,
    /// sampling `source` with nearest filtering and wrap-around addressing.
    Simulate { source: BufferId, target: BufferId },
    /// Clear the screen to transparent black and draw the full-screen quad
    /// with the display program, sampling `source`.
    Display { source: BufferId },
    /// The frame is complete and the buffers have changed roles.
    Finished,
}

/// The frame state machine together with the buffer selector it owns.
#[derive(Clone, Copy, Debug, PartialEq, Eq, Structural)]
pub struct FrameDriver {
    pub phase: FramePhase,
    pub buffers: DoubleBufferedState,
}

impl FrameDriver {
    /// The driver between frames in the baseline buffer state.
    pub open spec fn initial() -> FrameDriver {
        FrameDriver { phase: FramePhase::Idle, buffers: DoubleBufferedState::baseline() }
    }

    /// The driver after one step.
    pub open spec fn stepped(self) -> FrameDriver {
        match self.phase {
            FramePhase::Idle => FrameDriver { phase: FramePhase::SimulatingPass, buffers: self.buffers },
            FramePhase::SimulatingPass => FrameDriver {
                phase: FramePhase::DisplayingPass,
                buffers: self.buffers,
            },
            FramePhase::DisplayingPass => FrameDriver {
                phase: FramePhase::Idle,
                buffers: self.buffers.swapped(),
            },
        }
    }

    /// The action that one step hands out.
    pub open spec fn step_action(self) -> FrameAction {
        match self.phase {
            FramePhase::Idle => FrameAction::Simulate {
                source: self.buffers.current_spec(),
                target: self.buffers.next_spec(),
            },
            FramePhase::SimulatingPass => FrameAction::Display { source: self.buffers.next_spec() },
            FramePhase::DisplayingPass => FrameAction::Finished,
        }
    }

    /// The driver after one whole frame.
    pub open spec fn after_frame(self) -> FrameDriver {
        self.stepped().stepped().stepped()
    }

    /// The driver between frames in the baseline buffer state.
    pub fn new() -> (driver: FrameDriver)
        ensures
            driver == Self::initial(),
    {
        FrameDriver { phase: FramePhase::Idle, buffers: DoubleBufferedState::new() }
    }

    /// Moves to the next phase and says what the host does now. From idle
    /// this hands out the simulation pass, then the display pass of the
    /// buffer just written; the third step swaps the buffers and ends the
    /// frame.
    pub fn advance(&mut self) -> (action: FrameAction)
        ensures
            *final(self) == old(self).stepped(),
            action == old(self).step_action(),
    {
        match self.phase {
            FramePhase::Idle => {
                self.phase = FramePhase::SimulatingPass;
                FrameAction::Simulate { source: self.buffers.current(), target: self.buffers.next() }
            },
            FramePhase::SimulatingPass => {
                self.phase = FramePhase::DisplayingPass;
                FrameAction::Display { source: self.buffers.next() }
            },
            FramePhase::DisplayingPass => {
                self.phase = FramePhase::Idle;
                self.buffers.swap();
                FrameAction::Finished
            },
        }
    }

    /// Abandons the frame, if one is under way, and returns to the baseline
    /// buffer state. The caller clears both buffers.
    pub fn hard_reset(&mut self)
        ensures
            *final(self) == Self::initial(),
    {
        self.phase = FramePhase::Idle;
        self.buffers.reset();
    }
}

/// A frame that starts from idle simulates from the current buffer into the
/// next one, then displays the next one, then ends idle with the roles of the
/// buffers exchanged and nothing else changed.
pub proof fn lemma_frame_order(driver: FrameDriver)
    requires
        driver.phase == FramePhase::Idle,
    ensures
        driver.step_action() == (FrameAction::Simulate {
            source: driver.buffers.current_spec(),
            target: driver.buffers.next_spec(),
        }),
        driver.stepped().step_action() == (FrameAction::Display { source: driver.buffers.next_spec() }),
        driver.stepped().stepped().step_action() == FrameAction::Finished,
        driver.stepped().buffers == driver.buffers,
        driver.stepped().stepped().buffers == driver.buffers,
        driver.after_frame() == (FrameDriver { phase: FramePhase::Idle, buffers: driver.buffers.swapped() }),
{
}

/// No simulation pass reads the buffer that it writes.
pub proof fn lemma_simulation_never_in_place(driver: FrameDriver)
    ensures
        driver.step_action() matches FrameAction::Simulate { source, target } ==> source != target,
{
}

/// The selector changes only on the step that ends a frame.
pub proof fn lemma_swap_only_at_frame_end(driver: FrameDriver)
    ensures
        driver.stepped().buffers != driver.buffers <==> driver.phase == FramePhase::DisplayingPass,
        driver.stepped().buffers != driver.buffers <==> driver.step_action() == FrameAction::Finished,
{
}

} // verus!
