//! Window space, simulation space and the mapping from one to the other.

use vstd::prelude::*;

verus! {

/// Width and height of the simulation domain, in cells.
pub const SIM_SIZE: u32 = 256;

/// Side of the square brush footprint, in cells.
pub const BRUSH_EXTENT: u32 = 11;

/// Distance from the footprint's first cell to its centre cell.
pub const BRUSH_CENTER: u32 = 5;

/// Largest origin at which the footprint still lies inside the domain.
pub const MAX_ORIGIN: u32 = 245;

/// Number of steps into which window space divides a pixel.
pub const SUBPIXEL_STEPS: u32 = 65536;

/// Size of the window, in pixels.
#[derive(Clone, Copy, Debug, PartialEq, Eq, Structural)]
pub struct WindowSize {
    pub width: u32,
    pub height: u32,
}

/// A position in window space, in fixed point: both fields count steps of
/// 1/65536 of a pixel. The origin is the top left corner and `y` grows
/// downwards. Positions outside the window are allowed.
#[derive(Clone, Copy, Debug, PartialEq, Eq, Structural)]
pub struct ScreenCoordinate {
    pub x: i64,
    pub y: i64,
}

impl ScreenCoordinate {
    /// The position at the top left corner of the pixel (`x`, `y`).
    pub open spec fn at_pixel_spec(x: i32, y: i32) -> ScreenCoordinate {
        ScreenCoordinate { x: (x * SUBPIXEL_STEPS) as i64, y: (y * SUBPIXEL_STEPS) as i64 }
    }

    /// The position at the top left corner of the pixel (`x`, `y`).
    #[verifier::when_used_as_spec(at_pixel_spec)]
    pub fn at_pixel(x: i32, y: i32) -> (position: ScreenCoordinate)
        ensures
            position == Self::at_pixel_spec(x, y),
            position.x == x * SUBPIXEL_STEPS,
            position.y == y * SUBPIXEL_STEPS,
    {
        ScreenCoordinate { x: x as i64 * 65536, y: y as i64 * 65536 }
    }
}

/// The first cell of a brush footprint: `y` grows upwards.
#[derive(Clone, Copy, Debug, PartialEq, Eq, Structural)]
pub struct SimulationCoordinate {
    pub x: u32,
    pub y: u32,
}

impl SimulationCoordinate {
    /// The footprint that starts here lies inside the simulation domain.
    pub open spec fn in_bounds(self) -> bool {
        self.x + BRUSH_EXTENT <= SIM_SIZE && self.y + BRUSH_EXTENT <= SIM_SIZE
    }
}

/// `value` forced into the range of valid origins.
pub open spec fn clamp_origin(value: int) -> int {
    if value < 0 {
        0
    } else if value > MAX_ORIGIN as int {
        MAX_ORIGIN as int
    } else {
        value
    }
}

/// Where one axis of a footprint starts for a position of `pos` steps from
/// the low edge of a window that is `extent` pixels long: the position is
/// scaled to cells, rounded down, moved back by the brush centre and clamped.
/// A window of no extent has every positive position beyond its far edge.
pub open spec fn axis_origin(pos: int, extent: int) -> int {
    if extent <= 0 {
        if pos > 0 {
            MAX_ORIGIN as int
        } else {
            0
        }
    } else {
        clamp_origin(pos * (SIM_SIZE as int) / (extent * SUBPIXEL_STEPS as int) - BRUSH_CENTER as int)
    }
}

/// The origin of the footprint painted for `position`: `x` scales directly,
/// `y` is measured from the bottom edge of the window.
pub open spec fn footprint_origin(position: ScreenCoordinate, window: WindowSize) -> SimulationCoordinate {
    SimulationCoordinate {
        x: axis_origin(position.x as int, window.width as int) as u32,
        y: axis_origin(
            window.height as int * SUBPIXEL_STEPS as int - position.y as int,
            window.height as int,
        ) as u32,
    }
}

/// A position at or before the low edge starts its footprint at cell 0.
pub proof fn lemma_axis_origin_low(pos: int, extent: int)
    requires
        pos <= 0,
    ensures
        axis_origin(pos, extent) == 0,
{
    if extent > 0 {
        let span = extent * 65536;
        assert(pos * 256 / span <= 0) by (nonlinear_arith)
            requires
                pos <= 0,
                span > 0,
        ;
    }
}

/// A position at or beyond the far edge starts its footprint at the last
/// valid origin.
pub proof fn lemma_axis_origin_high(pos: int, extent: int)
    requires
        pos >= extent * SUBPIXEL_STEPS,
        pos > 0,
    ensures
        axis_origin(pos, extent) == MAX_ORIGIN,
{
    if extent > 0 {
        let span = extent * 65536;
        assert(pos * 256 / span >= 256) by (nonlinear_arith)
            requires
                pos >= span,
                span > 0,
        ;
    }
}

/// Every origin is a valid one, whatever the position and the window.
pub proof fn lemma_axis_origin_in_range(pos: int, extent: int)
    ensures
        0 <= axis_origin(pos, extent) <= MAX_ORIGIN,
{
}

/// A position further along the axis never starts its footprint earlier.
pub proof fn lemma_axis_origin_monotonic(low: int, high: int, extent: int)
    requires
        low <= high,
    ensures
        axis_origin(low, extent) <= axis_origin(high, extent),
{
    if extent > 0 {
        let span = extent * 65536;
        assert(low * 256 / span <= high * 256 / span) by (nonlinear_arith)
            requires
                low <= high,
                span > 0,
        ;
    }
}

/// Computes `axis_origin` for a position that may lie far outside the window.
fn map_axis(pos: i128, extent: u32) -> (origin: u32)
    ensures
        origin == axis_origin(pos as int, extent as int),
        origin <= MAX_ORIGIN,
{
    if pos <= 0 {
        proof {
            lemma_axis_origin_low(pos as int, extent as int);
        }
        0
    } else if pos >= extent as i128 * 65536 {
        proof {
            lemma_axis_origin_high(pos as int, extent as int);
        }
        MAX_ORIGIN
    } else {
        let span: u64 = extent as u64 * 65536;
        let scaled: u64 = pos as u64 * 256;
        let cell: u64 = scaled / span;
        assert(cell < 256) by (nonlinear_arith)
            requires
                cell == scaled / span,
                scaled == pos * 256,
                0 < pos < span,
        ;
        if cell < 5 {
            0
        } else if cell - 5 > 245 {
            MAX_ORIGIN
        } else {
            (cell - 5) as u32
        }
    }
}

/// Maps a window position to the origin of the footprint painted for it.
/// Positions outside the window saturate to the nearest edge of the domain.
pub fn map_to_simulation(position: ScreenCoordinate, window: WindowSize) -> (origin: SimulationCoordinate)
    ensures
        origin == footprint_origin(position, window),
        origin.in_bounds(),
{
    let from_bottom: i128 = window.height as i128 * 65536 - position.y as i128;
    SimulationCoordinate {
        x: map_axis(position.x as i128, window.width),
        y: map_axis(from_bottom, window.height),
    }
}

/// The footprint never leaves the simulation domain: on both axes the origin
/// lies between 0 and the last valid origin, for every position and window.
pub proof fn lemma_origin_in_bounds(position: ScreenCoordinate, window: WindowSize)
    ensures
        footprint_origin(position, window).x <= MAX_ORIGIN,
        footprint_origin(position, window).y <= MAX_ORIGIN,
        footprint_origin(position, window).in_bounds(),
{
    lemma_axis_origin_in_range(position.x as int, window.width as int);
    lemma_axis_origin_in_range(
        window.height as int * SUBPIXEL_STEPS as int - position.y as int,
        window.height as int,
    );
}

/// The vertical axis is inverted: the top of the window maps to the highest
/// origin, the bottom of the window to cell 0, and moving down the window
/// never moves the footprint up.
pub proof fn lemma_y_axis_inverted(upper: ScreenCoordinate, lower: ScreenCoordinate, window: WindowSize)
    requires
        upper.y <= lower.y,
    ensures
        footprint_origin(upper, window).y >= footprint_origin(lower, window).y,
        window.height > 0 && upper.y <= 0 ==> footprint_origin(upper, window).y == MAX_ORIGIN,
        lower.y >= window.height * SUBPIXEL_STEPS ==> footprint_origin(lower, window).y == 0,
{
    let h = window.height as int;
    let span = h * SUBPIXEL_STEPS as int;
    lemma_axis_origin_in_range(span - upper.y as int, h);
    lemma_axis_origin_in_range(span - lower.y as int, h);
    lemma_axis_origin_monotonic(span - lower.y as int, span - upper.y as int, h);
    if window.height > 0 && upper.y <= 0 {
        lemma_axis_origin_high(span - upper.y as int, h);
    }
    if lower.y >= window.height * SUBPIXEL_STEPS {
        lemma_axis_origin_low(span - lower.y as int, h);
    }
}

} // verus!
