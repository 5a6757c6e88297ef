//! Window layout planning: derive the top-left coordinate of a fixed-size
//! overlay window from the dimensions of the display it sits on, so that the
//! window keeps a fixed margin from the display's bottom-right corner.

use vstd::prelude::*;

verus! {

/// Width of the overlay window, in pixels.
pub const OVERLAY_WIDTH: u32 = 800;

/// Height of the overlay window, in pixels.
pub const OVERLAY_HEIGHT: u32 = 600;

/// Gap kept between the overlay's right edge and the screen's right edge.
pub const OVERLAY_MARGIN_RIGHT: u32 = 20;

/// Gap kept between the overlay's bottom edge and the screen's bottom edge.
pub const OVERLAY_MARGIN_BOTTOM: u32 = 40;

/// Pixel dimensions of a display, as the host reports them.
#[derive(Clone, Copy, Debug, PartialEq, Eq, Structural)]
pub struct ScreenSize {
    pub width: u32,
    pub height: u32,
}

/// Fixed configuration of a window to be placed: its size and the margins it
/// keeps from the screen's bottom-right corner.
#[derive(Clone, Copy, Debug, PartialEq, Eq, Structural)]
pub struct WindowSpec {
    pub width: u32,
    pub height: u32,
    pub margin_right: u32,
    pub margin_bottom: u32,
}

/// A top-left screen coordinate. Either component may be negative: a window
/// wider or taller than the space left by the margins is placed partly or
/// wholly off-screen, on purpose and without clamping.
#[derive(Clone, Copy, Debug, PartialEq, Eq, Structural)]
pub struct Position {
    pub x: i64,
    pub y: i64,
}

/// The horizontal coordinate that places `window`'s right edge
/// `window.margin_right` pixels from `screen`'s right edge.
pub open spec fn planned_x(screen: ScreenSize, window: WindowSpec) -> int {
    screen.width - window.width - window.margin_right
}

/// The vertical coordinate that places `window`'s bottom edge
/// `window.margin_bottom` pixels from `screen`'s bottom edge.
pub open spec fn planned_y(screen: ScreenSize, window: WindowSpec) -> int {
    screen.height - window.height - window.margin_bottom
}

/// `p` is the position the planner owes for `window` on `screen`.
pub open spec fn is_planned_position(screen: ScreenSize, window: WindowSpec, p: Position) -> bool {
    p.x == planned_x(screen, window) && p.y == planned_y(screen, window)
}

/// The configuration of the shell's overlay window: 800 by 600 pixels,
/// 20 pixels off the right screen edge and 40 off the bottom.
pub open spec fn spec_overlay_window() -> WindowSpec {
    WindowSpec {
        width: OVERLAY_WIDTH,
        height: OVERLAY_HEIGHT,
        margin_right: OVERLAY_MARGIN_RIGHT,
        margin_bottom: OVERLAY_MARGIN_BOTTOM,
    }
}

impl WindowSpec {
    /// The overlay window's fixed configuration.
    pub fn overlay() -> (w: WindowSpec)
        ensures
            w == spec_overlay_window(),
    {
        WindowSpec {
            width: OVERLAY_WIDTH,
            height: OVERLAY_HEIGHT,
            margin_right: OVERLAY_MARGIN_RIGHT,
            margin_bottom: OVERLAY_MARGIN_BOTTOM,
        }
    }
}

/// Computes where `window` goes on `screen`: its right edge
/// `window.margin_right` pixels from the screen's right edge, its bottom edge
/// `window.margin_bottom` pixels from the screen's bottom edge. Total over
/// all inputs; a window that does not fit gets a negative coordinate.
pub fn compute_position(screen: ScreenSize, window: WindowSpec) -> (p: Position)
    ensures
        is_planned_position(screen, window, p),
{
    Position {
        x: screen.width as i64 - window.width as i64 - window.margin_right as i64,
        y: screen.height as i64 - window.height as i64 - window.margin_bottom as i64,
    }
}

/// The planner is a pure function of its inputs: any two positions that meet
/// its contract for the same screen and window are the same, so calling
/// `compute_position` twice on identical inputs yields identical output.
pub proof fn lemma_position_deterministic(
    screen: ScreenSize,
    window: WindowSpec,
    p1: Position,
    p2: Position,
)
    requires
        is_planned_position(screen, window, p1),
        is_planned_position(screen, window, p2),
    ensures
        p1 == p2,
{
}

/// On any display with positive dimensions, the overlay window's planned
/// coordinate is `width - 800 - 20` across and `height - 600 - 40` down.
pub proof fn lemma_overlay_position(screen: ScreenSize)
    requires
        screen.width > 0,
        screen.height > 0,
    ensures
        planned_x(screen, spec_overlay_window()) == screen.width - 820,
        planned_y(screen, spec_overlay_window()) == screen.height - 640,
{
}

} // verus!
