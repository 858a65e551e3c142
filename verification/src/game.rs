//! The demo's decisions: what one frame shows and what the message pump does
//! after each message. The drawing and the pumping themselves are done by the
//! application.

use vstd::prelude::*;

use crate::geom::{Rect2D, Size2D};

verus! {

/// The distance between two grid lines, in device-independent pixels.
pub const GRID_STEP: i32 = 8;

/// Half the side of the filled square in the middle of the frame.
pub const INNER_HALF_SIDE: i32 = 56;

/// Half the side of the outlined square in the middle of the frame.
pub const OUTER_HALF_SIDE: i32 = 104;

/// The brush that a grid line is drawn with.
#[derive(Clone, Copy, Debug, PartialEq, Eq, Structural)]
pub enum GridBrush {
    Red,
    Green,
    Blue,
}

/// One line of the grid: where it crosses the axis, and its brush.
#[derive(Clone, Copy, Debug, PartialEq, Eq, Structural)]
pub struct GridLine {
    /// The distance of the line from the origin.
    pub offset: i32,
    /// The brush that the line is drawn with.
    pub brush: GridBrush,
}

/// The brush of the `index`-th grid line: red, green and blue in turn.
pub open spec fn brush_of(index: int) -> GridBrush {
    if index % 3 == 0 {
        GridBrush::Red
    } else if index % 3 == 1 {
        GridBrush::Green
    } else {
        GridBrush::Blue
    }
}

/// The number of grid lines across `extent`: one at the origin and one every
/// [`GRID_STEP`] pixels after it, as long as they lie inside the extent.
pub open spec fn grid_line_count(extent: int) -> int {
    if extent <= 0 {
        0
    } else {
        (extent + GRID_STEP - 1) / (GRID_STEP as int)
    }
}

/// The `index`-th grid line.
pub open spec fn grid_line(index: int) -> GridLine {
    GridLine { offset: (index * GRID_STEP) as i32, brush: brush_of(index) }
}

/// Lays out the grid lines across `extent`, in order from the origin.
pub fn grid_lines(extent: i32) -> (lines: Vec<GridLine>)
    ensures
        lines.len() == grid_line_count(extent as int),
        forall|i: int| 0 <= i < lines.len() ==> lines[i] == grid_line(i),
        forall|i: int| 0 <= i < lines.len() ==> 0 <= (#[trigger] lines[i]).offset < extent,
{
    let mut lines: Vec<GridLine> = Vec::new();
    let mut offset: i64 = 0;
    let mut phase: u8 = 0;
    while offset < extent as i64
        invariant
            0 <= offset,
            offset == lines.len() * GRID_STEP,
            offset == 0 || offset < extent + GRID_STEP,
            phase as int == lines.len() % 3,
            forall|i: int| 0 <= i < lines.len() ==> lines[i] == grid_line(i),
            forall|i: int| 0 <= i < lines.len() ==> 0 <= (#[trigger] lines[i]).offset < extent,
        decreases
                if offset < extent {
                    extent - offset
                } else {
                    0
                },
    {
        let brush = if phase == 0 {
            GridBrush::Red
        } else if phase == 1 {
            GridBrush::Green
        } else {
            GridBrush::Blue
        };
        lines.push(GridLine { offset: offset as i32, brush });
        offset = offset + GRID_STEP as i64;
        phase = if phase == 2 {
            0
        } else {
            phase + 1
        };
    }
    lines
}

/// Half of `extent`, rounded towards zero.
pub open spec fn half(extent: int) -> int {
    if extent >= 0 {
        extent / 2
    } else {
        -((-extent) / 2)
    }
}

/// The square of half side `half_side` around the middle of `size`.
pub open spec fn centered(size: Size2D, half_side: int) -> Rect2D {
    Rect2D {
        left: (half(size.width as int) - half_side) as i32,
        right: (half(size.width as int) + half_side) as i32,
        top: (half(size.height as int) - half_side) as i32,
        bottom: (half(size.height as int) + half_side) as i32,
    }
}

/// Whether the edges of the square of half side `half_side` around the
/// middle of `size` fit the coordinate type.
pub open spec fn square_fits(size: Size2D, half_side: int) -> bool {
    &&& i32::MIN <= half(size.width as int) - half_side <= i32::MAX
    &&& i32::MIN <= half(size.width as int) + half_side <= i32::MAX
    &&& i32::MIN <= half(size.height as int) - half_side <= i32::MAX
    &&& i32::MIN <= half(size.height as int) + half_side <= i32::MAX
}

/// Lays out the square of half side `half_side` around the middle of a
/// client area of the given size.
pub fn centered_square(size: Size2D, half_side: i32) -> (square: Rect2D)
    requires
        square_fits(size, half_side as int),
    ensures
        square == centered(size, half_side as int),
        square.right - square.left == 2 * half_side,
        square.bottom - square.top == 2 * half_side,
{
    let mid_x = size.width / 2;
    let mid_y = size.height / 2;
    Rect2D {
        left: mid_x - half_side,
        right: mid_x + half_side,
        top: mid_y - half_side,
        bottom: mid_y + half_side,
    }
}

/// What one frame of the demo shows.
#[derive(Debug)]
pub struct Frame {
    /// The vertical grid lines, by their distance from the left edge.
    pub columns: Vec<GridLine>,
    /// The horizontal grid lines, by their distance from the top edge.
    pub rows: Vec<GridLine>,
    /// The filled square in the middle.
    pub inner: Rect2D,
    /// The outlined square around it.
    pub outer: Rect2D,
}

/// Lays out the frame for a client area of the given size: a grid of lines
/// [`GRID_STEP`] apart in alternating colors, and two squares around the
/// middle.
pub fn layout_frame(size: Size2D) -> (frame: Frame)
    ensures
        frame.columns.len() == grid_line_count(size.width as int),
        frame.rows.len() == grid_line_count(size.height as int),
        forall|i: int| 0 <= i < frame.columns.len() ==> frame.columns[i] == grid_line(i),
        forall|i: int| 0 <= i < frame.rows.len() ==> frame.rows[i] == grid_line(i),
        frame.inner == centered(size, INNER_HALF_SIDE as int),
        frame.outer == centered(size, OUTER_HALF_SIDE as int),
{
    Frame {
        columns: grid_lines(size.width),
        rows: grid_lines(size.height),
        inner: centered_square(size, INNER_HALF_SIDE),
        outer: centered_square(size, OUTER_HALF_SIDE),
    }
}

/// What the message pump has to do after it has dispatched a message.
#[derive(Clone, Copy, Debug, PartialEq, Eq, Structural)]
pub struct PumpStep {
    /// Post the quit message: the main window asked to close.
    pub post_quit: bool,
    /// Update the game.
    pub update: bool,
    /// Draw a frame.
    pub draw: bool,
}

/// The state of the message pump between two messages.
#[derive(Clone, Copy, Debug, PartialEq, Eq, Structural)]
pub struct Pump {
    /// Dirty flag for changes that require rendering. If not dirty,
    /// rendering is skipped.
    pub is_render_dirty: bool,
    /// Whether the main window is shutting down. If so, messages are still
    /// pumped to finish that, but nothing else touches the window.
    pub is_shutting_down: bool,
}

impl Pump {
    /// The pump and its orders after a message has been dispatched and the
    /// window's requests have been polled.
    ///
    /// A close request posts the quit message and starts the shutdown. From
    /// then on nothing is updated or drawn. Until then every message is
    /// followed by an update, and by a frame if one is due: the first frame,
    /// and one for every redraw request.
    pub open spec fn step(self, close_requested: bool, redraw_requested: bool) -> (Pump, PumpStep) {
        let shutting_down = self.is_shutting_down || close_requested;
        let dirty = self.is_render_dirty || redraw_requested;
        (
            Pump { is_render_dirty: dirty && shutting_down, is_shutting_down: shutting_down },
            PumpStep {
                post_quit: close_requested,
                update: !shutting_down,
                draw: !shutting_down && dirty,
            },
        )
    }

    /// The pump before the first message: the first frame is due.
    pub fn new() -> (pump: Pump)
        ensures
            pump == (Pump { is_render_dirty: true, is_shutting_down: false }),
    {
        Pump { is_render_dirty: true, is_shutting_down: false }
    }

    /// Decides what follows a dispatched message. `close_requested` and
    /// `redraw_requested` are the window's requests as polled, and thereby
    /// cleared, after the message.
    pub fn after_dispatch(&mut self, close_requested: bool, redraw_requested: bool) -> (orders:
        PumpStep)
        ensures
            *final(self) == old(self).step(close_requested, redraw_requested).0,
            orders == old(self).step(close_requested, redraw_requested).1,
    {
        if close_requested {
            self.is_shutting_down = true;
        }
        if redraw_requested {
            self.is_render_dirty = true;
        }
        let active = !self.is_shutting_down;
        let draw = active && self.is_render_dirty;
        if draw {
            self.is_render_dirty = false;
        }
        PumpStep { post_quit: close_requested, update: active, draw }
    }
}

/// Once the main window has asked to close, the window is left alone:
/// nothing is updated or drawn after that, whatever is requested.
pub proof fn lemma_shutdown_is_final(pump: Pump, close_requested: bool, redraw_requested: bool)
    requires
        pump.is_shutting_down || close_requested,
    ensures
        pump.step(close_requested, redraw_requested).0.is_shutting_down,
        !pump.step(close_requested, redraw_requested).1.update,
        !pump.step(close_requested, redraw_requested).1.draw,
{
}

} // verus!
