//! The layout: the terminal's dimensions, the sink, and the two windows.

use vstd::prelude::*;
use crate::escape::{
    clear_all, clear_all_bytes, color_reset_bytes, restore_bytes, restore_sequence,
};
use crate::geometry::{
    content_region, splittable, status_region, TerminalSize, WindowPosition, WindowSize,
    STATUS_HEIGHT,
};
use crate::sink::{Sink, SinkState};
use crate::window::TermionWindow;

verus! {

/// Why no layout could be made.
#[derive(Clone, Copy, Debug, PartialEq, Eq, Structural)]
pub enum LayoutError {
    /// The terminal could not be put into raw mode, or did not tell its size.
    TerminalUnavailable,
    /// The terminal has fewer than two rows or no column: there is no room
    /// for a status bar with content above it.
    TerminalTooSmall,
}

/// What a layout holds, as plain mathematics.
pub struct LayoutState {
    /// Rows of the terminal.
    pub height: u32,
    /// Columns of the terminal.
    pub width: u32,
    /// The sink that the layout and its windows write to.
    pub sink: SinkState,
}

impl LayoutState {
    /// The layout after a full clear: the dimensions stay, the sink gets
    /// the color resets and the erase, and all of it is flushed.
    pub open spec fn clear(self) -> LayoutState {
        LayoutState { sink: self.sink.write(restore_bytes()).flush(), ..self }
    }
}

/// The dimensions of one terminal, fixed when the layout is made, and the
/// sink that stands for the terminal's output.
#[derive(Debug)]
pub struct TermionLayout {
    size: TerminalSize,
    writer: Sink,
}

impl View for TermionLayout {
    type V = LayoutState;

    closed spec fn view(&self) -> LayoutState {
        LayoutState { height: self.size.rows(), width: self.size.columns(), sink: self.writer@ }
    }
}

impl TermionLayout {
    /// Makes the layout from what the terminal answered at startup:
    /// `raw_mode` tells whether it could be put into raw mode, and `size` is
    /// its answer when asked for its columns and rows, in that order, or
    /// `None` if it gave none.
    ///
    /// A terminal that did not enter raw mode, or that gave no size, is
    /// unavailable. One with fewer than two rows, or with no column, is
    /// refused: a layout is never made with an empty window. Otherwise the
    /// layout has the given dimensions, and its sink holds the sequence that
    /// erases the screen, written and not yet flushed.
    pub fn new(raw_mode: bool, size: Option<(u16, u16)>) -> (made: Result<
        TermionLayout,
        LayoutError,
    >)
        ensures
            match size {
                Some((columns, rows)) if raw_mode => if splittable(rows as int, columns as int) {
                    &&& made matches Ok(layout)
                    &&& layout@ == (LayoutState {
                        height: rows as u32,
                        width: columns as u32,
                        sink: SinkState::empty().write(clear_all_bytes()),
                    })
                } else {
                    made == Err::<TermionLayout, LayoutError>(LayoutError::TerminalTooSmall)
                },
                _ => made == Err::<TermionLayout, LayoutError>(
                    LayoutError::TerminalUnavailable,
                ),
            },
    {
        if !raw_mode {
            return Err(LayoutError::TerminalUnavailable);
        }
        match size {
            None => Err(LayoutError::TerminalUnavailable),
            Some((columns, rows)) => {
                match TerminalSize::new(rows as u32, columns as u32) {
                    None => Err(LayoutError::TerminalTooSmall),
                    Some(size) => {
                        let mut writer = Sink::new();
                        let erase: Vec<u8> = clear_all();
                        writer.write(erase.as_slice());
                        Ok(TermionLayout { size, writer })
                    },
                }
            },
        }
    }

    /// Exclusive access to the sink, for as long as the borrow lasts. The
    /// dimensions are out of reach through it.
    pub fn get_writer(&mut self) -> (writer: &mut Sink)
        ensures
            writer@ == old(self)@.sink,
            final(self)@ == (LayoutState { sink: final(writer)@, ..old(self)@ }),
    {
        &mut self.writer
    }

    /// The window for content: from the top-left corner, all rows but the
    /// status bar's, at full width.
    pub fn create_view_window(&self) -> (window: TermionWindow)
        ensures
            window@.position == (WindowPosition { y: 0, x: 0 }),
            window@.size == (WindowSize {
                height: (self@.height - 1) as u32,
                width: self@.width,
            }),
            window@ == content_region(self@.height, self@.width),
            window@.fits(self@.height as int, self@.width as int),
    {
        let height: u32 = self.size.height();
        let width: u32 = self.size.width();
        TermionWindow::new(
            WindowPosition { y: 0, x: 0 },
            WindowSize { height: height - STATUS_HEIGHT, width },
        )
    }

    /// The window of the status bar: the last row, at full width.
    pub fn create_new_status_bar_window(&self) -> (window: TermionWindow)
        ensures
            window@.position == (WindowPosition { y: (self@.height - 1) as u32, x: 0 }),
            window@.size == (WindowSize { height: 1, width: self@.width }),
            window@ == status_region(self@.height, self@.width),
            window@.fits(self@.height as int, self@.width as int),
    {
        let height: u32 = self.size.height();
        let width: u32 = self.size.width();
        TermionWindow::new(
            WindowPosition { y: height - STATUS_HEIGHT, x: 0 },
            WindowSize { height: STATUS_HEIGHT, width },
        )
    }

    /// Resets both colors, erases the whole screen and flushes, as one
    /// unbroken run. The dimensions stay as they are.
    pub fn clear(&mut self)
        ensures
            final(self)@ == old(self)@.clear(),
    {
        let restore: Vec<u8> = restore_sequence();
        self.writer.write(restore.as_slice());
        self.writer.flush();
    }

    /// Ends the layout: does what `clear` does and gives up the sink, whose
    /// last flushed bytes are then the color resets and the erase.
    pub fn destroy(self) -> (sink: Sink)
        ensures
            sink@ == self@.clear().sink,
    {
        let mut layout = self;
        layout.clear();
        layout.writer
    }
}

/// The windows depend on the dimensions alone, and a layout changes only by
/// a clear or through its sink, neither of which touches the dimensions. So
/// making a window again, whatever happened in between, gives the same
/// region.
pub proof fn lemma_windows_are_repeatable(s: LayoutState, sink: SinkState)
    ensures
        ({
            let later = LayoutState { sink, ..s };
            &&& content_region(later.height, later.width) == content_region(s.height, s.width)
            &&& status_region(later.height, later.width) == status_region(s.height, s.width)
        }),
        content_region(s.clear().height, s.clear().width) == content_region(s.height, s.width),
        status_region(s.clear().height, s.clear().width) == status_region(s.height, s.width),
{
}

/// After a full clear, and so after the layout has ended, the record of the
/// sink is what it was, then the color resets, then the erase, and nothing
/// else; all of it is flushed.
pub proof fn lemma_clear_restores_terminal(s: LayoutState)
    ensures
        ({
            let sink = s.clear().sink;
            let end = sink.written.len() as int;
            &&& end == s.sink.written.len() + 14
            &&& sink.written.subrange(0, end - 14) == s.sink.written
            &&& sink.written.subrange(end - 14, end - 4) == color_reset_bytes()
            &&& sink.written.subrange(end - 4, end) == clear_all_bytes()
            &&& sink.visible() == sink.written
            &&& sink.pending() == Seq::<u8>::empty()
        }),
{
}

} // verus!
