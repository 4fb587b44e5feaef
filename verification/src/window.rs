//! A window: a handle on one fixed region of the screen.

use vstd::prelude::*;
use crate::geometry::{Region, WindowPosition, WindowSize};
use crate::sink::{chunk_views, Sink};

verus! {

/// A region of the screen and the way to write to the sink on its behalf.
/// The region never changes. The window does not check it against the
/// terminal: whoever makes the window answers for that.
#[derive(Clone, Copy, Debug, PartialEq, Eq, Structural)]
pub struct TermionWindow {
    position: WindowPosition,
    size: WindowSize,
}

impl View for TermionWindow {
    type V = Region;

    closed spec fn view(&self) -> Region {
        Region { position: self.position, size: self.size }
    }
}

impl TermionWindow {
    /// A window on the region at `position` of extent `size`.
    pub fn new(position: WindowPosition, size: WindowSize) -> (window: TermionWindow)
        ensures
            window@ == (Region { position, size }),
    {
        TermionWindow { position, size }
    }

    /// The top-left cell of the window.
    pub fn position(&self) -> (position: WindowPosition)
        ensures
            position == self@.position,
    {
        self.position
    }

    /// The extent of the window.
    pub fn size(&self) -> (size: WindowSize)
        ensures
            size == self@.size,
    {
        self.size
    }

    /// Writes `bytes` to the sink as one unbroken run. The exclusive borrow
    /// of the sink lasts for the whole call, so no other window's bytes can
    /// fall among them. Nothing is flushed.
    pub fn write(&self, sink: &mut Sink, bytes: &[u8])
        ensures
            final(sink)@ == old(sink)@.write(bytes@),
    {
        sink.write(bytes);
    }

    /// Writes the chunks to the sink in order, as one unbroken run.
    pub fn write_sequence(&self, sink: &mut Sink, chunks: &[Vec<u8>])
        ensures
            final(sink)@ == old(sink)@.write_sequence(chunk_views(chunks@)),
    {
        sink.write_sequence(chunks);
    }
}

} // verus!
