//! Cells, regions, and the fixed split of the screen into content and status bar.

use vstd::prelude::*;

verus! {

/// Rows that the status bar takes at the bottom of the screen.
pub const STATUS_HEIGHT: u32 = 1;

/// Top-left cell of a region. Rows (`y`) grow downward and columns (`x`)
/// rightward, both counted from 0.
#[derive(Clone, Copy, Debug, PartialEq, Eq, Structural)]
pub struct WindowPosition {
    pub y: u32,
    pub x: u32,
}

/// Extent of a region in terminal cells.
#[derive(Clone, Copy, Debug, PartialEq, Eq, Structural)]
pub struct WindowSize {
    pub height: u32,
    pub width: u32,
}

/// A rectangle of terminal cells, given by its top-left cell and its extent.
#[derive(Clone, Copy, Debug, PartialEq, Eq, Structural)]
pub struct Region {
    pub position: WindowPosition,
    pub size: WindowSize,
}

impl Region {
    /// The cell in row `row` and column `col` belongs to the region.
    pub open spec fn contains(self, row: int, col: int) -> bool {
        &&& self.position.y <= row < self.position.y + self.size.height
        &&& self.position.x <= col < self.position.x + self.size.width
    }

    /// The region is a non-empty rectangle of a screen of `height` rows and
    /// `width` columns: its origin is a cell of the screen, it has at least
    /// one row and one column, and it ends no later than the screen does.
    pub open spec fn fits(self, height: int, width: int) -> bool {
        &&& self.position.y < height
        &&& self.position.x < width
        &&& self.size.height >= 1
        &&& self.size.width >= 1
        &&& self.position.y + self.size.height <= height
        &&& self.position.x + self.size.width <= width
    }

    /// No cell belongs to both regions.
    pub open spec fn disjoint(self, other: Region) -> bool {
        forall|row: int, col: int|
            !(#[trigger] self.contains(row, col) && #[trigger] other.contains(row, col))
    }
}

/// A screen of `height` rows and `width` columns has room for a status bar
/// and at least one row of content above it.
pub open spec fn splittable(height: int, width: int) -> bool {
    height >= STATUS_HEIGHT + 1 && width >= 1
}

/// The content region of a screen: every row but the last `STATUS_HEIGHT`,
/// at full width, starting in the top-left corner.
pub open spec fn content_region(height: u32, width: u32) -> Region {
    Region {
        position: WindowPosition { y: 0, x: 0 },
        size: WindowSize { height: (height - STATUS_HEIGHT) as u32, width },
    }
}

/// The status region of a screen: its last `STATUS_HEIGHT` rows at full width.
pub open spec fn status_region(height: u32, width: u32) -> Region {
    Region {
        position: WindowPosition { y: (height - STATUS_HEIGHT) as u32, x: 0 },
        size: WindowSize { height: STATUS_HEIGHT, width },
    }
}

/// The dimensions of a terminal that can be split: at least `STATUS_HEIGHT`
/// rows and one more, and at least one column. They do not change once made.
#[derive(Clone, Copy, Debug)]
pub struct TerminalSize {
    height: u32,
    width: u32,
}

impl TerminalSize {
    #[verifier::type_invariant]
    spec fn inv(self) -> bool {
        splittable(self.height as int, self.width as int)
    }

    /// Rows of the terminal.
    pub closed spec fn rows(self) -> u32 {
        self.height
    }

    /// Columns of the terminal.
    pub closed spec fn columns(self) -> u32 {
        self.width
    }

    /// Accepts the dimensions if the screen can be split, and only then.
    pub fn new(height: u32, width: u32) -> (size: Option<TerminalSize>)
        ensures
            size is Some <==> splittable(height as int, width as int),
            size matches Some(s) ==> s.rows() == height && s.columns() == width,
    {
        if height > STATUS_HEIGHT && width >= 1 {
            Some(TerminalSize { height, width })
        } else {
            None
        }
    }

    /// Rows of the terminal: at least two.
    pub fn height(&self) -> (height: u32)
        ensures
            height == self.rows(),
            splittable(self.rows() as int, self.columns() as int),
    {
        proof {
            use_type_invariant(self);
        }
        self.height
    }

    /// Columns of the terminal: at least one.
    pub fn width(&self) -> (width: u32)
        ensures
            width == self.columns(),
            splittable(self.rows() as int, self.columns() as int),
    {
        proof {
            use_type_invariant(self);
        }
        self.width
    }
}

/// On every screen of at least two rows and one column the content region
/// has all rows but one, the status region has exactly one, both at full
/// width, and the status region begins in the row where the content region ends.
pub proof fn lemma_split_sizes(height: u32, width: u32)
    requires
        height >= 2,
        width >= 1,
    ensures
        content_region(height, width).position == (WindowPosition { y: 0, x: 0 }),
        content_region(height, width).size == (WindowSize {
            height: (height - 1) as u32,
            width,
        }),
        status_region(height, width).position == (WindowPosition {
            y: (height - 1) as u32,
            x: 0,
        }),
        status_region(height, width).size == (WindowSize { height: 1, width }),
        content_region(height, width).position.y + content_region(height, width).size.height
            == status_region(height, width).position.y,
{
}

/// On every splittable screen both regions are non-empty rectangles of the
/// screen, they share no cell, and every cell of the screen belongs to one
/// of them.
pub proof fn lemma_split_tiles_screen(height: u32, width: u32)
    requires
        splittable(height as int, width as int),
    ensures
        content_region(height, width).fits(height as int, width as int),
        status_region(height, width).fits(height as int, width as int),
        content_region(height, width).disjoint(status_region(height, width)),
        forall|row: int, col: int|
            0 <= row < height && 0 <= col < width ==> (#[trigger] content_region(
                height,
                width,
            ).contains(row, col) || status_region(height, width).contains(row, col)),
{
}

} // verus!
