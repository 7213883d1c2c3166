//! Orientation codes and what each does to a picture's pixels.
//!
//! A camera may store a picture turned or mirrored and record, as a code
//! from 1 to 8, what has to be done to show it upright. This module gives
//! each code its meaning on a grid of pixels and proves that every code can
//! be undone by a code.

use crate::error::UploadError;
use vstd::prelude::*;

verus! {

/// The pixels of a picture: its rows from top to bottom, in each row the
/// pixels from left to right, each pixel as its bytes.
pub type Grid = Seq<Seq<Seq<u8>>>;

/// The width of a grid: the length of its first row.
pub open spec fn grid_width(grid: Grid) -> nat {
    if grid.len() > 0 {
        grid[0].len()
    } else {
        0
    }
}

/// All rows of the grid have one length.
pub open spec fn rectangular(grid: Grid) -> bool {
    forall|y: int| 0 <= y < grid.len() ==> (#[trigger] grid[y]).len() == grid_width(grid)
}

/// The grid is rectangular and holds at least one pixel.
pub open spec fn has_pixels(grid: Grid) -> bool {
    &&& grid.len() > 0
    &&& grid_width(grid) > 0
    &&& rectangular(grid)
}

/// The grid mirrored top to bottom: the pixel at `(x, y)` comes to
/// `(x, height - 1 - y)`.
pub open spec fn flipped_vertically(grid: Grid) -> Grid {
    Seq::new(grid.len(), |y: int| grid[grid.len() - 1 - y])
}

/// The grid mirrored left to right: the pixel at `(x, y)` comes to
/// `(width - 1 - x, y)`.
pub open spec fn flipped_horizontally(grid: Grid) -> Grid {
    Seq::new(
        grid.len(),
        |y: int| Seq::new(grid[y].len(), |x: int| grid[y][grid[y].len() - 1 - x]),
    )
}

/// The grid turned a quarter clockwise: the pixel at `(x, y)` comes to
/// `(height - 1 - y, x)`, and width and height change places.
pub open spec fn rotated_90(grid: Grid) -> Grid {
    Seq::new(
        grid_width(grid),
        |y: int| Seq::new(grid.len(), |x: int| grid[grid.len() - 1 - x][y]),
    )
}

/// The grid turned upside down: the pixel at `(x, y)` comes to
/// `(width - 1 - x, height - 1 - y)`.
pub open spec fn rotated_180(grid: Grid) -> Grid {
    flipped_vertically(flipped_horizontally(grid))
}

/// The grid turned three quarters clockwise: the pixel at `(x, y)` comes to
/// `(y, width - 1 - x)`, and width and height change places.
pub open spec fn rotated_270(grid: Grid) -> Grid {
    Seq::new(
        grid_width(grid),
        |y: int| Seq::new(grid.len(), |x: int| grid[x][grid_width(grid) - 1 - y]),
    )
}

/// What has to be done to a stored picture to show it upright.
#[derive(Clone, Copy, Debug, PartialEq, Eq, Structural)]
pub enum Orientation {
    /// Code 1: nothing.
    Identity,
    /// Code 2: mirror top to bottom.
    FlipVertical,
    /// Code 3: turn upside down.
    Rotate180,
    /// Code 4: mirror left to right.
    FlipHorizontal,
    /// Code 5: a quarter turn clockwise, then mirror top to bottom.
    Rotate90FlipVertical,
    /// Code 6: a quarter turn clockwise.
    Rotate90,
    /// Code 7: three quarter turns clockwise, then mirror left to right.
    Rotate270FlipHorizontal,
    /// Code 8: three quarter turns clockwise.
    Rotate270,
}

/// The orientation that a code stands for; codes outside 1 to 8 stand for
/// none.
pub open spec fn orientation_of(code: u32) -> Result<Orientation, UploadError> {
    if code == 1 {
        Ok(Orientation::Identity)
    } else if code == 2 {
        Ok(Orientation::FlipVertical)
    } else if code == 3 {
        Ok(Orientation::Rotate180)
    } else if code == 4 {
        Ok(Orientation::FlipHorizontal)
    } else if code == 5 {
        Ok(Orientation::Rotate90FlipVertical)
    } else if code == 6 {
        Ok(Orientation::Rotate90)
    } else if code == 7 {
        Ok(Orientation::Rotate270FlipHorizontal)
    } else if code == 8 {
        Ok(Orientation::Rotate270)
    } else {
        Err(UploadError::InvalidOrientation)
    }
}

/// The grid after the orientation was applied to it.
pub open spec fn oriented(grid: Grid, orientation: Orientation) -> Grid {
    match orientation {
        Orientation::Identity => grid,
        Orientation::FlipVertical => flipped_vertically(grid),
        Orientation::Rotate180 => rotated_180(grid),
        Orientation::FlipHorizontal => flipped_horizontally(grid),
        Orientation::Rotate90FlipVertical => flipped_vertically(rotated_90(grid)),
        Orientation::Rotate90 => rotated_90(grid),
        Orientation::Rotate270FlipHorizontal => flipped_horizontally(rotated_270(grid)),
        Orientation::Rotate270 => rotated_270(grid),
    }
}

impl Orientation {
    /// The code of the orientation, from 1 to 8.
    pub open spec fn code_of(self) -> u32 {
        match self {
            Orientation::Identity => 1,
            Orientation::FlipVertical => 2,
            Orientation::Rotate180 => 3,
            Orientation::FlipHorizontal => 4,
            Orientation::Rotate90FlipVertical => 5,
            Orientation::Rotate90 => 6,
            Orientation::Rotate270FlipHorizontal => 7,
            Orientation::Rotate270 => 8,
        }
    }

    /// The orientation that undoes this one. The two quarter turns undo each
    /// other; every other orientation undoes itself.
    pub open spec fn inverse_of(self) -> Orientation {
        match self {
            Orientation::Rotate90 => Orientation::Rotate270,
            Orientation::Rotate270 => Orientation::Rotate90,
            other => other,
        }
    }

    /// Whether the orientation exchanges width and height.
    pub open spec fn swaps_sides(self) -> bool {
        match self {
            Orientation::Rotate90FlipVertical
            | Orientation::Rotate90
            | Orientation::Rotate270FlipHorizontal
            | Orientation::Rotate270 => true,
            _ => false,
        }
    }

    /// Reads an orientation code. Codes outside 1 to 8 are refused.
    pub fn from_code(code: u32) -> (outcome: Result<Orientation, UploadError>)
        ensures
            outcome == orientation_of(code),
            outcome is Ok <==> 1 <= code <= 8,
    {
        if code == 1 {
            Ok(Orientation::Identity)
        } else if code == 2 {
            Ok(Orientation::FlipVertical)
        } else if code == 3 {
            Ok(Orientation::Rotate180)
        } else if code == 4 {
            Ok(Orientation::FlipHorizontal)
        } else if code == 5 {
            Ok(Orientation::Rotate90FlipVertical)
        } else if code == 6 {
            Ok(Orientation::Rotate90)
        } else if code == 7 {
            Ok(Orientation::Rotate270FlipHorizontal)
        } else if code == 8 {
            Ok(Orientation::Rotate270)
        } else {
            Err(UploadError::InvalidOrientation)
        }
    }

    /// The code of the orientation.
    pub fn code(self) -> (code: u32)
        ensures
            code == self.code_of(),
            1 <= code <= 8,
            orientation_of(code) == Ok::<Orientation, UploadError>(self),
    {
        match self {
            Orientation::Identity => 1,
            Orientation::FlipVertical => 2,
            Orientation::Rotate180 => 3,
            Orientation::FlipHorizontal => 4,
            Orientation::Rotate90FlipVertical => 5,
            Orientation::Rotate90 => 6,
            Orientation::Rotate270FlipHorizontal => 7,
            Orientation::Rotate270 => 8,
        }
    }

    /// The orientation that undoes this one.
    pub fn inverse(self) -> (inverse: Orientation)
        ensures
            inverse == self.inverse_of(),
    {
        match self {
            Orientation::Rotate90 => Orientation::Rotate270,
            Orientation::Rotate270 => Orientation::Rotate90,
            other => other,
        }
    }
}

/// Mirroring keeps the shape of a grid; a quarter turn exchanges its sides.
pub proof fn lemma_shapes(grid: Grid)
    requires
        has_pixels(grid),
    ensures
        has_pixels(flipped_vertically(grid)),
        flipped_vertically(grid).len() == grid.len(),
        grid_width(flipped_vertically(grid)) == grid_width(grid),
        has_pixels(flipped_horizontally(grid)),
        flipped_horizontally(grid).len() == grid.len(),
        grid_width(flipped_horizontally(grid)) == grid_width(grid),
        has_pixels(rotated_180(grid)),
        rotated_180(grid).len() == grid.len(),
        grid_width(rotated_180(grid)) == grid_width(grid),
        has_pixels(rotated_90(grid)),
        rotated_90(grid).len() == grid_width(grid),
        grid_width(rotated_90(grid)) == grid.len(),
        has_pixels(rotated_270(grid)),
        rotated_270(grid).len() == grid_width(grid),
        grid_width(rotated_270(grid)) == grid.len(),
{
    let h = flipped_horizontally(grid);
    assert(has_pixels(h));
    assert(has_pixels(flipped_vertically(h)));
}

/// An oriented picture still has pixels; its sides are those of the stored
/// picture, exchanged where the orientation holds a quarter turn.
pub proof fn lemma_oriented_shape(grid: Grid, orientation: Orientation)
    requires
        has_pixels(grid),
    ensures
        has_pixels(oriented(grid, orientation)),
        oriented(grid, orientation).len() == (if orientation.swaps_sides() {
            grid_width(grid)
        } else {
            grid.len()
        }),
        grid_width(oriented(grid, orientation)) == (if orientation.swaps_sides() {
            grid.len()
        } else {
            grid_width(grid)
        }),
{
    lemma_shapes(grid);
    lemma_shapes(rotated_90(grid));
    lemma_shapes(rotated_270(grid));
}

/// Mirroring twice the same way gives the grid back.
pub proof fn lemma_mirrors_undo_themselves(grid: Grid)
    requires
        has_pixels(grid),
    ensures
        flipped_vertically(flipped_vertically(grid)) == grid,
        flipped_horizontally(flipped_horizontally(grid)) == grid,
{
    assert(flipped_vertically(flipped_vertically(grid)) =~= grid);
    let twice = flipped_horizontally(flipped_horizontally(grid));
    assert forall|y: int| 0 <= y < grid.len() implies #[trigger] twice[y] == grid[y] by {
        assert(twice[y] =~= grid[y]);
    }
    assert(twice =~= grid);
}

/// A quarter turn after three quarter turns, or the other way round, gives
/// the grid back.
pub proof fn lemma_quarter_turns_undo_each_other(grid: Grid)
    requires
        has_pixels(grid),
    ensures
        rotated_270(rotated_90(grid)) == grid,
        rotated_90(rotated_270(grid)) == grid,
{
    lemma_shapes(grid);
    let a = rotated_270(rotated_90(grid));
    assert forall|y: int| 0 <= y < grid.len() implies #[trigger] a[y] == grid[y] by {
        assert(a[y] =~= grid[y]);
    }
    assert(a =~= grid);
    let b = rotated_90(rotated_270(grid));
    assert forall|y: int| 0 <= y < grid.len() implies #[trigger] b[y] == grid[y] by {
        assert(b[y] =~= grid[y]);
    }
    assert(b =~= grid);
}

/// Two quarter turns are a half turn, and four give the grid back.
pub proof fn lemma_four_quarter_turns(grid: Grid)
    requires
        has_pixels(grid),
    ensures
        rotated_90(rotated_90(grid)) == rotated_180(grid),
        rotated_180(rotated_180(grid)) == grid,
        rotated_90(rotated_90(rotated_90(rotated_90(grid)))) == grid,
{
    lemma_shapes(grid);
    let half = rotated_90(rotated_90(grid));
    let flipped = rotated_180(grid);
    assert forall|y: int| 0 <= y < grid.len() implies #[trigger] half[y] == flipped[y] by {
        assert(half[y] =~= flipped[y]);
    }
    assert(half =~= flipped);
    lemma_shapes(flipped);
    let full = rotated_180(flipped);
    assert forall|y: int| 0 <= y < grid.len() implies #[trigger] full[y] == grid[y] by {
        assert(full[y] =~= grid[y]);
    }
    assert(full =~= grid);
    let quarter = rotated_90(grid);
    lemma_shapes(quarter);
    let three = rotated_90(half);
    lemma_shapes(half);
    let three_again = rotated_90(rotated_90(quarter));
    assert forall|y: int| 0 <= y < quarter.len() implies #[trigger] three_again[y] == rotated_180(
        quarter,
    )[y] by {
        assert(three_again[y] =~= rotated_180(quarter)[y]);
    }
    assert(three_again =~= rotated_180(quarter));
    let four = rotated_90(three);
    assert forall|y: int| 0 <= y < grid.len() implies #[trigger] four[y] == grid[y] by {
        assert(four[y] =~= grid[y]);
    }
    assert(four =~= grid);
}

/// Code 1 leaves the pixels as they are.
pub proof fn lemma_identity_keeps_pixels(grid: Grid)
    ensures
        orientation_of(1) == Ok::<Orientation, UploadError>(Orientation::Identity),
        oriented(grid, Orientation::Identity) == grid,
{
}

/// Every orientation is undone by its inverse: applying one and then the
/// other gives the pixels back. Codes 1 to 5 and 7 undo themselves; codes 6
/// and 8 undo each other.
pub proof fn lemma_inverse_restores(grid: Grid, orientation: Orientation)
    requires
        has_pixels(grid),
    ensures
        oriented(oriented(grid, orientation), orientation.inverse_of()) == grid,
        orientation.inverse_of().inverse_of() == orientation,
{
    lemma_shapes(grid);
    lemma_mirrors_undo_themselves(grid);
    lemma_quarter_turns_undo_each_other(grid);
    lemma_four_quarter_turns(grid);
    match orientation {
        Orientation::Rotate90FlipVertical => {
            let once = flipped_vertically(rotated_90(grid));
            lemma_shapes(rotated_90(grid));
            lemma_shapes(once);
            let twice = flipped_vertically(rotated_90(once));
            assert forall|y: int| 0 <= y < grid.len() implies #[trigger] twice[y] == grid[y] by {
                assert(twice[y] =~= grid[y]);
            }
            assert(twice =~= grid);
        },
        Orientation::Rotate270FlipHorizontal => {
            let once = flipped_horizontally(rotated_270(grid));
            lemma_shapes(rotated_270(grid));
            lemma_shapes(once);
            let twice = flipped_horizontally(rotated_270(once));
            assert forall|y: int| 0 <= y < grid.len() implies #[trigger] twice[y] == grid[y] by {
                assert(twice[y] =~= grid[y]);
            }
            assert(twice =~= grid);
        },
        _ => {},
    }
}

} // verus!
