use vstd::prelude::*;

use crate::status::{MoleError, MoleStatus};

verus! {

/// Number of rows and of columns of the detection grid. The bounds check is
/// against this fixed constant, not a configurable size.
pub const GRID_SIZE: usize = 100;

/// A coordinate is valid exactly when both components are under the fixed
/// bound.
pub open spec fn in_bounds(x: int, y: int) -> bool {
    0 <= x < GRID_SIZE && 0 <= y < GRID_SIZE
}

/// A well-formed grid is a full `GRID_SIZE` x `GRID_SIZE` matrix.
pub open spec fn grid_wf(g: Seq<Seq<MoleStatus>>) -> bool {
    g.len() == GRID_SIZE && forall|i: int| 0 <= i < g.len() ==> (#[trigger] g[i]).len() == GRID_SIZE
}

/// The grid after one cell is overwritten.
pub open spec fn grid_write(
    g: Seq<Seq<MoleStatus>>,
    x: int,
    y: int,
    s: MoleStatus,
) -> Seq<Seq<MoleStatus>> {
    g.update(x, g[x].update(y, s))
}

/// Fixed-size matrix of cell statuses; storage and bounds validation only.
pub struct Grid {
    cells: Vec<Vec<MoleStatus>>,
}

impl View for Grid {
    type V = Seq<Seq<MoleStatus>>;

    closed spec fn view(&self) -> Seq<Seq<MoleStatus>> {
        self.cells@.map_values(|row: Vec<MoleStatus>| row@)
    }
}

impl Grid {
    /// A fresh grid with every cell `Hidden`.
    pub fn new() -> (g: Grid)
        ensures
            grid_wf(g@),
            forall|x: int, y: int| in_bounds(x, y) ==> #[trigger] g@[x][y] == MoleStatus::Hidden,
    {
        let mut cells: Vec<Vec<MoleStatus>> = Vec::new();
        let mut x: usize = 0;
        while x < GRID_SIZE
            invariant
                x <= GRID_SIZE,
                cells@.len() == x,
                forall|i: int| 0 <= i < x ==> (#[trigger] cells@[i])@.len() == GRID_SIZE,
                forall|i: int, j: int|
                    0 <= i < x && 0 <= j < GRID_SIZE ==> #[trigger] cells@[i]@[j]
                        == MoleStatus::Hidden,
            decreases GRID_SIZE - x,
        {
            let mut row: Vec<MoleStatus> = Vec::new();
            let mut y: usize = 0;
            while y < GRID_SIZE
                invariant
                    y <= GRID_SIZE,
                    row@.len() == y,
                    forall|j: int| 0 <= j < y ==> row@[j] == MoleStatus::Hidden,
                decreases GRID_SIZE - y,
            {
                row.push(MoleStatus::Hidden);
                y = y + 1;
            }
            cells.push(row);
            x = x + 1;
        }
        let g = Grid { cells };
        assert forall|x0: int, y0: int| in_bounds(x0, y0) implies #[trigger] g@[x0][y0]
            == MoleStatus::Hidden by {
            assert(g@[x0] == cells@[x0]@);
        }
        g
    }

    /// Read one cell; `OutOfBounds` outside the fixed bound, the stored
    /// status inside it.
    pub fn get(&self, x: usize, y: usize) -> (r: Result<MoleStatus, MoleError>)
        requires
            grid_wf(self@),
        ensures
            in_bounds(x as int, y as int) ==> r == Ok::<MoleStatus, MoleError>(
                self@[x as int][y as int],
            ),
            !in_bounds(x as int, y as int) ==> r == Err::<MoleStatus, MoleError>(
                MoleError::OutOfBounds,
            ),
    {
        if x >= GRID_SIZE || y >= GRID_SIZE {
            return Err(MoleError::OutOfBounds);
        }
        proof {
            assert(self@[x as int] == self.cells@[x as int]@);
        }
        let s = self.cells[x][y];
        Ok(s)
    }

    /// Overwrite one cell with any status; `OutOfBounds` outside the fixed
    /// bound, no other validation inside it.
    pub fn set(&mut self, x: usize, y: usize, s: MoleStatus) -> (r: Result<(), MoleError>)
        requires
            grid_wf(old(self)@),
        ensures
            grid_wf(final(self)@),
            in_bounds(x as int, y as int) ==> r == Ok::<(), MoleError>(()) && final(self)@
                == grid_write(old(self)@, x as int, y as int, s),
            !in_bounds(x as int, y as int) ==> r == Err::<(), MoleError>(MoleError::OutOfBounds)
                && final(self)@ == old(self)@,
    {
        if x >= GRID_SIZE || y >= GRID_SIZE {
            return Err(MoleError::OutOfBounds);
        }
        proof {
            assert(old(self)@[x as int] == old(self).cells@[x as int]@);
        }
        self.cells[x][y] = s;
        proof {
            assert(final(self)@ =~= grid_write(old(self)@, x as int, y as int, s));
        }
        Ok(())
    }
}

} // verus!
