//! The grid store: a fixed-size grid of colour tokens, held in memory.

use vstd::prelude::*;
use crate::api::{CanvasError, CanvasResponse};

verus! {

/// Width of the canvas served by the application.
pub const CANVAS_WIDTH: u32 = 32;

/// Height of the canvas served by the application.
pub const CANVAS_HEIGHT: u32 = 16;

/// The colour of a cell that was never written, or was reset.
pub const DEFAULT_COLOR: &'static str = "#000000";

/// The characters of `DEFAULT_COLOR`.
pub open spec fn default_color() -> Seq<char> {
    DEFAULT_COLOR@
}

/// Abstract grid: `cells[y][x]` is the colour of cell `(x, y)`.
pub struct GridView {
    pub width: nat,
    pub height: nat,
    pub cells: Seq<Seq<Seq<char>>>,
}

impl GridView {
    /// Every one of `width * height` cells holds a value.
    pub open spec fn well_formed(self) -> bool {
        &&& self.cells.len() == self.height
        &&& forall|y: int| 0 <= y < self.height ==> #[trigger] self.cells[y].len() == self.width
    }

    pub open spec fn in_bounds(self, x: int, y: int) -> bool {
        0 <= x < self.width && 0 <= y < self.height
    }

    pub open spec fn cell(self, x: int, y: int) -> Seq<char> {
        self.cells[y][x]
    }

    /// The grid with cell `(x, y)` set to `c`.
    pub open spec fn set_cell(self, x: int, y: int, c: Seq<char>) -> GridView {
        GridView { cells: self.cells.update(y, self.cells[y].update(x, c)), ..self }
    }

    /// A `width` by `height` grid of default cells.
    pub open spec fn blank(width: nat, height: nat) -> GridView {
        GridView {
            width,
            height,
            cells: Seq::new(height, |y: int| Seq::new(width, |x: int| default_color())),
        }
    }
}

/// Setting an in-bounds cell to `c` changes that cell to `c` and leaves every
/// other cell, and the dimensions, as they were.
pub proof fn lemma_set_cell_changes_only_that_cell(g: GridView, x: int, y: int, c: Seq<char>)
    requires
        g.well_formed(),
        g.in_bounds(x, y),
    ensures
        g.set_cell(x, y, c).well_formed(),
        g.set_cell(x, y, c).width == g.width,
        g.set_cell(x, y, c).height == g.height,
        g.set_cell(x, y, c).cell(x, y) == c,
        forall|i: int, j: int|
            g.in_bounds(i, j) && (i != x || j != y) ==> #[trigger] g.set_cell(x, y, c).cell(i, j)
                == g.cell(i, j),
{
    let h = g.set_cell(x, y, c);
    assert forall|j: int| 0 <= j < h.height implies #[trigger] h.cells[j].len() == h.width by {
        if j != y {
            assert(h.cells[j] == g.cells[j]);
        }
    }
}

/// After a reset every cell holds the default colour.
pub proof fn lemma_reset_is_all_default(width: nat, height: nat)
    ensures
        GridView::blank(width, height).well_formed(),
        forall|x: int, y: int|
            GridView::blank(width, height).in_bounds(x, y) ==> #[trigger] GridView::blank(
                width,
                height,
            ).cell(x, y) == default_color(),
{
}

/// The colour that a loaded grid takes at `(x, y)`: the stored token where
/// one is present, else the default colour.
pub open spec fn stored_color(stored: Seq<Seq<Option<Seq<char>>>>, x: int, y: int) -> Seq<char> {
    if 0 <= y < stored.len() && 0 <= x < stored[y].len() && stored[y][x] is Some {
        stored[y][x]->Some_0
    } else {
        default_color()
    }
}

/// The stored tokens as plain character sequences.
pub open spec fn stored_view(stored: &Vec<Vec<Option<String>>>) -> Seq<Seq<Option<Seq<char>>>> {
    stored@.map_values(
        |row: Vec<Option<String>>|
            row@.map_values(
                |c: Option<String>|
                    match c {
                        Some(s) => Some(s@),
                        None => None,
                    },
            ),
    )
}

/// A grid of rows of colour tokens, as plain character sequences.
pub open spec fn rows_view(rows: &Vec<Vec<String>>) -> Seq<Seq<Seq<char>>> {
    rows@.map_values(|row: Vec<String>| row@.map_values(|c: String| c@))
}

/// The grid store. Its dimensions are fixed at creation and every cell
/// always holds a colour token.
pub struct GridStore {
    width: u32,
    height: u32,
    rows: Vec<Vec<String>>,
}

impl View for GridStore {
    type V = GridView;

    closed spec fn view(&self) -> GridView {
        GridView { width: self.width as nat, height: self.height as nat, cells: rows_view(&self.rows) }
    }
}

impl GridStore {
    #[verifier::type_invariant]
    closed spec fn shaped(self) -> bool {
        &&& self.rows@.len() == self.height
        &&& forall|y: int| 0 <= y < self.height ==> #[trigger] self.rows@[y]@.len() == self.width
    }

    /// A `width` by `height` grid whose cells all hold the default colour.
    pub fn new(width: u32, height: u32) -> (r: GridStore)
        ensures
            r@ == GridView::blank(width as nat, height as nat),
            r@.well_formed(),
    {
        let rows = blank_rows(width, height);
        let r = GridStore { width, height, rows };
        let ghost blank = GridView::blank(width as nat, height as nat);
        assert forall|y: int| 0 <= y < height implies #[trigger] r@.cells[y] =~= blank.cells[y] by {
            assert(r@.cells[y] == rows@[y]@.map_values(|c: String| c@));
        }
        assert(r@.cells =~= blank.cells);
        r
    }

    /// A full copy of the grid.
    pub fn make_canvas_response(&self) -> (r: CanvasResponse)
        ensures
            r.width == self@.width,
            r.height == self@.height,
            rows_view(&r.pixels) == self@.cells,
    {
        let pixels = self.rows.clone();
        assert(rows_view(&pixels) =~= rows_view(&self.rows));
        CanvasResponse { width: self.width, height: self.height, pixels }
    }

    /// Sets cell `(x, y)` to `color`, or fails with `OutOfBounds` and
    /// changes nothing.
    pub fn set_cell(&mut self, x: u32, y: u32, color: String) -> (r: Result<(), CanvasError>)
        ensures
            old(self)@.in_bounds(x as int, y as int) ==> r is Ok && final(self)@ == old(
                self,
            )@.set_cell(x as int, y as int, color@),
            !old(self)@.in_bounds(x as int, y as int) ==> r == Err::<(), CanvasError>(
                CanvasError::OutOfBounds,
            ) && final(self)@ == old(self)@,
            final(self)@.well_formed(),
    {
        proof {
            use_type_invariant(&*self);
        }
        if x >= self.width || y >= self.height {
            return Err(CanvasError::OutOfBounds);
        }
        write_cell(&mut self.rows, x as usize, y as usize, color);
        Ok(())
    }

    /// Sets every cell back to the default colour; the dimensions stay.
    pub fn reset(&mut self)
        ensures
            final(self)@ == GridView::blank(old(self)@.width, old(self)@.height),
            final(self)@.well_formed(),
    {
        let rows = blank_rows(self.width, self.height);
        self.rows = rows;
        let ghost blank = GridView::blank(self.width as nat, self.height as nat);
        assert forall|y: int| 0 <= y < self.height implies #[trigger] self@.cells[y]
            =~= blank.cells[y] by {
            assert(self@.cells[y] == self.rows@[y]@.map_values(|c: String| c@));
        }
        assert(self@.cells =~= blank.cells);
    }

    /// A `width` by `height` grid loaded from stored tokens: `stored[y][x]`,
    /// where present, is the colour of `(x, y)`; every other cell is default.
    pub fn load(width: u32, height: u32, stored: &Vec<Vec<Option<String>>>) -> (r: GridStore)
        ensures
            r@.width == width,
            r@.height == height,
            r@.well_formed(),
            forall|x: int, y: int|
                r@.in_bounds(x, y) ==> #[trigger] r@.cell(x, y) == stored_color(
                    stored_view(stored),
                    x,
                    y,
                ),
    {
        let mut rows: Vec<Vec<String>> = Vec::new();
        let mut y: u32 = 0;
        while y < height
            invariant
                y <= height,
                rows@.len() == y,
                forall|j: int| 0 <= j < y ==> #[trigger] rows@[j]@.len() == width,
                forall|j: int, x: int|
                    0 <= j < y && 0 <= x < width ==> #[trigger] rows@[j]@[x]@ == stored_color(
                        stored_view(stored),
                        x,
                        j,
                    ),
            decreases height - y,
        {
            let mut row: Vec<String> = Vec::new();
            let mut x: u32 = 0;
            while x < width
                invariant
                    x <= width,
                    y < height,
                    row@.len() == x,
                    forall|i: int|
                        0 <= i < x ==> #[trigger] row@[i]@ == stored_color(
                            stored_view(stored),
                            i,
                            y as int,
                        ),
                decreases width - x,
            {
                row.push(stored_token(stored, x as usize, y as usize));
                x = x + 1;
            }
            rows.push(row);
            y = y + 1;
        }
        let r = GridStore { width, height, rows };
        assert forall|j: int| 0 <= j < height implies #[trigger] r@.cells[j].len() == width by {
            assert(r@.cells[j] == rows@[j]@.map_values(|c: String| c@));
        }
        assert forall|x: int, j: int| r@.in_bounds(x, j) implies #[trigger] r@.cell(x, j)
            == stored_color(stored_view(stored), x, j) by {
            assert(r@.cells[j] == rows@[j]@.map_values(|c: String| c@));
        }
        r
    }

    /// The colour of cell `(x, y)`.
    pub fn cell(&self, x: u32, y: u32) -> (r: &String)
        requires
            self@.in_bounds(x as int, y as int),
        ensures
            r@ == self@.cell(x as int, y as int),
    {
        proof {
            use_type_invariant(self);
        }
        &self.rows[y as usize][x as usize]
    }

    pub fn width(&self) -> (r: u32)
        ensures
            r == self@.width,
    {
        self.width
    }

    pub fn height(&self) -> (r: u32)
        ensures
            r == self@.height,
    {
        self.height
    }
}

fn write_cell(rows: &mut Vec<Vec<String>>, x: usize, y: usize, color: String)
    requires
        y < old(rows)@.len(),
        x < old(rows)@[y as int]@.len(),
    ensures
        final(rows)@.len() == old(rows)@.len(),
        forall|j: int|
            0 <= j < final(rows)@.len() && j != y ==> #[trigger] final(rows)@[j] == old(rows)@[j],
        final(rows)@[y as int]@ == old(rows)@[y as int]@.update(x as int, color),
        rows_view(final(rows)) == rows_view(old(rows)).update(
            y as int,
            rows_view(old(rows))[y as int].update(x as int, color@),
        ),
    no_unwind
{
    rows[y][x] = color;
    assert(rows_view(rows)[y as int] =~= rows_view(old(rows))[y as int].update(x as int, color@));
    assert(rows_view(rows) =~= rows_view(old(rows)).update(
        y as int,
        rows_view(old(rows))[y as int].update(x as int, color@),
    ));
}

fn stored_token(stored: &Vec<Vec<Option<String>>>, x: usize, y: usize) -> (r: String)
    ensures
        r@ == stored_color(stored_view(stored), x as int, y as int),
{
    if y < stored.len() && x < stored[y].len() {
        match &stored[y][x] {
            Some(c) => {
                return c.clone();
            },
            None => {},
        }
    }
    default_token()
}

fn default_token() -> (r: String)
    ensures
        r@ == default_color(),
{
    DEFAULT_COLOR.to_string()
}

fn blank_rows(width: u32, height: u32) -> (rows: Vec<Vec<String>>)
    ensures
        rows@.len() == height,
        forall|y: int| 0 <= y < height ==> #[trigger] rows@[y]@.len() == width,
        forall|y: int, x: int|
            0 <= y < height && 0 <= x < width ==> #[trigger] rows@[y]@[x]@ == default_color(),
{
    let mut rows: Vec<Vec<String>> = Vec::new();
    let mut y: u32 = 0;
    while y < height
        invariant
            y <= height,
            rows@.len() == y,
            forall|j: int| 0 <= j < y ==> #[trigger] rows@[j]@.len() == width,
            forall|j: int, x: int|
                0 <= j < y && 0 <= x < width ==> #[trigger] rows@[j]@[x]@ == default_color(),
        decreases height - y,
    {
        let mut row: Vec<String> = Vec::new();
        let mut x: u32 = 0;
        while x < width
            invariant
                x <= width,
                row@.len() == x,
                forall|i: int| 0 <= i < x ==> #[trigger] row@[i]@ == default_color(),
            decreases width - x,
        {
            row.push(default_token());
            x = x + 1;
        }
        rows.push(row);
        y = y + 1;
    }
    rows
}

} // verus!
