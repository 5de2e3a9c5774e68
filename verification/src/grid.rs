//! The cell grid: a bounded double-ended sequence of rows holding scrolled-off
//! history followed by the visible viewport, together with the live cursor
//! and the saved-cursor slot.

use vstd::prelude::*;

use crate::cell::Cell;
use crate::cursor::Cursor;

verus! {

/// Mathematical model of a row: its cells and the high-water mark column
/// used for reflow bookkeeping.
pub struct RowV {
    pub cells: Seq<Cell>,
    pub high_water: int,
}

impl RowV {
    /// A row is well formed for a column capacity when it holds exactly that
    /// many well-formed cells and its high-water mark stays in bounds.
    pub open spec fn wf(self, max_col: int) -> bool {
        &&& self.cells.len() == max_col
        &&& 0 <= self.high_water <= max_col
        &&& forall|j: int| 0 <= j < self.cells.len() ==> (#[trigger] self.cells[j]).wf()
    }

    /// A freshly created row: blank cells, empty high-water mark.
    pub open spec fn blank(max_col: int) -> RowV {
        RowV { cells: Seq::new(max_col as nat, |j: int| Cell::blank_spec()), high_water: 0 }
    }
}

/// An ordered sequence of cells plus a logical high-water mark column.
#[derive(Debug)]
pub struct Row {
    pub cells: Vec<Cell>,
    pub high_water: usize,
}

impl View for Row {
    type V = RowV;

    open spec fn view(&self) -> RowV {
        RowV { cells: self.cells@, high_water: self.high_water as int }
    }
}

impl Row {
    /// Builds a blank row of the given width.
    pub fn blank(max_col: usize) -> (r: Row)
        ensures
            r@ == RowV::blank(max_col as int),
    {
        let mut cells: Vec<Cell> = Vec::new();
        let mut j: usize = 0;
        while j < max_col
            invariant
                j <= max_col,
                cells@.len() == j,
                forall|k: int| 0 <= k < j ==> cells@[k] == Cell::blank_spec(),
            decreases max_col - j,
        {
            cells.push(Cell::blank());
            j = j + 1;
        }
        proof {
            assert(cells@ =~= Seq::new(max_col as nat, |k: int| Cell::blank_spec()));
        }
        Row { cells, high_water: 0 }
    }
}

impl Row {
    /// Reflows this row to a new column capacity, keeping existing cell
    /// content and padding with blank cells; the high-water mark is clamped.
    fn resize_to(&mut self, new_col: usize)
        ensures
            final(self)@ == (RowV {
                cells: resize_cells(old(self)@.cells, new_col as int),
                high_water: if old(self)@.high_water <= new_col as int {
                    old(self)@.high_water
                } else {
                    new_col as int
                },
            }),
    {
        if self.cells.len() > new_col {
            self.cells.truncate(new_col);
        } else {
            let ghost cells0 = self.cells@;
            while self.cells.len() < new_col
                invariant
                    cells0.len() <= self.cells@.len() <= new_col,
                    self.cells@.take(cells0.len() as int) == cells0,
                    forall|j: int|
                        cells0.len() <= j < self.cells@.len() ==> self.cells@[j]
                            == Cell::blank_spec(),
                    self.high_water == old(self).high_water,
                decreases new_col - self.cells@.len(),
            {
                let ghost pre = self.cells@;
                self.cells.push(Cell::blank());
                proof {
                    assert(self.cells@.take(cells0.len() as int) =~= pre.take(
                        cells0.len() as int,
                    ));
                }
            }
        }
        if self.high_water > new_col {
            self.high_water = new_col;
        }
        proof {
            assert forall|j: int| 0 <= j < new_col implies self.cells@[j] == resize_cells(
                old(self)@.cells,
                new_col as int,
            )[j] by {
                if j < old(self)@.cells.len() && old(self)@.cells.len() <= new_col {
                    assert(self.cells@.take(old(self)@.cells.len() as int)[j] == old(
                        self,
                    )@.cells[j]);
                }
            }
            assert(self.cells@ =~= resize_cells(old(self)@.cells, new_col as int));
        }
    }
}

/// A row's cells reflowed to a new column capacity: existing content kept,
/// blank cells padded on the right.
pub open spec fn resize_cells(cells: Seq<Cell>, new_col: int) -> Seq<Cell>
    recommends
        0 <= new_col,
{
    Seq::new(
        new_col as nat,
        |j: int|
            if j < cells.len() {
                cells[j]
            } else {
                Cell::blank_spec()
            },
    )
}

/// A cursor clamped into new capacities, its wrap flag recomputed.
pub open spec fn clamp_cursor(c: Cursor, max_row: int, max_col: int) -> Cursor
    recommends
        1 <= max_row,
        0 <= max_col,
{
    let line = if (c.line as int) < max_row {
        c.line as int
    } else {
        max_row - 1
    };
    let col = if (c.column as int) <= max_col {
        c.column as int
    } else {
        max_col
    };
    Cursor { line: line as usize, column: col as usize, wrap_pending: col == max_col }
}

/// Mathematical model of the grid: history rows followed by the viewport,
/// the capacities, the scrollback position, and the cursors.
pub struct GridV {
    pub rows: Seq<RowV>,
    pub max_row: int,
    pub max_col: int,
    pub history_cap: int,
    pub display_offset: int,
    pub cursor: Cursor,
    pub saved_cursor: Option<Cursor>,
}

impl GridV {
    /// Number of scrolled-off rows retained before the visible viewport.
    pub open spec fn hist(self) -> int {
        self.rows.len() - self.max_row
    }

    /// The viewport row at the given viewport-relative index.
    pub open spec fn visible(self, i: int) -> RowV {
        self.rows[self.hist() + i]
    }

    /// Grid invariant: the viewport always holds exactly `max_row` rows of
    /// exactly `max_col` well-formed cells each, the retained history never
    /// exceeds its bound, the scrollback position addresses the history, and
    /// both cursors address viewport positions.
    pub open spec fn wf(self) -> bool {
        &&& 1 <= self.max_row <= 0x0fff_ffff
        &&& 1 <= self.max_col <= 0x0fff_ffff
        &&& 0 <= self.history_cap
        &&& self.rows.len() >= self.max_row
        &&& self.hist() <= self.history_cap
        &&& 0 <= self.display_offset <= self.hist()
        &&& forall|i: int|
            0 <= i < self.rows.len() ==> (#[trigger] self.rows[i]).wf(self.max_col)
        &&& self.cursor.wf(self.max_row, self.max_col)
        &&& match self.saved_cursor {
            Some(c) => c.wf(self.max_row, self.max_col),
            None => true,
        }
    }

    /// A fresh grid: a blank viewport, no history, both cursors home.
    pub open spec fn fresh(max_row: int, max_col: int, history_cap: int) -> GridV {
        GridV {
            rows: Seq::new(max_row as nat, |i: int| RowV::blank(max_col)),
            max_row: max_row,
            max_col: max_col,
            history_cap: history_cap,
            display_offset: 0,
            cursor: Cursor::home_spec(),
            saved_cursor: None,
        }
    }

    /// Scrolling: a blank row enters at the bottom, the top visible row
    /// moves into history, and when the history bound is exceeded the oldest
    /// history row is evicted.
    pub open spec fn scroll(self) -> GridV {
        let grown = self.rows.push(RowV::blank(self.max_col));
        if self.hist() + 1 > self.history_cap {
            GridV { rows: grown.skip(1), ..self }
        } else {
            GridV { rows: grown, ..self }
        }
    }

    /// Moving the cursor down one line: past the bottom row this scrolls
    /// instead, keeping the cursor on the bottom row.
    pub open spec fn cursor_down(self) -> GridV {
        if self.cursor.line + 1 < self.max_row {
            GridV {
                cursor: Cursor { line: (self.cursor.line + 1) as usize, ..self.cursor },
                ..self
            }
        } else {
            self.scroll()
        }
    }

    /// Returning the cursor to column 0 of its line.
    pub open spec fn carriage(self) -> GridV {
        GridV { cursor: Cursor { column: 0, wrap_pending: false, ..self.cursor }, ..self }
    }

    /// Moving the cursor up one line, clamped at the top row. Decrementing
    /// past row 0 is deliberately a no-op rather than an underflow: the
    /// reverse-index opcode must clamp, never wrap.
    pub open spec fn reverse_index(self) -> GridV {
        if self.cursor.line > 0 {
            GridV {
                cursor: Cursor { line: (self.cursor.line - 1) as usize, ..self.cursor },
                ..self
            }
        } else {
            self
        }
    }

    /// Snapshotting the cursor into the saved-cursor slot.
    pub open spec fn save_cursor(self) -> GridV {
        GridV { saved_cursor: Some(self.cursor), ..self }
    }

    /// Restoring the cursor from the saved-cursor slot, consuming it;
    /// restoring with no saved snapshot is a no-op.
    pub open spec fn restore_cursor(self) -> GridV {
        match self.saved_cursor {
            Some(c) => GridV { cursor: c, saved_cursor: None, ..self },
            None => self,
        }
    }

    /// Writing one cell at the cursor, which must not sit past the last
    /// column: the cell lands at the cursor position, the high-water mark
    /// rises to cover it, and the cursor advances one column.
    pub open spec fn write_cell(self, c: Cell) -> GridV
        recommends
            self.cursor.column < self.max_col,
    {
        let idx = self.hist() + self.cursor.line;
        let col = self.cursor.column as int;
        let row = self.rows[idx];
        let hw = if col + 1 > row.high_water {
            col + 1
        } else {
            row.high_water
        };
        let new_row = RowV { cells: row.cells.update(col, c), high_water: hw };
        GridV {
            rows: self.rows.update(idx, new_row),
            cursor: Cursor {
                column: (col + 1) as usize,
                wrap_pending: col + 1 == self.max_col,
                ..self.cursor
            },
            ..self
        }
    }

    /// Committing one cell: wrap to the start of the next line first when a
    /// wrap is pending, then write at the cursor.
    pub open spec fn insert_cell(self, c: Cell) -> GridV {
        let g = if self.cursor.column == self.max_col {
            self.carriage().cursor_down()
        } else {
            self
        };
        g.write_cell(c)
    }

    /// Committing a batch of cells in order.
    pub open spec fn insert_all(self, data: Seq<Cell>) -> GridV
        decreases data.len(),
    {
        if data.len() == 0 {
            self
        } else {
            self.insert_cell(data.first()).insert_all(data.skip(1))
        }
    }

    /// Reflowing the grid to new capacities: every row is reflowed to the
    /// new width, blank rows are appended when the viewport grows beyond the
    /// retained rows, rows shrunk out of the viewport move into history with
    /// the oldest evicted over the bound, and the cursors and scrollback
    /// position are clamped into the new capacities.
    pub open spec fn resize_spec(self, new_row: int, new_col: int) -> GridV
        recommends
            1 <= new_row,
            1 <= new_col,
    {
        let rows1 = self.rows.map_values(
            |r: RowV|
                RowV {
                    cells: resize_cells(r.cells, new_col),
                    high_water: if r.high_water <= new_col {
                        r.high_water
                    } else {
                        new_col
                    },
                },
        );
        let rows2 = if rows1.len() < new_row {
            rows1 + Seq::new((new_row - rows1.len()) as nat, |i: int| RowV::blank(new_col))
        } else {
            rows1
        };
        let hist2 = rows2.len() - new_row;
        let rows3 = if hist2 > self.history_cap {
            rows2.skip(hist2 - self.history_cap)
        } else {
            rows2
        };
        let hist3 = rows3.len() - new_row;
        GridV {
            rows: rows3,
            max_row: new_row,
            max_col: new_col,
            history_cap: self.history_cap,
            display_offset: if self.display_offset <= hist3 {
                self.display_offset
            } else {
                hist3
            },
            cursor: clamp_cursor(self.cursor, new_row, new_col),
            saved_cursor: match self.saved_cursor {
                Some(c) => Some(clamp_cursor(c, new_row, new_col)),
                None => None,
            },
        }
    }

    /// The scrollback position clamped into the current history.
    pub open spec fn set_display_offset_spec(self, off: int) -> GridV {
        GridV {
            display_offset: if off <= self.hist() {
                off
            } else {
                self.hist()
            },
            ..self
        }
    }
}

/// The cell grid. History rows sit before the viewport in `rows`; the
/// viewport always holds the last `max_row` entries.
#[derive(Debug)]
pub struct Grid {
    pub rows: Vec<Row>,
    pub max_row: usize,
    pub max_col: usize,
    pub history_cap: usize,
    pub display_offset: usize,
    pub cursor: Cursor,
    pub saved_cursor: Option<Cursor>,
}

impl View for Grid {
    type V = GridV;

    open spec fn view(&self) -> GridV {
        GridV {
            rows: self.rows@.map_values(|r: Row| r@),
            max_row: self.max_row as int,
            max_col: self.max_col as int,
            history_cap: self.history_cap as int,
            display_offset: self.display_offset as int,
            cursor: self.cursor,
            saved_cursor: self.saved_cursor,
        }
    }
}

impl Grid {
    /// Builds a fresh grid of the given viewport capacity and history bound.
    pub fn new(max_row: usize, max_col: usize, history_cap: usize) -> (r: Grid)
        requires
            1 <= max_row <= 0x0fff_ffff,
            1 <= max_col <= 0x0fff_ffff,
        ensures
            r@ == GridV::fresh(max_row as int, max_col as int, history_cap as int),
            r@.wf(),
    {
        let mut rows: Vec<Row> = Vec::new();
        let mut i: usize = 0;
        while i < max_row
            invariant
                i <= max_row,
                rows@.len() == i,
                forall|k: int| 0 <= k < i ==> (#[trigger] rows@[k])@ == RowV::blank(max_col as int),
            decreases max_row - i,
        {
            rows.push(Row::blank(max_col));
            i = i + 1;
        }
        let g = Grid {
            rows,
            max_row,
            max_col,
            history_cap,
            display_offset: 0,
            cursor: Cursor::home(),
            saved_cursor: None,
        };
        proof {
            assert(g@.rows =~= GridV::fresh(max_row as int, max_col as int, history_cap as int).rows);
            assert(g@ == GridV::fresh(max_row as int, max_col as int, history_cap as int));
            assert forall|i2: int| 0 <= i2 < g@.rows.len() implies (#[trigger] g@.rows[i2]).wf(
                g@.max_col,
            ) by {
                assert(g@.rows[i2] == RowV::blank(max_col as int));
            }
        }
        g
    }

    /// Number of retained history rows.
    pub fn history_len(&self) -> (r: usize)
        requires
            self@.wf(),
        ensures
            r as int == self@.hist(),
    {
        self.rows.len() - self.max_row
    }

    /// Read access to the viewport row at the given viewport-relative index.
    pub fn row(&self, i: usize) -> (r: &Row)
        requires
            self@.wf(),
            i < self@.max_row,
        ensures
            r@ == self@.visible(i as int),
    {
        let hist = self.rows.len() - self.max_row;
        &self.rows[hist + i]
    }

    /// Scrolls the viewport up one row, evicting the oldest history row when
    /// the history bound would be exceeded.
    pub fn scroll_up(&mut self)
        requires
            old(self)@.wf(),
        ensures
            final(self)@ == old(self)@.scroll(),
            final(self)@.wf(),
    {
        proof {
            lemma_blank_row_wf(self.max_col as int);
        }
        self.rows.push(Row::blank(self.max_col));
        if self.rows.len() - self.max_row > self.history_cap {
            let _ = self.rows.remove(0);
            proof {
                assert(self@.rows =~= old(self)@.scroll().rows);
            }
        } else {
            proof {
                assert(self@.rows =~= old(self)@.scroll().rows);
            }
        }
    }

    /// Moves the cursor down one line, scrolling at the bottom row.
    pub fn cursor_down(&mut self)
        requires
            old(self)@.wf(),
        ensures
            final(self)@ == old(self)@.cursor_down(),
            final(self)@.wf(),
    {
        if self.cursor.line + 1 < self.max_row {
            self.cursor.line = self.cursor.line + 1;
        } else {
            self.scroll_up();
        }
    }

    /// Returns the cursor to column 0 of its line.
    pub fn carriage_return(&mut self)
        requires
            old(self)@.wf(),
        ensures
            final(self)@ == old(self)@.carriage(),
            final(self)@.wf(),
    {
        self.cursor.column = 0;
        self.cursor.wrap_pending = false;
    }

    /// Moves the cursor up one line, clamped at the top row.
    pub fn reverse_index(&mut self)
        requires
            old(self)@.wf(),
        ensures
            final(self)@ == old(self)@.reverse_index(),
            final(self)@.wf(),
    {
        if self.cursor.line > 0 {
            self.cursor.line = self.cursor.line - 1;
        }
    }

    /// Snapshots the cursor into the saved-cursor slot.
    pub fn save_cursor(&mut self)
        requires
            old(self)@.wf(),
        ensures
            final(self)@ == old(self)@.save_cursor(),
            final(self)@.wf(),
    {
        self.saved_cursor = Some(self.cursor);
    }

    /// Restores the cursor from the saved-cursor slot, consuming it; a
    /// no-op when nothing was saved.
    pub fn restore_cursor(&mut self)
        requires
            old(self)@.wf(),
        ensures
            final(self)@ == old(self)@.restore_cursor(),
            final(self)@.wf(),
    {
        match self.saved_cursor {
            Some(c) => {
                self.cursor = c;
                self.saved_cursor = None;
            },
            None => {},
        }
    }

    /// Writes one cell at the cursor and advances it one column.
    fn write_cell(&mut self, c: Cell)
        requires
            old(self)@.wf(),
            c.wf(),
            old(self)@.cursor.column < old(self)@.max_col,
        ensures
            final(self)@ == old(self)@.write_cell(c),
            final(self)@.wf(),
    {
        let hist = self.rows.len() - self.max_row;
        let idx = hist + self.cursor.line;
        let col = self.cursor.column;
        let row = &mut self.rows[idx];
        row.cells[col] = c;
        if col + 1 > row.high_water {
            row.high_water = col + 1;
        }
        self.cursor.column = col + 1;
        self.cursor.wrap_pending = col + 1 == self.max_col;
        proof {
            assert(self@.rows =~= old(self)@.write_cell(c).rows);
        }
    }

    /// Commits one cell at the cursor, wrapping to the start of the next
    /// line first when the cursor sits past the last column.
    pub fn insert_cell(&mut self, c: Cell)
        requires
            old(self)@.wf(),
            c.wf(),
        ensures
            final(self)@ == old(self)@.insert_cell(c),
            final(self)@.wf(),
    {
        if self.cursor.column == self.max_col {
            self.carriage_return();
            self.cursor_down();
        }
        self.write_cell(c);
    }

    /// Commits a batch of cells in order, starting at the cursor position,
    /// advancing it, wrapping to the next row when the column capacity is
    /// exceeded and scrolling past the bottom row.
    pub fn input_insert(&mut self, data: Vec<Cell>)
        requires
            old(self)@.wf(),
            forall|k: int| 0 <= k < data@.len() ==> (#[trigger] data@[k]).wf(),
        ensures
            final(self)@ == old(self)@.insert_all(data@),
            final(self)@.wf(),
    {
        let ghost orig = data@;
        let ghost g0 = self@;
        let mut data = data;
        while data.len() > 0
            invariant
                self@.wf(),
                data@.len() <= orig.len(),
                self@ == g0.insert_all(orig.take(orig.len() - data@.len())),
                orig.skip(orig.len() - data@.len()) == data@,
                forall|k: int| 0 <= k < data@.len() ==> (#[trigger] data@[k]).wf(),
            decreases data@.len(),
        {
            let ghost i: int = orig.len() - data@.len();
            let c = data.remove(0);
            proof {
                assert(orig.skip(i)[0] == orig[i]);
                assert(c == orig[i]);
                assert(orig.skip(i).remove(0) =~= orig.skip(i + 1));
            }
            self.insert_cell(c);
            proof {
                lemma_insert_all_snoc(g0, orig.take(i), orig[i]);
                assert(orig.take(i + 1) =~= orig.take(i).push(orig[i]));
            }
        }
        proof {
            assert(orig.take(orig.len() as int) =~= orig);
        }
    }
}

impl Grid {
    /// Reflows the grid to new capacities, keeping existing cell content.
    /// Runs between two fully-committed states: callers flush the write
    /// queue first.
    #[verifier::rlimit(100)]
    pub fn resize(&mut self, new_row: usize, new_col: usize)
        requires
            old(self)@.wf(),
            1 <= new_row <= 0x0fff_ffff,
            1 <= new_col <= 0x0fff_ffff,
        ensures
            final(self)@ == old(self)@.resize_spec(new_row as int, new_col as int),
            final(self)@.wf(),
    {
        let ghost g0 = self@;
        let mut i: usize = 0;
        let n = self.rows.len();
        while i < n
            invariant
                n == self.rows@.len(),
                n == g0.rows.len(),
                i <= n,
                forall|t: int|
                    0 <= t < i ==> (#[trigger] self@.rows[t]) == (RowV {
                        cells: resize_cells(g0.rows[t].cells, new_col as int),
                        high_water: if g0.rows[t].high_water <= new_col as int {
                            g0.rows[t].high_water
                        } else {
                            new_col as int
                        },
                    }),
                forall|t: int| i <= t < n ==> (#[trigger] self@.rows[t]) == g0.rows[t],
                self.max_row == g0.max_row,
                self.max_col == g0.max_col,
                self.history_cap == g0.history_cap,
                self.display_offset == g0.display_offset,
                self.cursor == g0.cursor,
                self.saved_cursor == g0.saved_cursor,
            decreases n - i,
        {
            let ghost pre_rows = self@.rows;
            proof {
                assert(pre_rows[i as int] == g0.rows[i as int]);
            }
            self.rows[i].resize_to(new_col);
            proof {
                assert(self@.rows =~= pre_rows.update(i as int, self@.rows[i as int]));
                assert(self@.rows[i as int] == (RowV {
                    cells: resize_cells(g0.rows[i as int].cells, new_col as int),
                    high_water: if g0.rows[i as int].high_water <= new_col as int {
                        g0.rows[i as int].high_water
                    } else {
                        new_col as int
                    },
                }));
            }
            i = i + 1;
        }
        let ghost rows_a = self@.rows;
        proof {
            assert(rows_a =~= g0.rows.map_values(
                |r: RowV|
                    RowV {
                        cells: resize_cells(r.cells, new_col as int),
                        high_water: if r.high_water <= new_col as int {
                            r.high_water
                        } else {
                            new_col as int
                        },
                    },
            ));
        }
        while self.rows.len() < new_row
            invariant
                rows_a.len() <= self.rows@.len(),
                self.rows@.len() <= new_row || self.rows@.len() == rows_a.len(),
                self@.rows.take(rows_a.len() as int) == rows_a,
                forall|t: int|
                    rows_a.len() <= t < self.rows@.len() ==> (#[trigger] self@.rows[t])
                        == RowV::blank(new_col as int),
                self.max_row == g0.max_row,
                self.max_col == g0.max_col,
                self.history_cap == g0.history_cap,
                self.display_offset == g0.display_offset,
                self.cursor == g0.cursor,
                self.saved_cursor == g0.saved_cursor,
            decreases new_row - self.rows@.len(),
        {
            let ghost pre = self@.rows;
            self.rows.push(Row::blank(new_col));
            proof {
                assert(self@.rows =~= pre.push(RowV::blank(new_col as int)));
                assert(self@.rows.take(rows_a.len() as int) =~= pre.take(rows_a.len() as int));
            }
        }
        let ghost rows_b = self@.rows;
        proof {
            let grown = if rows_a.len() < new_row {
                rows_a + Seq::new(
                    (new_row - rows_a.len()) as nat,
                    |t: int| RowV::blank(new_col as int),
                )
            } else {
                rows_a
            };
            assert(rows_b =~= grown);
            assert(rows_b.skip(0) =~= rows_b);
        }
        while self.rows.len() - new_row > self.history_cap
            invariant
                rows_b.len() >= new_row,
                new_row <= self.rows@.len(),
                exists|t: int|
                    {
                        &&& 0 <= t <= rows_b.len() - new_row
                        &&& self@.rows == #[trigger] rows_b.skip(t)
                        &&& (t == 0 || rows_b.len() - t - new_row >= self.history_cap as int)
                    },
                self.max_row == g0.max_row,
                self.max_col == g0.max_col,
                self.history_cap == g0.history_cap,
                self.display_offset == g0.display_offset,
                self.cursor == g0.cursor,
                self.saved_cursor == g0.saved_cursor,
            decreases self.rows@.len(),
        {
            let ghost pre = self@.rows;
            let ghost t0 = choose|t: int|
                {
                    &&& 0 <= t <= rows_b.len() - new_row
                    &&& pre == #[trigger] rows_b.skip(t)
                    &&& (t == 0 || rows_b.len() - t - new_row >= self.history_cap as int)
                };
            let ghost pre_vec = self.rows@;
            let _ = self.rows.remove(0);
            proof {
                assert(pre == rows_b.skip(t0));
                assert(self.rows@ == pre_vec.remove(0));
                pre_vec.remove_ensures(0);
                vstd::seq_lib::lemma_seq_skip_len(rows_b, t0);
                vstd::seq_lib::lemma_seq_skip_len(rows_b, t0 + 1);
                assert(pre.len() == rows_b.len() - t0);
                assert(self@.rows.len() == rows_b.skip(t0 + 1).len());
                assert forall|j: int| 0 <= j < self@.rows.len() implies self@.rows[j] == rows_b.skip(
                    t0 + 1,
                )[j] by {
                    assert(self.rows@[j] == pre_vec[j + 1]);
                    assert(self@.rows[j] == pre[j + 1]);
                    vstd::seq_lib::lemma_seq_skip_index(rows_b, t0, j + 1);
                    assert(pre[j + 1] == rows_b[t0 + 1 + j]);
                    vstd::seq_lib::lemma_seq_skip_index(rows_b, t0 + 1, j);
                    assert(rows_b.skip(t0 + 1)[j] == rows_b[t0 + 1 + j]);
                }
                assert(self@.rows =~= rows_b.skip(t0 + 1));
            }
        }
        self.max_row = new_row;
        self.max_col = new_col;
        self.cursor = clamp_cursor_exec(self.cursor, new_row, new_col);
        self.saved_cursor = match self.saved_cursor {
            Some(c) => Some(clamp_cursor_exec(c, new_row, new_col)),
            None => None,
        };
        let hist = self.rows.len() - self.max_row;
        if self.display_offset > hist {
            self.display_offset = hist;
        }
        proof {
            let t0 = choose|t: int|
                {
                    &&& 0 <= t <= rows_b.len() - new_row
                    &&& self@.rows == #[trigger] rows_b.skip(t)
                    &&& (t == 0 || rows_b.len() - t - new_row >= g0.history_cap)
                };
            if rows_b.len() - new_row > g0.history_cap {
                assert(t0 == rows_b.len() - new_row - g0.history_cap);
            } else {
                assert(t0 == 0);
                assert(rows_b.skip(0) =~= rows_b);
            }
            lemma_resize_finish(g0, self@, new_row as int, new_col as int, rows_b);
        }
    }

    /// Sets the scrollback position, clamped into the current history.
    pub fn set_display_offset(&mut self, off: usize)
        requires
            old(self)@.wf(),
        ensures
            final(self)@ == old(self)@.set_display_offset_spec(off as int),
            final(self)@.wf(),
    {
        let hist = self.rows.len() - self.max_row;
        self.display_offset = if off <= hist {
            off
        } else {
            hist
        };
    }
}

/// Clamps a cursor into new capacities.
fn clamp_cursor_exec(c: Cursor, max_row: usize, max_col: usize) -> (r: Cursor)
    requires
        1 <= max_row,
    ensures
        r == clamp_cursor(c, max_row as int, max_col as int),
{
    let line = if c.line < max_row {
        c.line
    } else {
        max_row - 1
    };
    let col = if c.column <= max_col {
        c.column
    } else {
        max_col
    };
    Cursor { line, column: col, wrap_pending: col == max_col }
}

/// Ties the three reflow passes together: a grid whose rows are the grown,
/// evicted reflow of the original, with capacities and cursors clamped, is
/// the resize of the original, and satisfies the grid invariant.
proof fn lemma_resize_finish(g0: GridV, g1: GridV, new_row: int, new_col: int, rows_b: Seq<RowV>)
    requires
        g0.wf(),
        1 <= new_row <= 0x0fff_ffff,
        1 <= new_col <= 0x0fff_ffff,
        rows_b == ({
            let rows1 = g0.rows.map_values(
                |r: RowV|
                    RowV {
                        cells: resize_cells(r.cells, new_col),
                        high_water: if r.high_water <= new_col {
                            r.high_water
                        } else {
                            new_col
                        },
                    },
            );
            if rows1.len() < new_row {
                rows1 + Seq::new((new_row - rows1.len()) as nat, |i: int| RowV::blank(new_col))
            } else {
                rows1
            }
        }),
        g1.rows == (if rows_b.len() - new_row > g0.history_cap {
            rows_b.skip(rows_b.len() - new_row - g0.history_cap)
        } else {
            rows_b
        }),
        g1.max_row == new_row,
        g1.max_col == new_col,
        g1.history_cap == g0.history_cap,
        g1.cursor == clamp_cursor(g0.cursor, new_row, new_col),
        g1.saved_cursor == (match g0.saved_cursor {
            Some(c) => Some(clamp_cursor(c, new_row, new_col)),
            None => None,
        }),
        g1.display_offset == (if g0.display_offset <= g1.rows.len() - new_row {
            g0.display_offset as int
        } else {
            g1.rows.len() - new_row
        }),
    ensures
        g1 == g0.resize_spec(new_row, new_col),
        g1.wf(),
{
    let spec = g0.resize_spec(new_row, new_col);
    assert(g1.rows =~= spec.rows);
    assert(g1 == spec);
    assert forall|i: int| 0 <= i < g1.rows.len() implies (#[trigger] g1.rows[i]).wf(new_col) by {
        let hist2 = rows_b.len() - new_row;
        let base: int = if hist2 > g0.history_cap {
            hist2 - g0.history_cap
        } else {
            0
        };
        assert(g1.rows[i] == rows_b[base + i]);
        if base + i < g0.rows.len() {
            assert(g0.rows[base + i].wf(g0.max_col));
            assert forall|j: int| 0 <= j < g1.rows[i].cells.len() implies (#[trigger] g1.rows[i].cells[j]).wf() by {
                if j < g0.rows[base + i].cells.len() {
                    assert(g0.rows[base + i].cells[j].wf());
                }
            }
        } else {
            assert(rows_b[base + i] == RowV::blank(new_col));
            lemma_blank_row_wf(new_col);
        }
    }
}

/// A blank row is well formed for its own width.\n\n/// A blank row is well formed for its own width.
pub proof fn lemma_blank_row_wf(max_col: int)
    requires
        max_col >= 0,
    ensures
        RowV::blank(max_col).wf(max_col),
{
}

/// Scrolling preserves the grid invariant: the history never grows past its
/// bound, and when it would, the oldest history row is the one evicted.
pub proof fn lemma_scroll_wf(g: GridV)
    requires
        g.wf(),
    ensures
        g.scroll().wf(),
        g.scroll().max_row == g.max_row,
        g.scroll().max_col == g.max_col,
        g.scroll().history_cap == g.history_cap,
        g.scroll().cursor == g.cursor,
        g.hist() < g.history_cap ==> g.scroll().rows == g.rows.push(RowV::blank(g.max_col))
            && g.scroll().hist() == g.hist() + 1,
        g.hist() >= g.history_cap ==> g.scroll().rows == g.rows.push(RowV::blank(g.max_col)).skip(1)
            && g.scroll().hist() == g.hist(),
{
    lemma_blank_row_wf(g.max_col);
    let g2 = g.scroll();
    let grown = g.rows.push(RowV::blank(g.max_col));
    if g.hist() + 1 > g.history_cap {
        vstd::seq_lib::lemma_seq_skip_len(grown, 1);
        assert forall|i: int| 0 <= i < g2.rows.len() implies (#[trigger] g2.rows[i]).wf(
            g2.max_col,
        ) by {
            vstd::seq_lib::lemma_seq_skip_index(grown, 1, i);
            assert(g2.rows[i] == grown[i + 1]);
        }
    } else {
        assert forall|i: int| 0 <= i < g2.rows.len() implies (#[trigger] g2.rows[i]).wf(
            g2.max_col,
        ) by {
            assert(g2.rows[i] == grown[i]);
        }
    }
}

/// Moving the cursor down preserves the grid invariant.
pub proof fn lemma_cursor_down_wf(g: GridV)
    requires
        g.wf(),
    ensures
        g.cursor_down().wf(),
        g.cursor_down().max_row == g.max_row,
        g.cursor_down().max_col == g.max_col,
        g.cursor_down().cursor.column == g.cursor.column,
        g.cursor_down().cursor.wrap_pending == g.cursor.wrap_pending,
{
    if g.cursor.line + 1 < g.max_row {
    } else {
        lemma_scroll_wf(g);
    }
}

/// Writing one cell at an in-bounds cursor preserves the grid invariant,
/// stores exactly the given cell at the cursor position, and leaves every
/// other cell of the grid unchanged.
pub proof fn lemma_write_cell_wf(g: GridV, c: Cell)
    requires
        g.wf(),
        c.wf(),
        g.cursor.column < g.max_col,
    ensures
        ({
            let g2 = g.write_cell(c);
            let idx = g.hist() + g.cursor.line;
            &&& g2.wf()
            &&& g2.rows.len() == g.rows.len()
            &&& g2.max_row == g.max_row
            &&& g2.max_col == g.max_col
            &&& g2.history_cap == g.history_cap
            &&& g2.display_offset == g.display_offset
            &&& g2.saved_cursor == g.saved_cursor
            &&& g2.cursor.line == g.cursor.line
            &&& g2.cursor.column == g.cursor.column + 1
            &&& forall|r: int| 0 <= r < g.rows.len() && r != idx ==> #[trigger] g2.rows[r] == g.rows[r]
            &&& g2.rows[idx].cells[g.cursor.column as int] == c
            &&& forall|j: int|
                0 <= j < g.max_col && j != g.cursor.column as int ==> #[trigger] g2.rows[idx].cells[j]
                    == g.rows[idx].cells[j]
        }),
{
    let g2 = g.write_cell(c);
    let idx = g.hist() + g.cursor.line;
    assert(g.rows[idx].wf(g.max_col));
    assert forall|i: int| 0 <= i < g2.rows.len() implies (#[trigger] g2.rows[i]).wf(g2.max_col) by {
        if i == idx {
            assert forall|j: int| 0 <= j < g2.rows[i].cells.len() implies (#[trigger] g2.rows[i].cells[j]).wf() by {
                if j != g.cursor.column as int {
                    assert(g2.rows[i].cells[j] == g.rows[idx].cells[j]);
                }
            }
        } else {
            assert(g2.rows[i] == g.rows[i]);
        }
    }
}

/// Committing one cell preserves the grid invariant.
pub proof fn lemma_insert_cell_wf(g: GridV, c: Cell)
    requires
        g.wf(),
        c.wf(),
    ensures
        g.insert_cell(c).wf(),
        g.insert_cell(c).max_row == g.max_row,
        g.insert_cell(c).max_col == g.max_col,
        g.insert_cell(c).history_cap == g.history_cap,
{
    if g.cursor.column == g.max_col {
        let g1 = g.carriage();
        assert(g1.wf());
        lemma_cursor_down_wf(g1);
        lemma_write_cell_wf(g1.cursor_down(), c);
    } else {
        lemma_write_cell_wf(g, c);
    }
}

/// Committing a batch of well-formed cells preserves the grid invariant; in
/// particular the retained history never exceeds its configured bound,
/// however many rows the batch scrolls off.
pub proof fn lemma_insert_all_wf(g: GridV, data: Seq<Cell>)
    requires
        g.wf(),
        forall|k: int| 0 <= k < data.len() ==> (#[trigger] data[k]).wf(),
    ensures
        g.insert_all(data).wf(),
        g.insert_all(data).max_row == g.max_row,
        g.insert_all(data).max_col == g.max_col,
        g.insert_all(data).history_cap == g.history_cap,
    decreases data.len(),
{
    if data.len() > 0 {
        lemma_insert_cell_wf(g, data.first());
        lemma_insert_all_wf(g.insert_cell(data.first()), data.skip(1));
    }
}

/// Committing a batch that fits in the cursor's row without wrapping writes
/// the batch, cell for cell and unchanged, into that row starting at the
/// cursor column; every other cell of the grid is untouched, and the cursor
/// advances by the batch's length.
pub proof fn lemma_insert_all_no_wrap(g: GridV, data: Seq<Cell>)
    requires
        g.wf(),
        forall|k: int| 0 <= k < data.len() ==> (#[trigger] data[k]).wf(),
        g.cursor.column + data.len() <= g.max_col,
    ensures
        ({
            let g2 = g.insert_all(data);
            let idx = g.hist() + g.cursor.line;
            &&& g2.wf()
            &&& g2.rows.len() == g.rows.len()
            &&& g2.max_row == g.max_row
            &&& g2.max_col == g.max_col
            &&& g2.history_cap == g.history_cap
            &&& g2.display_offset == g.display_offset
            &&& g2.saved_cursor == g.saved_cursor
            &&& g2.cursor.line == g.cursor.line
            &&& g2.cursor.column == g.cursor.column + data.len()
            &&& forall|r: int| 0 <= r < g.rows.len() && r != idx ==> #[trigger] g2.rows[r] == g.rows[r]
            &&& forall|j: int|
                0 <= j < g.max_col && !(g.cursor.column <= j < g.cursor.column + data.len())
                    ==> #[trigger] g2.rows[idx].cells[j] == g.rows[idx].cells[j]
            &&& forall|k: int|
                0 <= k < data.len() ==> #[trigger] g2.rows[idx].cells[g.cursor.column + k]
                    == data[k]
        }),
    decreases data.len(),
{
    if data.len() > 0 {
        let c = data.first();
        assert(g.cursor.column < g.max_col);
        let g1 = g.insert_cell(c);
        assert(g1 == g.write_cell(c));
        lemma_write_cell_wf(g, c);
        lemma_insert_all_no_wrap(g1, data.skip(1));
        let g2 = g.insert_all(data);
        let idx = g.hist() + g.cursor.line;
        assert(g2 == g1.insert_all(data.skip(1)));
        assert forall|k: int| 0 <= k < data.len() implies #[trigger] g2.rows[idx].cells[g.cursor.column
            + k] == data[k] by {
            if k == 0 {
                assert(g2.rows[idx].cells[g1.cursor.column - 1] == g1.rows[idx].cells[g1.cursor.column - 1]);
                assert(g1.rows[idx].cells[g.cursor.column as int] == c);
            } else {
                assert(g2.rows[idx].cells[g1.cursor.column + (k - 1)] == data.skip(1)[k - 1]);
            }
        }
        assert forall|j: int|
            0 <= j < g.max_col && !(g.cursor.column <= j < g.cursor.column + data.len())
                implies #[trigger] g2.rows[idx].cells[j] == g.rows[idx].cells[j] by {
            assert(g2.rows[idx].cells[j] == g1.rows[idx].cells[j]);
            assert(g1.rows[idx].cells[j] == g.rows[idx].cells[j]);
        }
    }
}

/// Every cell of `g2` is accounted for: blank, carried over from `g`, or
/// one of the cells of `data`. Committing never invents or alters cell
/// values.
pub open spec fn cells_covered_by(g2: GridV, g: GridV, data: Seq<Cell>) -> bool {
    forall|r: int, j: int|
        0 <= r < g2.rows.len() && 0 <= j < g2.rows[r].cells.len() ==> {
            ||| (#[trigger] g2.rows[r].cells[j]) == Cell::blank_spec()
            ||| data.contains(g2.rows[r].cells[j])
            ||| exists|r2: int, j2: int|
                0 <= r2 < g.rows.len() && 0 <= j2 < g.rows[r2].cells.len()
                    && #[trigger] g.rows[r2].cells[j2] == g2.rows[r].cells[j]
        }
}

/// Every cell of `g2` is blank or carried over from `g`: the data-free form
/// of coverage, as cursor motion and scrolling leave it.
pub open spec fn rows_carried_from(g2: GridV, g: GridV) -> bool {
    forall|r: int, j: int|
        0 <= r < g2.rows.len() && 0 <= j < g2.rows[r].cells.len() ==> {
            ||| (#[trigger] g2.rows[r].cells[j]) == Cell::blank_spec()
            ||| exists|r2: int, j2: int|
                0 <= r2 < g.rows.len() && 0 <= j2 < g.rows[r2].cells.len()
                    && #[trigger] g.rows[r2].cells[j2] == g2.rows[r].cells[j]
        }
}

/// A grid carries its own cells.
proof fn lemma_carried_refl(g: GridV)
    ensures
        rows_carried_from(g, g),
{
    assert forall|r: int, j: int|
        0 <= r < g.rows.len() && 0 <= j < g.rows[r].cells.len() implies {
        ||| (#[trigger] g.rows[r].cells[j]) == Cell::blank_spec()
        ||| exists|r2: int, j2: int|
            0 <= r2 < g.rows.len() && 0 <= j2 < g.rows[r2].cells.len()
                && #[trigger] g.rows[r2].cells[j2] == g.rows[r].cells[j]
    } by {
        assert(g.rows[r].cells[j] == g.rows[r].cells[j]);
    }
}

/// Scrolling only drops rows and appends a blank one: every remaining cell
/// is blank or carried over.
proof fn lemma_scroll_carried(g: GridV)
    ensures
        rows_carried_from(g.scroll(), g),
{
    let g2 = g.scroll();
    let grown = g.rows.push(RowV::blank(g.max_col));
    assert forall|r: int, j: int|
        0 <= r < g2.rows.len() && 0 <= j < g2.rows[r].cells.len() implies {
        ||| (#[trigger] g2.rows[r].cells[j]) == Cell::blank_spec()
        ||| exists|r2: int, j2: int|
            0 <= r2 < g.rows.len() && 0 <= j2 < g.rows[r2].cells.len()
                && #[trigger] g.rows[r2].cells[j2] == g2.rows[r].cells[j]
    } by {
        if g.hist() + 1 > g.history_cap {
            vstd::seq_lib::lemma_seq_skip_index(grown, 1, r);
            assert(g2.rows[r] == grown[r + 1]);
            if r + 1 < g.rows.len() {
                assert(g.rows[r + 1].cells[j] == g2.rows[r].cells[j]);
            }
        } else {
            if r < g.rows.len() {
                assert(g.rows[r].cells[j] == g2.rows[r].cells[j]);
            }
        }
    }
}

/// Committing one cell accounts for every cell of the result: the written
/// cell itself, blanks from scrolling, or cells carried over unchanged.
proof fn lemma_insert_cell_covered(g: GridV, c: Cell)
    requires
        g.wf(),
    ensures
        cells_covered_by(g.insert_cell(c), g, seq![c]),
{
    let g1 = if g.cursor.column == g.max_col {
        g.carriage().cursor_down()
    } else {
        g
    };
    if g.cursor.column == g.max_col {
        if g.carriage().cursor.line + 1 < g.max_row {
            lemma_carried_refl(g);
            assert(rows_carried_from(g1, g));
        } else {
            lemma_scroll_carried(g.carriage());
            assert(rows_carried_from(g1, g));
        }
    } else {
        lemma_carried_refl(g);
    }
    let g2 = g1.write_cell(c);
    let idx = g1.hist() + g1.cursor.line;
    let col = g1.cursor.column as int;
    assert(seq![c][0] == c);
    assert(seq![c].contains(c));
    assert forall|r: int, j: int|
        0 <= r < g2.rows.len() && 0 <= j < g2.rows[r].cells.len() implies {
        ||| (#[trigger] g2.rows[r].cells[j]) == Cell::blank_spec()
        ||| seq![c].contains(g2.rows[r].cells[j])
        ||| exists|r2: int, j2: int|
            0 <= r2 < g.rows.len() && 0 <= j2 < g.rows[r2].cells.len()
                && #[trigger] g.rows[r2].cells[j2] == g2.rows[r].cells[j]
    } by {
        if r == idx && j == col {
            assert(g2.rows[r].cells[j] == c);
        } else {
            if r == idx {
                assert(g2.rows[r].cells[j] == g1.rows[idx].cells[j]);
            } else {
                assert(g2.rows[r].cells[j] == g1.rows[r].cells[j]);
            }
            assert(0 <= r < g1.rows.len() && 0 <= j < g1.rows[r].cells.len());
        }
    }
}

/// Coverage composes: what is covered against an intermediate grid and its
/// batch is covered against the first grid and the concatenated batch.
proof fn lemma_covered_trans(g2: GridV, g1: GridV, g0: GridV, d0: Seq<Cell>, d1: Seq<Cell>)
    requires
        cells_covered_by(g2, g1, d1),
        cells_covered_by(g1, g0, d0),
    ensures
        cells_covered_by(g2, g0, d0 + d1),
{
    assert forall|r: int, j: int|
        0 <= r < g2.rows.len() && 0 <= j < g2.rows[r].cells.len() implies {
        ||| (#[trigger] g2.rows[r].cells[j]) == Cell::blank_spec()
        ||| (d0 + d1).contains(g2.rows[r].cells[j])
        ||| exists|r2: int, j2: int|
            0 <= r2 < g0.rows.len() && 0 <= j2 < g0.rows[r2].cells.len()
                && #[trigger] g0.rows[r2].cells[j2] == g2.rows[r].cells[j]
    } by {
        let x = g2.rows[r].cells[j];
        if x != Cell::blank_spec() {
            if d1.contains(x) {
                let k = choose|k: int| 0 <= k < d1.len() && d1[k] == x;
                assert((d0 + d1)[d0.len() + k] == x);
                assert((d0 + d1).contains(x));
            } else {
                let (r2, j2): (int, int) = choose|r2: int, j2: int|
                    0 <= r2 < g1.rows.len() && 0 <= j2 < g1.rows[r2].cells.len()
                        && #[trigger] g1.rows[r2].cells[j2] == x;
                assert(g1.rows[r2].cells[j2] == x);
                if d0.contains(x) {
                    let k = choose|k: int| 0 <= k < d0.len() && d0[k] == x;
                    assert((d0 + d1)[k] == x);
                    assert((d0 + d1).contains(x));
                }
            }
        }
    }
}

/// Committing a batch accounts for every cell of the result: a committed
/// cell is one of the batch's cells exactly as handed in, a blank from
/// scrolling, or a cell the grid already held.
pub proof fn lemma_insert_all_covered(g: GridV, data: Seq<Cell>)
    requires
        g.wf(),
        forall|k: int| 0 <= k < data.len() ==> (#[trigger] data[k]).wf(),
    ensures
        cells_covered_by(g.insert_all(data), g, data),
    decreases data.len(),
{
    if data.len() == 0 {
        lemma_carried_refl(g);
    } else {
        let c = data.first();
        let g1 = g.insert_cell(c);
        lemma_insert_cell_covered(g, c);
        lemma_insert_cell_wf(g, c);
        lemma_insert_all_covered(g1, data.skip(1));
        lemma_covered_trans(g.insert_all(data), g1, g, seq![c], data.skip(1));
        assert(seq![c] + data.skip(1) =~= data);
    }
}

/// Committing a batch and then one more cell is committing the extended
/// batch.
pub proof fn lemma_insert_all_snoc(g: GridV, s: Seq<Cell>, c: Cell)
    ensures
        g.insert_all(s.push(c)) == g.insert_all(s).insert_cell(c),
    decreases s.len(),
{
    if s.len() == 0 {
        assert(s.push(c).first() == c);
        assert(s.push(c).skip(1) =~= Seq::<Cell>::empty());
        assert(g.insert_all(s) == g);
        assert(g.insert_all(s.push(c)) == g.insert_cell(c).insert_all(s.push(c).skip(1)));
        assert(g.insert_cell(c).insert_all(s.push(c).skip(1)) == g.insert_cell(c));
    } else {
        assert(s.push(c).first() == s.first());
        assert(s.push(c).skip(1) =~= s.skip(1).push(c));
        assert(g.insert_all(s.push(c)) == g.insert_cell(s.first()).insert_all(s.skip(1).push(c)));
        assert(g.insert_all(s) == g.insert_cell(s.first()).insert_all(s.skip(1)));
        lemma_insert_all_snoc(g.insert_cell(s.first()), s.skip(1), c);
    }
}

} // verus!
