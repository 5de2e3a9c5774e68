//! The terminal: pen state, the deferred write queue, and the grid.
//!
//! Printed characters are buffered in the write queue, each tagged with the
//! pen state at the moment it was printed, and committed into the grid at
//! defined flush points. A committed cell therefore always keeps the colors
//! and attributes in effect when its character was printed, whatever the pen
//! does afterwards.

use vstd::prelude::*;

use crate::cell::Cell;
use crate::color::Attribute;
use crate::color::Color;
use crate::color::RGBA;
use crate::erase::EraseKind;
use crate::grid::Grid;
use crate::grid::GridV;
use crate::rendition::apply_rendition;
use crate::rendition::apply_rendition_exec;
use crate::rendition::Pen;

verus! {

/// How many scrolled-off rows a terminal retains by default.
pub const DEFAULT_HISTORY_CAP: usize = 1000;

/// Mathematical model of the terminal.
pub struct TermV {
    pub scheme: Seq<RGBA>,
    pub pen: Pen,
    pub dark_mode: bool,
    pub grid: GridV,
    pub queue: Seq<Cell>,
}

impl TermV {
    /// Terminal invariant: the pen and every queued cell are well formed,
    /// the colorscheme has its 16 entries, and the grid invariant holds.
    pub open spec fn wf(self) -> bool {
        &&& self.pen.wf()
        &&& self.scheme.len() == 16
        &&& self.grid.wf()
        &&& forall|k: int| 0 <= k < self.queue.len() ==> (#[trigger] self.queue[k]).wf()
    }

    /// The cell a printed character produces: the character tagged with the
    /// pen state at the moment of printing.
    pub open spec fn tagged_cell(pen: Pen, c: char) -> Cell {
        Cell {
            c: c,
            fg: pen.fg,
            bg: pen.bg,
            attr: pen.attr,
            sixel_data: None,
            erasable: true,
            dirty: false,
        }
    }

    /// Printing appends one pen-tagged cell to the write queue; the grid and
    /// the pen are untouched.
    pub open spec fn print(self, c: char) -> TermV {
        TermV { queue: self.queue.push(TermV::tagged_cell(self.pen, c)), ..self }
    }

    /// Flushing commits the queued cells into the grid at the cursor, in
    /// order, and empties the queue.
    pub open spec fn flush(self) -> TermV {
        TermV { grid: self.grid.insert_all(self.queue), queue: Seq::empty(), ..self }
    }

    /// A graphic-rendition parameter list applied to the pen alone.
    pub open spec fn rendition(self, vs: Seq<i64>) -> TermV {
        TermV { pen: apply_rendition(self.pen, vs, self.dark_mode), ..self }
    }

    /// The pen reset to its defaults.
    pub open spec fn reset_pen(self) -> TermV {
        TermV { pen: Pen::default_spec(), ..self }
    }

    /// A batch of cells committed directly into the grid.
    pub open spec fn input(self, data: Seq<Cell>) -> TermV {
        TermV { grid: self.grid.insert_all(data), ..self }
    }

    /// Reflowing the terminal to new capacities. The write queue is flushed
    /// first: a resize only ever runs between two fully-committed states.
    pub open spec fn resize(self, new_row: int, new_col: int) -> TermV {
        let t = self.flush();
        TermV { grid: t.grid.resize_spec(new_row, new_col), ..t }
    }

    /// A fresh terminal over a fresh grid.
    pub open spec fn fresh(max_row: int, max_col: int, scheme: Seq<RGBA>) -> TermV {
        TermV {
            scheme: scheme,
            pen: Pen::default_spec(),
            dark_mode: false,
            grid: GridV::fresh(max_row, max_col, DEFAULT_HISTORY_CAP as int),
            queue: Seq::empty(),
        }
    }
}

/// The terminal: pen state, dark-mode flag, grid, and the write queue of
/// not-yet-committed cells.
#[derive(Debug)]
pub struct Terminal {
    /// The 16-entry base colorscheme, read-only for the terminal's lifetime.
    pub scheme: [RGBA; 16],
    /// Current foreground color of the pen.
    pub fg: Color,
    /// Current background color of the pen.
    pub bg: Color,
    /// Current attribute set of the pen.
    pub attr: Attribute,
    /// Which half of the base palette the codes 30..=37 and 40..=47 select.
    pub dark_mode: bool,
    /// The character grid with its scrollback history.
    pub data: Grid,
    /// The deferred write queue of pen-tagged, not-yet-committed cells.
    pub write_stack: Vec<Cell>,
}

impl View for Terminal {
    type V = TermV;

    open spec fn view(&self) -> TermV {
        TermV {
            scheme: self.scheme@,
            pen: Pen { fg: self.fg, bg: self.bg, attr: self.attr },
            dark_mode: self.dark_mode,
            grid: self.data@,
            queue: self.write_stack@,
        }
    }
}

impl Terminal {
    /// Builds a terminal with a fresh grid, the default pen, and an empty
    /// write queue.
    pub fn new(max_row: usize, max_col: usize, colorscheme: [RGBA; 16]) -> (r: Terminal)
        requires
            1 <= max_row <= 0x0fff_ffff,
            1 <= max_col <= 0x0fff_ffff,
        ensures
            r@ == TermV::fresh(max_row as int, max_col as int, colorscheme@),
            r@.wf(),
    {
        Terminal {
            scheme: colorscheme,
            fg: Color::BasePalette(7),
            bg: Color::BasePalette(0),
            attr: Attribute::normal(),
            dark_mode: false,
            data: Grid::new(max_row, max_col, DEFAULT_HISTORY_CAP),
            write_stack: Vec::new(),
        }
    }

    /// Reflows the grid to new capacities, flushing the write queue first so
    /// no pending characters are lost.
    pub fn resize(&mut self, max_row: usize, max_col: usize)
        requires
            old(self)@.wf(),
            1 <= max_row <= 0x0fff_ffff,
            1 <= max_col <= 0x0fff_ffff,
        ensures
            final(self)@ == old(self)@.resize(max_row as int, max_col as int),
            final(self)@.wf(),
    {
        self.update();
        self.data.resize(max_row, max_col);
    }

    /// Commits a batch of cells directly into the grid at the cursor.
    pub fn input(&mut self, data: Vec<Cell>)
        requires
            old(self)@.wf(),
            forall|k: int| 0 <= k < data@.len() ==> (#[trigger] data@[k]).wf(),
        ensures
            final(self)@ == old(self)@.input(data@),
            final(self)@.wf(),
    {
        self.data.input_insert(data);
    }

    /// Flushes the write queue: the pending cells are committed into the
    /// grid at the cursor, keeping the pen state each was printed with.
    pub fn update(&mut self)
        requires
            old(self)@.wf(),
        ensures
            final(self)@ == old(self)@.flush(),
            final(self)@.wf(),
    {
        let data = self.write_stack.split_off(0);
        proof {
            assert(data@ =~= old(self)@.queue);
            assert(self.write_stack@ =~= Seq::<Cell>::empty());
        }
        self.data.input_insert(data);
    }

    /// Resets the pen to its defaults: foreground index 7, background index
    /// 0, normal attributes.
    pub fn reset_graphic(&mut self)
        requires
            old(self)@.wf(),
        ensures
            final(self)@ == old(self)@.reset_pen(),
            final(self)@.wf(),
    {
        self.fg = Color::BasePalette(7);
        self.bg = Color::BasePalette(0);
        self.attr = Attribute::normal();
    }

    /// Applies a graphic-rendition parameter list to the pen. The caller
    /// flushes the write queue first, so cells printed earlier keep the pen
    /// state they were printed with.
    pub fn rendition(&mut self, rendition: Vec<i64>)
        requires
            old(self)@.wf(),
        ensures
            final(self)@ == old(self)@.rendition(rendition@),
            final(self)@.wf(),
    {
        let pen = Pen { fg: self.fg, bg: self.bg, attr: self.attr };
        let pen2 = apply_rendition_exec(pen, &rendition, self.dark_mode);
        proof {
            crate::rendition::lemma_apply_rendition_wf(pen, rendition@, self.dark_mode);
        }
        self.fg = pen2.fg;
        self.bg = pen2.bg;
        self.attr = pen2.attr;
    }

    /// Appends one printed character to the write queue, tagged with the
    /// current pen state. The grid is untouched.
    pub fn add_new_cell(&mut self, c: char)
        requires
            old(self)@.wf(),
        ensures
            final(self)@ == old(self)@.print(c),
            final(self)@.wf(),
    {
        self.write_stack.push(
            Cell {
                c,
                fg: self.fg,
                bg: self.bg,
                attr: self.attr,
                sixel_data: None,
                erasable: true,
                dirty: false,
            },
        );
    }

    /// Erases the column range `[start, end)` of one viewport row, either
    /// unconditionally or stopping at the first protected cell.
    pub fn erase_line_range_unchecked(&mut self, line: usize, start: usize, end: usize, kind: EraseKind)
        requires
            old(self)@.wf(),
        ensures
            final(self)@ == (TermV {
                grid: old(self)@.grid.erase_line_range(
                    line as int,
                    start as int,
                    end as int,
                    kind.is_selective(),
                ),
                ..old(self)@
            }),
            final(self)@.wf(),
    {
        self.data.erase_line_range(line, start, end, kind);
    }

    /// Erases every whole viewport row in `[start, end)`, either
    /// unconditionally or stopping per row at the first protected cell.
    pub fn erase_range_unchecked(&mut self, start: usize, end: usize, kind: EraseKind)
        requires
            old(self)@.wf(),
        ensures
            final(self)@ == (TermV {
                grid: old(self)@.grid.erase_rows(start as int, end as int, kind.is_selective()),
                ..old(self)@
            }),
            final(self)@.wf(),
    {
        self.data.erase_rows_range(start, end, kind);
    }
}

} // verus!
