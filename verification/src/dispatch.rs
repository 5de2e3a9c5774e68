//! The control dispatcher: the top-level state machine. It receives decoded
//! control tokens from the external escape-sequence tokenizer and either
//! mutates the pen (through the rendition state machine), mutates the grid
//! or cursor directly, or appends printable characters to the deferred write
//! queue. Recognized-but-unsupported control functions are accepted as
//! deliberate no-ops; unrecognized tokens arrive classified `Illegal` and
//! are dropped without mutating state.

use vstd::prelude::*;

use crate::color::RGBA;
use crate::term::TermV;
use crate::term::Terminal;

verus! {

/// A decoded terminal-control token, as the external tokenizer hands it to
/// the dispatcher: one closed set of control functions.
#[derive(Debug)]
pub enum ControlFunction {
    /// A printable character.
    Print(char),
    Null,
    Enquire,
    Bell,
    Backspace,
    HTab,
    LineFeed,
    VTab,
    FormFeed,
    CarriageReturn,
    LockingShift0,
    LockingShift1,
    SingleShift2,
    SingleShift3,
    Xon,
    Xoff,
    Cancel,
    Substitute,
    Index,
    NextLine,
    SetHTab,
    ReverseIndex,
    StringTerminator,
    BackIndex,
    ForwardIndex,
    SaveCursor,
    RestoreCursor,
    SaveCursorPosition,
    RestoreSavedCursor,
    Reset,
    DoubleTop,
    DoubleBottom,
    SingleWidth,
    DoubleWidth,
    /// Light/dark base-palette selection.
    DarkMode(bool),
    /// Select graphic rendition, with its parsed parameter list.
    GraphicRendition(Vec<i64>),
    DeleteCharacter(i64),
    DeleteCol(i64),
    DeleteLine(i64),
    /// Erase in display, with its mode flag.
    EraseInDisplay(i64),
    /// Erase in line, with its mode flag.
    EraseInLine(i64),
    /// Selective (protected-cell-respecting) erase in display.
    SelectiveEraseDisplay(i64),
    /// Selective (protected-cell-respecting) erase in line.
    SelectiveEraseLine(i64),
    /// An unrecognized token: dropped without mutating state.
    Illegal,
}

impl TermV {
    /// Line feed: flush the write queue, then move the cursor to column 0 of
    /// the next line, scrolling at the bottom.
    pub open spec fn line_feed(self) -> TermV {
        let t = self.flush();
        TermV { grid: t.grid.carriage().cursor_down(), ..t }
    }

    /// Carriage return: flush the write queue, then move the cursor to
    /// column 0.
    pub open spec fn carriage_return(self) -> TermV {
        let t = self.flush();
        TermV { grid: t.grid.carriage(), ..t }
    }

    /// What one execute-control or escape-dispatch token does: line feed,
    /// carriage return and reverse index mutate state; every other token in
    /// the closed set is a deliberate no-op.
    pub open spec fn apply_control(self, control: ControlFunction) -> TermV {
        match control {
            ControlFunction::LineFeed => self.line_feed(),
            ControlFunction::CarriageReturn => self.carriage_return(),
            ControlFunction::ReverseIndex => TermV { grid: self.grid.reverse_index(), ..self },
            _ => self,
        }
    }

    /// Erase in display: mode 0 clears from the cursor to the end of the
    /// display (the rest of the cursor line after the cursor, then every
    /// line below), mode 1 from the start of the display to the cursor, mode
    /// 2 the whole display; other modes are ignored.
    pub open spec fn erase_in_display(self, flag: i64, selective: bool) -> TermV {
        let line = self.grid.cursor.line as int;
        let col = self.grid.cursor.column as int;
        if flag == 0 {
            let g1 = self.grid.erase_line_range(line, col + 1, self.grid.max_col, selective);
            TermV { grid: g1.erase_rows(line + 1, g1.max_row, selective), ..self }
        } else if flag == 1 {
            let g1 = self.grid.erase_rows(0, line, selective);
            TermV { grid: g1.erase_line_range(line, 0, col, selective), ..self }
        } else if flag == 2 {
            TermV { grid: self.grid.erase_rows(0, self.grid.max_row, selective), ..self }
        } else {
            self
        }
    }

    /// Unconditional erase in line: mode 0 clears after the cursor, mode 1
    /// through the cursor column, mode 2 the whole line; other modes are
    /// ignored.
    pub open spec fn erase_in_line(self, flag: i64) -> TermV {
        let line = self.grid.cursor.line as int;
        let col = self.grid.cursor.column as int;
        if flag == 0 {
            TermV { grid: self.grid.erase_line_range(line, col + 1, self.grid.max_col, false), ..self }
        } else if flag == 1 {
            TermV { grid: self.grid.erase_line_range(line, 0, col + 1, false), ..self }
        } else if flag == 2 {
            TermV { grid: self.grid.erase_line_range(line, 0, self.grid.max_col, false), ..self }
        } else {
            self
        }
    }

    /// Selective erase in line: mode 0 clears from the cursor column on,
    /// mode 1 before the cursor column, mode 2 the whole line, each stopping
    /// at the first protected cell; other modes are ignored.
    pub open spec fn selective_erase_in_line(self, flag: i64) -> TermV {
        let line = self.grid.cursor.line as int;
        let col = self.grid.cursor.column as int;
        if flag == 0 {
            TermV { grid: self.grid.erase_line_range(line, col, self.grid.max_col, true), ..self }
        } else if flag == 1 {
            TermV { grid: self.grid.erase_line_range(line, 0, col, true), ..self }
        } else if flag == 2 {
            TermV { grid: self.grid.erase_line_range(line, 0, self.grid.max_col, true), ..self }
        } else {
            self
        }
    }

    /// What one CSI-dispatch token does: dark-mode selection, graphic
    /// rendition (after a flush, so in-flight characters keep the prior
    /// pen), the erase family, and cursor save/restore; everything else in
    /// the closed set is a deliberate no-op.
    pub open spec fn apply_csi(self, control: ControlFunction) -> TermV {
        match control {
            ControlFunction::DarkMode(d) => TermV { dark_mode: d, ..self },
            ControlFunction::GraphicRendition(vs) => self.flush().rendition(vs@),
            ControlFunction::EraseInDisplay(flag) => self.erase_in_display(flag, false),
            ControlFunction::SelectiveEraseDisplay(flag) => self.erase_in_display(flag, true),
            ControlFunction::EraseInLine(flag) => self.erase_in_line(flag),
            ControlFunction::SelectiveEraseLine(flag) => self.selective_erase_in_line(flag),
            ControlFunction::SaveCursor => TermV { grid: self.grid.save_cursor(), ..self },
            ControlFunction::SaveCursorPosition => TermV { grid: self.grid.save_cursor(), ..self },
            ControlFunction::RestoreCursor => TermV { grid: self.grid.restore_cursor(), ..self },
            ControlFunction::RestoreSavedCursor => TermV {
                grid: self.grid.restore_cursor(),
                ..self
            },
            _ => self,
        }
    }
}

/// The dispatcher over one terminal instance.
#[derive(Debug)]
pub struct Display {
    pub term: Terminal,
}

impl View for Display {
    type V = TermV;

    open spec fn view(&self) -> TermV {
        self.term@
    }
}

impl Display {
    /// Builds a dispatcher over a fresh terminal.
    pub fn new(max_row: usize, max_col: usize, colorscheme: [RGBA; 16]) -> (r: Display)
        requires
            1 <= max_row <= 0x0fff_ffff,
            1 <= max_col <= 0x0fff_ffff,
        ensures
            r@ == TermV::fresh(max_row as int, max_col as int, colorscheme@),
            r@.wf(),
    {
        Display { term: Terminal::new(max_row, max_col, colorscheme) }
    }

    /// Reflows the terminal to new capacities, flushing the write queue
    /// first.
    pub fn resize(&mut self, max_row: usize, max_col: usize)
        requires
            old(self)@.wf(),
            1 <= max_row <= 0x0fff_ffff,
            1 <= max_col <= 0x0fff_ffff,
        ensures
            final(self)@ == old(self)@.resize(max_row as int, max_col as int),
            final(self)@.wf(),
    {
        self.term.resize(max_row, max_col);
    }

    /// A print token: the character joins the write queue tagged with the
    /// current pen state; the grid is never touched directly.
    pub fn print(&mut self, c: char)
        requires
            old(self)@.wf(),
        ensures
            final(self)@ == old(self)@.print(c),
            final(self)@.wf(),
    {
        self.term.add_new_cell(c);
    }

    /// An execute-control token.
    pub fn execute(&mut self, control: ControlFunction)
        requires
            old(self)@.wf(),
        ensures
            final(self)@ == old(self)@.apply_control(control),
            final(self)@.wf(),
    {
        self.execute_control(control);
    }

    /// An escape-dispatch token: handled as an execute-control token.
    pub fn esc_dispatch(&mut self, control: ControlFunction)
        requires
            old(self)@.wf(),
        ensures
            final(self)@ == old(self)@.apply_control(control),
            final(self)@.wf(),
    {
        self.execute_control(control);
    }

    /// Handles the execute-control set: line feed and carriage return flush
    /// the write queue and move the cursor; reverse index moves the cursor
    /// up, clamped at the top row; the rest are deliberate no-ops.
    fn execute_control(&mut self, control: ControlFunction)
        requires
            old(self)@.wf(),
        ensures
            final(self)@ == old(self)@.apply_control(control),
            final(self)@.wf(),
    {
        match control {
            ControlFunction::LineFeed => {
                self.term.update();
                self.term.data.carriage_return();
                self.term.data.cursor_down();
            },
            ControlFunction::CarriageReturn => {
                self.term.update();
                self.term.data.carriage_return();
            },
            ControlFunction::ReverseIndex => {
                self.term.data.reverse_index();
            },
            _ => {},
        }
    }

    /// Handles one CSI-dispatch token.
    pub fn csi_dispatch(&mut self, control: ControlFunction)
        requires
            old(self)@.wf(),
        ensures
            final(self)@ == old(self)@.apply_csi(control),
            final(self)@.wf(),
    {
        match control {
            ControlFunction::DarkMode(d) => {
                self.term.dark_mode = d;
            },
            ControlFunction::GraphicRendition(vs) => {
                self.term.update();
                self.term.rendition(vs);
            },
            ControlFunction::EraseInDisplay(flag) => {
                self.erase_in_display(flag, crate::erase::EraseKind::Unconditional);
            },
            ControlFunction::SelectiveEraseDisplay(flag) => {
                self.erase_in_display(flag, crate::erase::EraseKind::Selective);
            },
            ControlFunction::EraseInLine(flag) => {
                let line = self.term.data.cursor.line;
                let col = self.term.data.cursor.column;
                let max_col = self.term.data.max_col;
                if flag == 0 {
                    self.term.erase_line_range_unchecked(
                        line,
                        col + 1,
                        max_col,
                        crate::erase::EraseKind::Unconditional,
                    );
                } else if flag == 1 {
                    self.term.erase_line_range_unchecked(
                        line,
                        0,
                        col + 1,
                        crate::erase::EraseKind::Unconditional,
                    );
                } else if flag == 2 {
                    self.term.erase_line_range_unchecked(
                        line,
                        0,
                        max_col,
                        crate::erase::EraseKind::Unconditional,
                    );
                }
            },
            ControlFunction::SelectiveEraseLine(flag) => {
                let line = self.term.data.cursor.line;
                let col = self.term.data.cursor.column;
                let max_col = self.term.data.max_col;
                if flag == 0 {
                    self.term.erase_line_range_unchecked(
                        line,
                        col,
                        max_col,
                        crate::erase::EraseKind::Selective,
                    );
                } else if flag == 1 {
                    self.term.erase_line_range_unchecked(
                        line,
                        0,
                        col,
                        crate::erase::EraseKind::Selective,
                    );
                } else if flag == 2 {
                    self.term.erase_line_range_unchecked(
                        line,
                        0,
                        max_col,
                        crate::erase::EraseKind::Selective,
                    );
                }
            },
            ControlFunction::SaveCursor => {
                self.term.data.save_cursor();
            },
            ControlFunction::SaveCursorPosition => {
                self.term.data.save_cursor();
            },
            ControlFunction::RestoreCursor => {
                self.term.data.restore_cursor();
            },
            ControlFunction::RestoreSavedCursor => {
                self.term.data.restore_cursor();
            },
            _ => {},
        }
    }

    /// The erase-in-display family, shared by the unconditional and
    /// selective forms.
    fn erase_in_display(&mut self, flag: i64, kind: crate::erase::EraseKind)
        requires
            old(self)@.wf(),
        ensures
            final(self)@ == old(self)@.erase_in_display(flag, kind.is_selective()),
            final(self)@.wf(),
    {
        let line = self.term.data.cursor.line;
        let col = self.term.data.cursor.column;
        let max_col = self.term.data.max_col;
        let max_row = self.term.data.max_row;
        if flag == 0 {
            self.term.erase_line_range_unchecked(line, col + 1, max_col, kind);
            self.term.erase_range_unchecked(line + 1, max_row, kind);
        } else if flag == 1 {
            self.term.erase_range_unchecked(0, line, kind);
            self.term.erase_line_range_unchecked(line, 0, col, kind);
        } else if flag == 2 {
            self.term.erase_range_unchecked(0, max_row, kind);
        }
    }

    /// Read access to the viewport row at the given viewport-relative index.
    pub fn row(&self, i: usize) -> (r: &crate::grid::Row)
        requires
            self@.wf(),
            i < self@.grid.max_row,
        ensures
            r@ == self@.grid.visible(i as int),
    {
        self.term.data.row(i)
    }
}

} // verus!
