use term_core::cell::Cell;
use term_core::color::Attribute;
use term_core::color::Color;
use term_core::color::RGBA;
use term_core::dispatch::ControlFunction;
use term_core::dispatch::Display;
use term_core::erase::EraseKind;
use term_core::term::Terminal;

fn scheme() -> [RGBA; 16] {
    [RGBA { r: 0, g: 0, b: 0, a: 255 }; 16]
}

fn colored_cell(c: char) -> Cell {
    Cell {
        c,
        fg: Color::BasePalette(2),
        bg: Color::BasePalette(4),
        attr: Attribute { bold: true, underline: false, blink: false, reverse: false },
        sixel_data: None,
        erasable: true,
        dirty: false,
    }
}

fn filled_terminal(rows: usize, cols: usize, text: &str) -> Terminal {
    let mut t = Terminal::new(rows, cols, scheme());
    t.input(text.chars().map(colored_cell).collect());
    t
}

#[test]
fn erase_clears_to_dirty_default_space() {
    let mut t = filled_terminal(1, 3, "abc");
    t.erase_line_range_unchecked(0, 0, 3, EraseKind::Unconditional);
    let row = t.data.row(0);
    for j in 0..3 {
        assert_eq!(row.cells[j].c, ' ');
        assert_eq!(row.cells[j].fg, Color::BasePalette(7));
        assert_eq!(row.cells[j].bg, Color::BasePalette(0));
        assert_eq!(row.cells[j].attr, Attribute::normal());
        assert!(row.cells[j].dirty);
        assert!(row.cells[j].erasable);
    }
}

#[test]
fn selective_erase_stops_at_protected_cell() {
    // Erasable cells before and after a protected cell at column 2: a
    // selective erase from column 0 clears only the columns before it and
    // leaves everything from it on untouched, the erasable cells included.
    let mut t = filled_terminal(1, 5, "abcde");
    t.data.rows[0].cells[2].erasable = false;
    t.erase_line_range_unchecked(0, 0, 5, EraseKind::Selective);
    let row = t.data.row(0);
    assert_eq!(row.cells[0].c, ' ');
    assert_eq!(row.cells[1].c, ' ');
    assert_eq!(row.cells[2].c, 'c');
    assert_eq!(row.cells[3].c, 'd');
    assert_eq!(row.cells[4].c, 'e');
    assert!(!row.cells[3].dirty);
}

#[test]
fn unconditional_erase_ignores_protection() {
    let mut t = filled_terminal(1, 3, "abc");
    t.data.rows[0].cells[1].erasable = false;
    t.erase_line_range_unchecked(0, 0, 3, EraseKind::Unconditional);
    let row = t.data.row(0);
    assert_eq!(row.cells[0].c, ' ');
    assert_eq!(row.cells[1].c, ' ');
    assert_eq!(row.cells[2].c, ' ');
}

#[test]
fn erase_line_range_out_of_bounds_is_no_op() {
    let mut t = filled_terminal(1, 3, "abc");
    t.erase_line_range_unchecked(5, 0, 3, EraseKind::Unconditional);
    assert_eq!(t.data.row(0).cells[0].c, 'a');
    // A range past the row end is clamped.
    t.erase_line_range_unchecked(0, 2, 99, EraseKind::Unconditional);
    assert_eq!(t.data.row(0).cells[1].c, 'b');
    assert_eq!(t.data.row(0).cells[2].c, ' ');
}

#[test]
fn erase_rows_clears_each_row() {
    let mut t = filled_terminal(2, 2, "abcd");
    t.erase_range_unchecked(0, 2, EraseKind::Unconditional);
    assert_eq!(t.data.row(0).cells[0].c, ' ');
    assert_eq!(t.data.row(1).cells[1].c, ' ');
}

#[test]
fn selective_erase_rows_stops_per_row() {
    let mut t = filled_terminal(2, 2, "abcd");
    t.data.rows[0].cells[0].erasable = false;
    t.erase_range_unchecked(0, 2, EraseKind::Selective);
    // Row 0 stops at its first (protected) cell; row 1 is fully cleared.
    assert_eq!(t.data.row(0).cells[0].c, 'a');
    assert_eq!(t.data.row(0).cells[1].c, 'b');
    assert_eq!(t.data.row(1).cells[0].c, ' ');
    assert_eq!(t.data.row(1).cells[1].c, ' ');
}

#[test]
fn erase_in_line_modes() {
    // Cursor sits at column 2 after printing two characters.
    let mut d = Display::new(1, 4, scheme());
    d.print('a');
    d.print('b');
    d.print('c');
    d.print('d');
    d.csi_dispatch(ControlFunction::GraphicRendition(vec![0]));
    d.execute(ControlFunction::CarriageReturn);
    d.print('x');
    d.print('y');
    d.csi_dispatch(ControlFunction::GraphicRendition(vec![0]));
    // Mode 0: clears after the cursor column.
    d.csi_dispatch(ControlFunction::EraseInLine(0));
    let cells: Vec<char> = d.row(0).cells.iter().map(|c| c.c).collect();
    assert_eq!(cells, vec!['x', 'y', 'c', ' ']);
    // Mode 1: clears through the cursor column.
    d.csi_dispatch(ControlFunction::EraseInLine(1));
    let cells: Vec<char> = d.row(0).cells.iter().map(|c| c.c).collect();
    assert_eq!(cells, vec![' ', ' ', ' ', ' ']);
}

#[test]
fn erase_in_line_mode_two_clears_whole_line() {
    let mut d = Display::new(1, 3, scheme());
    d.print('a');
    d.print('b');
    d.csi_dispatch(ControlFunction::GraphicRendition(vec![0]));
    d.csi_dispatch(ControlFunction::EraseInLine(2));
    let cells: Vec<char> = d.row(0).cells.iter().map(|c| c.c).collect();
    assert_eq!(cells, vec![' ', ' ', ' ']);
}

#[test]
fn erase_in_display_modes() {
    let mut d = Display::new(2, 3, scheme());
    d.print('a');
    d.print('b');
    d.print('c');
    d.csi_dispatch(ControlFunction::GraphicRendition(vec![0]));
    d.execute(ControlFunction::LineFeed);
    d.print('d');
    d.print('e');
    d.print('f');
    d.csi_dispatch(ControlFunction::GraphicRendition(vec![0]));
    d.execute(ControlFunction::CarriageReturn);
    d.print('X');
    d.csi_dispatch(ControlFunction::GraphicRendition(vec![0]));
    // Cursor at (1, 1). Mode 1: clears rows above, then the line before the
    // cursor column.
    d.csi_dispatch(ControlFunction::EraseInDisplay(1));
    let top: Vec<char> = d.row(0).cells.iter().map(|c| c.c).collect();
    let bottom: Vec<char> = d.row(1).cells.iter().map(|c| c.c).collect();
    assert_eq!(top, vec![' ', ' ', ' ']);
    assert_eq!(bottom, vec![' ', 'e', 'f']);
    // Mode 0: clears the rest of the cursor line after the cursor, then the
    // rows below.
    let mut d2 = Display::new(2, 3, scheme());
    d2.print('a');
    d2.print('b');
    d2.csi_dispatch(ControlFunction::GraphicRendition(vec![0]));
    // Cursor at (0, 2).
    d2.csi_dispatch(ControlFunction::EraseInDisplay(0));
    let top: Vec<char> = d2.row(0).cells.iter().map(|c| c.c).collect();
    assert_eq!(top, vec!['a', 'b', ' ']);
}

#[test]
fn erase_in_display_mode_two_clears_everything() {
    let mut t = filled_terminal(2, 2, "abcd");
    let mut d = Display { term: t };
    d.csi_dispatch(ControlFunction::EraseInDisplay(2));
    assert_eq!(d.row(0).cells[0].c, ' ');
    assert_eq!(d.row(1).cells[1].c, ' ');
    t = d.term;
    assert_eq!(t.data.cursor.line, 1);
}

#[test]
fn selective_erase_in_line_starts_at_cursor_column() {
    let mut t = filled_terminal(1, 4, "abcd");
    let mut d = Display { term: t };
    d.term.data.carriage_return();
    // Selective erase-in-line mode 0 starts at the cursor column itself.
    d.csi_dispatch(ControlFunction::SelectiveEraseLine(0));
    let cells: Vec<char> = d.row(0).cells.iter().map(|c| c.c).collect();
    assert_eq!(cells, vec![' ', ' ', ' ', ' ']);
}

#[test]
fn erase_flag_out_of_range_is_no_op() {
    let mut d = Display::new(1, 2, scheme());
    d.print('a');
    d.csi_dispatch(ControlFunction::GraphicRendition(vec![0]));
    d.csi_dispatch(ControlFunction::EraseInLine(7));
    d.csi_dispatch(ControlFunction::EraseInDisplay(9));
    assert_eq!(d.row(0).cells[0].c, 'a');
}
