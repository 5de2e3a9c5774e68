use term_core::cell::Cell;
use term_core::color::Attribute;
use term_core::color::Color;
use term_core::color::RGBA;
use term_core::dispatch::ControlFunction;
use term_core::dispatch::Display;
use term_core::grid::Grid;
use term_core::term::Terminal;

fn scheme() -> [RGBA; 16] {
    let mut s = [RGBA { r: 0, g: 0, b: 0, a: 255 }; 16];
    for (i, e) in s.iter_mut().enumerate() {
        e.r = (i * 10) as u8;
        e.g = (i * 7) as u8;
        e.b = (i * 3) as u8;
    }
    s
}

fn plain_cell(c: char) -> Cell {
    Cell {
        c,
        fg: Color::BasePalette(7),
        bg: Color::BasePalette(0),
        attr: Attribute::normal(),
        sixel_data: None,
        erasable: true,
        dirty: false,
    }
}

#[test]
fn end_to_end_scenario() {
    let mut d = Display::new(2, 10, scheme());
    d.print('A');
    d.csi_dispatch(ControlFunction::GraphicRendition(vec![31]));
    d.print('B');
    d.csi_dispatch(ControlFunction::GraphicRendition(vec![0]));
    d.print('C');
    d.execute(ControlFunction::CarriageReturn);
    d.execute(ControlFunction::LineFeed);

    let row0 = d.row(0);
    assert_eq!(row0.cells[0].c, 'A');
    assert_eq!(row0.cells[0].fg, Color::BasePalette(7));
    assert_eq!(row0.cells[1].c, 'B');
    // dark_mode is off by default, so 31 selects the light palette half.
    assert_eq!(row0.cells[1].fg, Color::BasePalette(9));
    assert_eq!(row0.cells[2].c, 'C');
    assert_eq!(row0.cells[2].fg, Color::BasePalette(7));
    assert_eq!(d.term.data.cursor.line, 1);
    assert_eq!(d.term.data.cursor.column, 0);
}

#[test]
fn printed_cells_keep_pen_at_print_time() {
    let mut d = Display::new(2, 10, scheme());
    d.print('x');
    d.print('y');
    // The rendition change flushes first: x and y keep the old pen.
    d.csi_dispatch(ControlFunction::GraphicRendition(vec![33]));
    d.print('z');
    d.execute(ControlFunction::LineFeed);
    let row0 = d.row(0);
    assert_eq!(row0.cells[0].fg, Color::BasePalette(7));
    assert_eq!(row0.cells[1].fg, Color::BasePalette(7));
    assert_eq!(row0.cells[2].fg, Color::BasePalette(11));
}

#[test]
fn dark_mode_selects_dark_half() {
    let mut d = Display::new(2, 10, scheme());
    d.csi_dispatch(ControlFunction::DarkMode(true));
    d.csi_dispatch(ControlFunction::GraphicRendition(vec![31]));
    assert_eq!(d.term.fg, Color::BasePalette(1));
    d.csi_dispatch(ControlFunction::DarkMode(false));
    d.csi_dispatch(ControlFunction::GraphicRendition(vec![31]));
    assert_eq!(d.term.fg, Color::BasePalette(9));
}

#[test]
fn background_codes_pick_analogous_index() {
    let mut t = Terminal::new(2, 4, scheme());
    t.rendition(vec![41]);
    assert_eq!(t.bg, Color::BasePalette(9));
    t.dark_mode = true;
    t.rendition(vec![47]);
    assert_eq!(t.bg, Color::BasePalette(7));
    t.rendition(vec![49]);
    assert_eq!(t.bg, Color::BasePalette(0));
}

#[test]
fn sgr_38_alone_resets_foreground() {
    let mut t = Terminal::new(2, 4, scheme());
    t.rendition(vec![31]);
    assert_eq!(t.fg, Color::BasePalette(9));
    t.rendition(vec![38]);
    assert_eq!(t.fg, Color::BasePalette(7));
}

#[test]
fn sgr_extended_palette_forms() {
    let mut t = Terminal::new(2, 4, scheme());
    t.rendition(vec![38, 5, 160]);
    assert_eq!(t.fg, Color::ExtendedPalette(160));
    t.rendition(vec![48, 5, 7]);
    assert_eq!(t.bg, Color::ExtendedPalette(7));
    // A trailing triple after short-form codes: both take effect.
    t.rendition(vec![0]);
    t.rendition(vec![1, 38, 5, 5]);
    assert_eq!(t.fg, Color::ExtendedPalette(5));
    assert!(t.attr.bold);
}

#[test]
fn sgr_extended_palette_out_of_range_ignored() {
    let mut t = Terminal::new(2, 4, scheme());
    let before = t.fg;
    t.rendition(vec![38, 5, 300]);
    assert_eq!(t.fg, before);
}

#[test]
fn sgr_direct_color_with_defaults() {
    let mut t = Terminal::new(2, 4, scheme());
    t.rendition(vec![38, 2, 10, 20, 30]);
    assert_eq!(t.fg, Color::Direct(RGBA { r: 10, g: 20, b: 30, a: 255 }));
    t.rendition(vec![48, 2, 1]);
    assert_eq!(t.bg, Color::Direct(RGBA { r: 1, g: 0, b: 0, a: 255 }));
    t.rendition(vec![38, 2, 5, 6, 7, 128]);
    assert_eq!(t.fg, Color::Direct(RGBA { r: 5, g: 6, b: 7, a: 128 }));
    // An out-of-range channel falls back to its default.
    t.rendition(vec![38, 2, 999, 20, 30]);
    assert_eq!(t.fg, Color::Direct(RGBA { r: 0, g: 20, b: 30, a: 255 }));
}

#[test]
fn sgr_reset_after_extended() {
    let mut t = Terminal::new(2, 4, scheme());
    t.rendition(vec![38, 5, 200]);
    t.rendition(vec![0]);
    assert_eq!(t.fg, Color::BasePalette(7));
    assert_eq!(t.bg, Color::BasePalette(0));
    assert_eq!(t.attr, Attribute::normal());
}

#[test]
fn sgr_attribute_codes() {
    let mut t = Terminal::new(2, 4, scheme());
    t.rendition(vec![1]);
    assert!(t.attr.bold);
    t.rendition(vec![4, 5]);
    assert!(t.attr.underline);
    assert!(t.attr.blink);
    t.rendition(vec![7, 22]);
    assert!(t.attr.reverse);
    assert!(!t.attr.bold);
    t.rendition(vec![24, 25]);
    assert!(!t.attr.underline);
    assert!(!t.attr.blink);
    t.rendition(vec![27]);
    assert!(!t.attr.reverse);
}

#[test]
fn unrecognized_sgr_values_ignored() {
    let mut t = Terminal::new(2, 4, scheme());
    t.rendition(vec![99]);
    assert_eq!(t.fg, Color::BasePalette(7));
    assert_eq!(t.bg, Color::BasePalette(0));
}

#[test]
fn reverse_index_clamps_at_top() {
    let mut d = Display::new(3, 4, scheme());
    d.execute(ControlFunction::ReverseIndex);
    assert_eq!(d.term.data.cursor.line, 0);
    d.execute(ControlFunction::LineFeed);
    assert_eq!(d.term.data.cursor.line, 1);
    d.esc_dispatch(ControlFunction::ReverseIndex);
    assert_eq!(d.term.data.cursor.line, 0);
}

#[test]
fn bell_and_tabs_are_no_ops() {
    let mut d = Display::new(2, 4, scheme());
    d.print('q');
    d.execute(ControlFunction::Bell);
    d.execute(ControlFunction::HTab);
    d.execute(ControlFunction::Xon);
    d.execute(ControlFunction::Illegal);
    // Nothing was flushed and nothing moved.
    assert_eq!(d.term.write_stack.len(), 1);
    assert_eq!(d.term.data.cursor.column, 0);
}

#[test]
fn save_and_restore_cursor() {
    let mut d = Display::new(3, 8, scheme());
    d.print('a');
    d.print('b');
    d.execute(ControlFunction::LineFeed);
    d.print('c');
    d.csi_dispatch(ControlFunction::GraphicRendition(vec![0]));
    // Cursor now at line 1, column 1.
    d.csi_dispatch(ControlFunction::SaveCursor);
    d.execute(ControlFunction::CarriageReturn);
    assert_eq!(d.term.data.cursor.column, 0);
    d.csi_dispatch(ControlFunction::RestoreCursor);
    assert_eq!(d.term.data.cursor.line, 1);
    assert_eq!(d.term.data.cursor.column, 1);
    // Restoring with no saved snapshot is a no-op.
    d.execute(ControlFunction::CarriageReturn);
    d.csi_dispatch(ControlFunction::RestoreSavedCursor);
    assert_eq!(d.term.data.cursor.column, 0);
}

#[test]
fn insert_wraps_at_column_capacity() {
    let mut t = Terminal::new(2, 3, scheme());
    t.input(vec![plain_cell('a'), plain_cell('b'), plain_cell('c'), plain_cell('d')]);
    assert_eq!(t.data.row(0).cells[2].c, 'c');
    assert_eq!(t.data.row(1).cells[0].c, 'd');
    assert_eq!(t.data.cursor.line, 1);
    assert_eq!(t.data.cursor.column, 1);
    assert!(!t.data.cursor.wrap_pending);
}

#[test]
fn filling_a_row_sets_wrap_pending() {
    let mut t = Terminal::new(2, 3, scheme());
    t.input(vec![plain_cell('a'), plain_cell('b'), plain_cell('c')]);
    assert_eq!(t.data.cursor.column, 3);
    assert!(t.data.cursor.wrap_pending);
    t.input(vec![plain_cell('d')]);
    assert_eq!(t.data.cursor.line, 1);
    assert_eq!(t.data.cursor.column, 1);
}

#[test]
fn scrollback_bound_evicts_oldest() {
    let mut g = Grid::new(2, 4, 2);
    g.insert_cell(plain_cell('a'));
    assert_eq!(g.history_len(), 0);
    g.carriage_return();
    g.cursor_down(); // line 0 -> 1, no scroll
    g.cursor_down(); // scroll: history 1
    g.cursor_down(); // scroll: history 2
    assert_eq!(g.history_len(), 2);
    assert_eq!(g.rows.len(), 4);
    assert_eq!(g.rows[0].cells[0].c, 'a');
    g.cursor_down(); // scroll past the bound: the row holding 'a' is evicted
    assert_eq!(g.history_len(), 2);
    assert_eq!(g.rows.len(), 4);
    assert_eq!(g.rows[0].cells[0].c, ' ');
}

#[test]
fn high_water_mark_tracks_writes() {
    let mut g = Grid::new(1, 5, 0);
    g.insert_cell(plain_cell('a'));
    g.insert_cell(plain_cell('b'));
    assert_eq!(g.row(0).high_water, 2);
    g.carriage_return();
    g.insert_cell(plain_cell('c'));
    assert_eq!(g.row(0).high_water, 2);
}

#[test]
fn resize_narrower_keeps_prefix() {
    let mut t = Terminal::new(1, 4, scheme());
    t.input(vec![plain_cell('a'), plain_cell('b'), plain_cell('c'), plain_cell('d')]);
    t.resize(1, 2);
    assert_eq!(t.data.max_col, 2);
    assert_eq!(t.data.row(0).cells.len(), 2);
    assert_eq!(t.data.row(0).cells[0].c, 'a');
    assert_eq!(t.data.row(0).cells[1].c, 'b');
    // The cursor was at column 4 and is clamped to the new capacity.
    assert_eq!(t.data.cursor.column, 2);
    assert!(t.data.cursor.wrap_pending);
}

#[test]
fn resize_wider_pads_with_blanks() {
    let mut t = Terminal::new(1, 2, scheme());
    t.input(vec![plain_cell('a'), plain_cell('b')]);
    t.resize(2, 4);
    assert_eq!(t.data.max_row, 2);
    assert_eq!(t.data.max_col, 4);
    assert_eq!(t.data.row(0).cells[0].c, 'a');
    assert_eq!(t.data.row(0).cells[2].c, ' ');
    assert_eq!(t.data.row(1).cells[0].c, ' ');
}

#[test]
fn resize_flushes_pending_writes() {
    let mut d = Display::new(1, 4, scheme());
    d.print('a');
    assert_eq!(d.term.write_stack.len(), 1);
    d.resize(1, 4);
    assert_eq!(d.term.write_stack.len(), 0);
    assert_eq!(d.row(0).cells[0].c, 'a');
}

#[test]
fn shrinking_rows_moves_top_rows_to_history() {
    let mut t = Terminal::new(2, 2, scheme());
    t.input(vec![plain_cell('a'), plain_cell('b'), plain_cell('c')]);
    // Row 0 holds "ab", row 1 holds "c ".
    t.resize(1, 2);
    assert_eq!(t.data.max_row, 1);
    // The bottom row stays visible; the top row moved into history.
    assert_eq!(t.data.row(0).cells[0].c, 'c');
    let hist = t.data.rows.len() - t.data.max_row;
    assert_eq!(hist, 1);
    assert_eq!(t.data.rows[0].cells[0].c, 'a');
}

#[test]
fn set_display_offset_clamps_to_history() {
    let mut g = Grid::new(1, 2, 5);
    g.cursor_down();
    g.cursor_down();
    let hist = g.history_len();
    assert_eq!(hist, 2);
    g.set_display_offset(1);
    assert_eq!(g.display_offset, 1);
    g.set_display_offset(10);
    assert_eq!(g.display_offset, 2);
}
