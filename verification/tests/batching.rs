use term_core::batch::color_runs;
use term_core::batch::GlyphRecord;
use term_core::batch::Renderer;
use term_core::cell::Cell;
use term_core::color::Attribute;
use term_core::color::Color;
use term_core::color::RGBA;

fn scheme() -> [RGBA; 16] {
    let mut s = [RGBA { r: 0, g: 0, b: 0, a: 255 }; 16];
    for (i, e) in s.iter_mut().enumerate() {
        e.g = (i * 5) as u8;
    }
    s
}

fn cell_with_fg(c: char, fg: Color) -> Cell {
    Cell {
        c,
        fg,
        bg: Color::BasePalette(0),
        attr: Attribute::normal(),
        sixel_data: None,
        erasable: true,
        dirty: false,
    }
}

fn record(glyph_id: u32, cluster: u32) -> GlyphRecord {
    GlyphRecord { glyph_id, cluster, x_offset: 0, y_offset: 0, x_advance: 512, y_advance: 0 }
}

#[test]
fn runs_coalesce_same_foreground() {
    let red = Color::BasePalette(1);
    let blue = Color::BasePalette(4);
    let cells = vec![
        cell_with_fg('a', red),
        cell_with_fg('b', red),
        cell_with_fg('c', blue),
        cell_with_fg('d', red),
    ];
    let runs = color_runs(&cells);
    assert_eq!(runs.len(), 3);
    assert_eq!(runs[0].text, vec!['a', 'b']);
    assert_eq!(runs[0].fg, red);
    assert_eq!(runs[0].start_col, 0);
    assert_eq!(runs[1].text, vec!['c']);
    assert_eq!(runs[1].start_col, 2);
    assert_eq!(runs[2].text, vec!['d']);
    assert_eq!(runs[2].start_col, 3);
}

#[test]
fn runs_of_uniform_row_form_one_unit() {
    let fg = Color::ExtendedPalette(42);
    let cells = vec![cell_with_fg('x', fg), cell_with_fg('y', fg), cell_with_fg('z', fg)];
    let runs = color_runs(&cells);
    assert_eq!(runs.len(), 1);
    assert_eq!(runs[0].text, vec!['x', 'y', 'z']);
}

#[test]
fn runs_of_empty_row_are_empty() {
    let runs = color_runs(&Vec::new());
    assert_eq!(runs.len(), 0);
}

#[test]
fn cluster_scaling_formula() {
    // A glyph whose cluster collapses three source characters renders at
    // exactly 1 / (1 + 0.1 * 2) = 10 / 12.
    let r = Renderer::new(640, 480, 8, 16, scheme());
    let fg = RGBA { r: 255, g: 255, b: 255, a: 255 };
    let records = vec![record(1, 0), record(2, 3)];
    let cmds = r.place_run(&records, 0, 0, fg);
    assert_eq!(cmds.len(), 2);
    assert_eq!(cmds[0].scale_num, 10);
    assert_eq!(cmds[0].scale_den, 12);
    let s = cmds[0].scale_num as f32 / cmds[0].scale_den as f32;
    assert!((s - 1.0 / (1.0 + 0.1 * 2.0)).abs() < 1e-6);
    assert!((s - 0.833).abs() < 0.001);
    // The last glyph of a run always keeps scale 1.
    assert_eq!(cmds[1].scale_num, 1);
    assert_eq!(cmds[1].scale_den, 1);
}

#[test]
fn glyphs_sit_at_their_cells() {
    let r = Renderer::new(640, 480, 8, 16, scheme());
    let fg = RGBA { r: 1, g: 2, b: 3, a: 4 };
    let records = vec![
        GlyphRecord { glyph_id: 7, cluster: 0, x_offset: 5, y_offset: -3, x_advance: 512, y_advance: 0 },
        record(8, 1),
    ];
    let cmds = r.place_run(&records, 2, 1, fg);
    // Glyph 0 sits at cell column 2 + 0, shifted by its 26.6 offsets.
    assert_eq!(cmds[0].x, 2 * 8 * 64 + 5);
    assert_eq!(cmds[0].y, 2 * 16 * 64 - 3);
    assert_eq!(cmds[0].glyph_id, 7);
    assert_eq!(cmds[0].fg, fg);
    // Glyph 1 advances one cell.
    assert_eq!(cmds[1].x, 3 * 8 * 64);
}

#[test]
fn renderer_resolves_colors() {
    let s = scheme();
    let r = Renderer::new(100, 100, 8, 16, s);
    assert_eq!(r.to_rgba(Color::BasePalette(3)), s[3]);
    assert_eq!(r.to_rgba(Color::ExtendedPalette(196)), RGBA { r: 255, g: 0, b: 0, a: 255 });
    let d = RGBA { r: 4, g: 5, b: 6, a: 7 };
    assert_eq!(r.to_rgba(Color::Direct(d)), d);
}

#[test]
fn renderer_resize_keeps_cell_metrics() {
    let mut r = Renderer::new(100, 100, 8, 16, scheme());
    r.resize(200, 300);
    assert_eq!(r.max_x, 200);
    assert_eq!(r.max_y, 300);
    assert_eq!(r.cell_width, 8);
    assert_eq!(r.cell_height, 16);
}

#[test]
fn non_advancing_cluster_counts_as_width_one() {
    let r = Renderer::new(640, 480, 8, 16, scheme());
    let fg = RGBA { r: 0, g: 0, b: 0, a: 255 };
    // The successor's cluster does not advance: width 1, scale 1.
    let records = vec![record(1, 2), record(2, 2)];
    let cmds = r.place_run(&records, 0, 0, fg);
    assert_eq!(cmds[0].scale_num, 1);
    assert_eq!(cmds[0].scale_den, 1);
}

#[test]
fn render_pipeline_with_empty_face() {
    // An empty font face still shapes: every character maps to the undefined
    // glyph. The pipeline must coalesce, shape and place without panicking,
    // and every instruction must carry the run's resolved foreground.
    let face = harfbuzz_rs::Face::from_bytes(&[], 0);
    let font = harfbuzz_rs::Font::new(face);
    let mut g = term_core::grid::Grid::new(1, 2, 0);
    g.insert_cell(cell_with_fg('a', Color::BasePalette(3)));
    g.insert_cell(cell_with_fg('b', Color::BasePalette(3)));
    let s = scheme();
    let r = Renderer::new(64, 64, 8, 16, s);
    let cmds = r.prepare_render(&g, &font);
    assert_eq!(cmds.len(), 2);
    for (j, cmd) in cmds.iter().enumerate() {
        assert_eq!(cmd.fg, s[3]);
        assert_eq!(cmd.x, (j as i64) * 8 * 64);
        assert_eq!(cmd.y, 16 * 64);
        assert_eq!(cmd.scale_num, 1);
        assert_eq!(cmd.scale_den, 1);
    }
}
