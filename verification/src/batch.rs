//! The glyph batcher: consumes committed grid rows, coalesces maximal runs
//! of identical foreground color, hands each run to the external shaping
//! engine as one unit, and emits positioned, scaled, colored glyph draw
//! instructions.
//!
//! All positions are in 26.6 fixed-point pixel units (64 units per pixel),
//! as the shaping engine reports its offsets. A glyph whose cluster collapses
//! several source characters is shrunk by the exact heuristic factor
//! `1 / (1 + 0.1 * (cluster_width - 1))`, carried here as the rational
//! `10 / (9 + cluster_width)` so the renderer can apply it in floating point
//! at the boundary.

use vstd::prelude::*;

use crate::cell::Cell;
use crate::color::resolve;
use crate::color::resolve_spec;
use crate::color::Color;
use crate::color::RGBA;
use crate::grid::Grid;
use crate::grid::Row;

verus! {

/// One shaped glyph as the external shaping engine reports it: a glyph
/// identifier, the cluster (source character index) it starts at, sub-pixel
/// offsets and advances in 26.6 fixed-point units.
#[derive(Clone, Copy, Debug, PartialEq, Eq, Structural)]
pub struct GlyphRecord {
    pub glyph_id: u32,
    pub cluster: u32,
    pub x_offset: i32,
    pub y_offset: i32,
    pub x_advance: i32,
    pub y_advance: i32,
}

/// Mathematical model of a color run.
pub struct RunV {
    pub text: Seq<char>,
    pub fg: Color,
    pub start_col: int,
}

/// A maximal contiguous sequence of cells sharing one foreground color: the
/// unit of text-shaping input.
#[derive(Debug)]
pub struct ColorRun {
    pub text: Vec<char>,
    pub fg: Color,
    pub start_col: usize,
}

impl View for ColorRun {
    type V = RunV;

    open spec fn view(&self) -> RunV {
        RunV { text: self.text@, fg: self.fg, start_col: self.start_col as int }
    }
}

/// One glyph draw instruction: where to draw which glyph, at which rational
/// scale, in which resolved color.
#[derive(Clone, Copy, Debug, PartialEq, Eq, Structural)]
pub struct DrawCmd {
    pub glyph_id: u32,
    /// Screen x of the glyph origin, 26.6 fixed point.
    pub x: i64,
    /// Screen y of the glyph baseline, 26.6 fixed point.
    pub y: i64,
    /// Numerator of the glyph's render scale.
    pub scale_num: u64,
    /// Denominator of the glyph's render scale.
    pub scale_den: u64,
    /// Resolved foreground color of the run the glyph came from.
    pub fg: RGBA,
}

/// The color runs of a row, built cell by cell: a cell whose foreground
/// matches the run in progress extends it, any other cell starts a new run
/// at its own column.
pub open spec fn runs_spec(cells: Seq<Cell>) -> Seq<RunV>
    decreases cells.len(),
{
    if cells.len() == 0 {
        Seq::empty()
    } else {
        let prefix = runs_spec(cells.drop_last());
        let c = cells.last();
        let pos = cells.len() - 1;
        if prefix.len() > 0 && prefix.last().fg == c.fg {
            prefix.update(
                prefix.len() - 1,
                RunV { text: prefix.last().text.push(c.c), ..prefix.last() },
            )
        } else {
            prefix.push(RunV { text: seq![c.c], fg: c.fg, start_col: pos })
        }
    }
}

/// The color-run coalescing law: the runs of a row are nonempty, uniform in
/// foreground color, maximal (adjacent runs differ), contiguous from column
/// 0, and spell out exactly the row's characters.
#[verifier::rlimit(100)]
pub proof fn lemma_runs_spec_props(cells: Seq<Cell>)
    ensures
        ({
            let runs = runs_spec(cells);
            &&& (runs.len() == 0 <==> cells.len() == 0)
            &&& runs.len() > 0 ==> runs[0].start_col == 0 && runs.last().start_col
                + runs.last().text.len() == cells.len()
            &&& forall|k: int| 0 <= k < runs.len() ==> (#[trigger] runs[k]).text.len() > 0
            &&& forall|k: int|
                0 <= k < runs.len() ==> 0 <= (#[trigger] runs[k]).start_col && runs[k].start_col
                    + runs[k].text.len() <= cells.len()
            &&& forall|k: int, t: int|
                0 <= k < runs.len() && 0 <= t < runs[k].text.len() ==> (#[trigger] runs[k].text[t])
                    == cells[runs[k].start_col + t].c && runs[k].fg == cells[runs[k].start_col
                    + t].fg
            &&& forall|k: int|
                0 < k < runs.len() ==> (#[trigger] runs[k]).start_col == runs[k - 1].start_col
                    + runs[k - 1].text.len() && runs[k].fg != runs[k - 1].fg
        }),
    decreases cells.len(),
{
    if cells.len() > 0 {
        lemma_runs_spec_props(cells.drop_last());
        let pre = cells.drop_last();
        let prefix = runs_spec(pre);
        let c = cells.last();
        let runs = runs_spec(cells);
        assert(forall|j: int| 0 <= j < pre.len() ==> pre[j] == cells[j]);
        if prefix.len() > 0 && prefix.last().fg == c.fg {
            let m = prefix.len() - 1;
            assert(runs[m].start_col + runs[m].text.len() == cells.len());
            assert forall|k: int, t: int|
                0 <= k < runs.len() && 0 <= t < runs[k].text.len() implies (#[trigger] runs[k].text[t])
                == cells[runs[k].start_col + t].c && runs[k].fg == cells[runs[k].start_col + t].fg by {
                if k < m || t < runs[k].text.len() - 1 {
                    assert(runs[k].text[t] == prefix[k].text[t]);
                } else {
                    assert(runs[k].text[t] == c.c);
                    assert(runs[k].start_col + t == cells.len() - 1);
                }
            }
        } else {
            let m = runs.len() - 1;
            assert(runs[m] == RunV { text: seq![c.c], fg: c.fg, start_col: cells.len() - 1 });
            assert forall|k: int, t: int|
                0 <= k < runs.len() && 0 <= t < runs[k].text.len() implies (#[trigger] runs[k].text[t])
                == cells[runs[k].start_col + t].c && runs[k].fg == cells[runs[k].start_col + t].fg by {
                if k < m {
                    assert(runs[k] == prefix[k]);
                } else {
                    assert(runs[k].text[t] == c.c);
                }
            }
        }
    }
}

/// Every run of a row of well-formed cells carries a well-formed
/// foreground color: it is the color of the run's first cell.
pub proof fn lemma_runs_fg_wf(cells: Seq<Cell>, runs: Seq<RunV>)
    requires
        runs == runs_spec(cells),
        forall|j: int| 0 <= j < cells.len() ==> (#[trigger] cells[j]).wf(),
    ensures
        forall|t: int| 0 <= t < runs.len() ==> (#[trigger] runs[t]).fg.wf(),
{
    lemma_runs_spec_props(cells);
    assert forall|t: int| 0 <= t < runs.len() implies (#[trigger] runs[t]).fg.wf() by {
        assert(runs_spec(cells)[t].text.len() > 0);
        assert(runs_spec(cells)[t].text[0] == cells[runs_spec(cells)[t].start_col + 0].c
            && runs_spec(cells)[t].fg == cells[runs_spec(cells)[t].start_col + 0].fg);
    }
}

/// Builds the color runs of one row of cells.
pub fn color_runs(cells: &Vec<Cell>) -> (r: Vec<ColorRun>)
    ensures
        r@.map_values(|cr: ColorRun| cr@) == runs_spec(cells@),
{
    let mut runs: Vec<ColorRun> = Vec::new();
    let mut i: usize = 0;
    proof {
        assert(cells@.take(0) =~= Seq::<Cell>::empty());
        assert(runs@.map_values(|cr: ColorRun| cr@) =~= Seq::<RunV>::empty());
    }
    while i < cells.len()
        invariant
            i <= cells@.len(),
            runs@.map_values(|cr: ColorRun| cr@) == runs_spec(cells@.take(i as int)),
        decreases cells@.len() - i,
    {
        let ghost pre_runs = runs@.map_values(|cr: ColorRun| cr@);
        let fg = cells[i].fg;
        let ch = cells[i].c;
        let n = runs.len();
        proof {
            assert(cells@.take(i + 1).drop_last() =~= cells@.take(i as int));
            assert(cells@.take(i + 1).last() == cells@[i as int]);
        }
        if n > 0 && runs[n - 1].fg == fg {
            runs[n - 1].text.push(ch);
            proof {
                assert(runs@.map_values(|cr: ColorRun| cr@) =~= pre_runs.update(
                    n - 1,
                    RunV { text: pre_runs.last().text.push(ch), ..pre_runs.last() },
                ));
            }
        } else {
            let mut text: Vec<char> = Vec::new();
            text.push(ch);
            runs.push(ColorRun { text, fg, start_col: i });
            proof {
                assert(text@ =~= seq![ch]);
                assert(runs@.map_values(|cr: ColorRun| cr@) =~= pre_runs.push(
                    RunV { text: seq![ch], fg: fg, start_col: i as int },
                ));
            }
        }
        i = i + 1;
    }
    proof {
        assert(cells@.take(cells@.len() as int) =~= cells@);
    }
    runs
}

/// The width of the cluster a glyph starts: how many source characters the
/// shaping engine collapsed into it, read off the next glyph's cluster
/// index; the last glyph of a run, or a glyph whose successor does not
/// advance the cluster, counts as width 1.
pub open spec fn cluster_width(records: Seq<GlyphRecord>, j: int) -> int {
    if j + 1 < records.len() && records[j + 1].cluster > records[j].cluster {
        records[j + 1].cluster - records[j].cluster
    } else {
        1
    }
}

/// Numerator of the render scale for a glyph of the given cluster width.
pub open spec fn glyph_scale_num(w: int) -> u64 {
    if w > 1 {
        10
    } else {
        1
    }
}

/// Denominator of the render scale for a glyph of the given cluster width:
/// `10 / (9 + w)` is exactly `1 / (1 + 0.1 * (w - 1))`.
pub open spec fn glyph_scale_den(w: int) -> u64
    recommends
        1 <= w <= u32::MAX,
{
    if w > 1 {
        (9 + w) as u64
    } else {
        1
    }
}

/// Where and how one run's glyphs are drawn: glyph `j` sits at cell
/// `start_col + j`, shifted by its sub-pixel offsets, scaled by the cluster
/// heuristic, in the run's resolved foreground color.
pub open spec fn place_spec(
    records: Seq<GlyphRecord>,
    start_col: int,
    line: int,
    cell_w: int,
    cell_h: int,
    fg: RGBA,
) -> Seq<DrawCmd>
    recommends
        0 <= start_col,
        start_col + records.len() <= 0x0fff_ffff,
        0 <= line < 0x0fff_ffff,
        1 <= cell_w <= 0xffff,
        1 <= cell_h <= 0xffff,
{
    Seq::new(
        records.len(),
        |j: int|
            {
                let w = cluster_width(records, j);
                DrawCmd {
                    glyph_id: records[j].glyph_id,
                    x: ((start_col + j) * cell_w * 64 + records[j].x_offset) as i64,
                    y: ((line + 1) * cell_h * 64 + records[j].y_offset) as i64,
                    scale_num: glyph_scale_num(w),
                    scale_den: glyph_scale_den(w),
                    fg: fg,
                }
            },
    )
}

/// The glyph cluster scaling law: a glyph that collapses `w > 1` source
/// characters is scaled by exactly `10 / (9 + w)`, the rational form of
/// `1 / (1 + 0.1 * (w - 1))`; every other glyph keeps scale 1.
pub proof fn lemma_cluster_scale(records: Seq<GlyphRecord>, start_col: int, line: int, cell_w: int, cell_h: int, fg: RGBA, j: int)
    requires
        0 <= j < records.len(),
    ensures
        ({
            let cmd = place_spec(records, start_col, line, cell_w, cell_h, fg)[j];
            let w = cluster_width(records, j);
            &&& 1 <= w
            &&& w > 1 ==> cmd.scale_num == 10 && cmd.scale_den == 9 + w
            &&& w <= 1 ==> cmd.scale_num == 1 && cmd.scale_den == 1
        }),
{
}

/// The glyph batcher over one terminal's committed rows.
#[derive(Debug)]
pub struct Renderer {
    /// Width of the render surface in pixels.
    pub max_x: u32,
    /// Height of the render surface in pixels.
    pub max_y: u32,
    /// Width of one character cell in pixels.
    pub cell_width: u32,
    /// Height of one character cell in pixels.
    pub cell_height: u32,
    /// The 16-entry base colorscheme colors are resolved against.
    pub colorscheme: [RGBA; 16],
}

impl Renderer {
    /// Cell metrics stay in a sane pixel range.
    pub open spec fn wf(self) -> bool {
        &&& 1 <= self.cell_width <= 0xffff
        &&& 1 <= self.cell_height <= 0xffff
    }

    /// Builds a batcher for the given surface and cell metrics.
    pub fn new(max_x: u32, max_y: u32, cell_width: u32, cell_height: u32, colorscheme: [RGBA; 16]) -> (r: Renderer)
        requires
            1 <= cell_width <= 0xffff,
            1 <= cell_height <= 0xffff,
        ensures
            r == (Renderer { max_x, max_y, cell_width, cell_height, colorscheme }),
            r.wf(),
    {
        Renderer { max_x, max_y, cell_width, cell_height, colorscheme }
    }

    /// Records a new surface size.
    pub fn resize(&mut self, max_x: u32, max_y: u32)
        requires
            old(self).wf(),
        ensures
            *final(self) == (Renderer { max_x, max_y, ..*old(self) }),
            final(self).wf(),
    {
        self.max_x = max_x;
        self.max_y = max_y;
    }

    /// Resolves a cell color against the batcher's colorscheme.
    pub fn to_rgba(&self, color: Color) -> (r: RGBA)
        requires
            color.wf(),
        ensures
            r == resolve_spec(color, self.colorscheme@),
    {
        resolve(color, &self.colorscheme)
    }

    /// Lays out one shaped run: one draw instruction per glyph record, at
    /// the position, scale and color the placement law dictates.
    pub fn place_run(&self, records: &Vec<GlyphRecord>, start_col: usize, line: usize, fg: RGBA) -> (r: Vec<DrawCmd>)
        requires
            self.wf(),
            start_col + records@.len() <= 0x0fff_ffff,
            line < 0x0fff_ffff,
        ensures
            r@ == place_spec(
                records@,
                start_col as int,
                line as int,
                self.cell_width as int,
                self.cell_height as int,
                fg,
            ),
    {
        let mut out: Vec<DrawCmd> = Vec::new();
        let mut j: usize = 0;
        while j < records.len()
            invariant
                self.wf(),
                start_col + records@.len() <= 0x0fff_ffff,
                line < 0x0fff_ffff,
                j <= records@.len(),
                out@.len() == j,
                forall|t: int|
                    0 <= t < j ==> out@[t] == place_spec(
                        records@,
                        start_col as int,
                        line as int,
                        self.cell_width as int,
                        self.cell_height as int,
                        fg,
                    )[t],
            decreases records@.len() - j,
        {
            let rec = records[j];
            let w: u64 = if j + 1 < records.len() && records[j + 1].cluster > rec.cluster {
                (records[j + 1].cluster - rec.cluster) as u64
            } else {
                1
            };
            let (num, den): (u64, u64) = if w > 1 {
                (10, 9 + w)
            } else {
                (1, 1)
            };
            let a: i64 = (start_col + j) as i64;
            let cw: i64 = self.cell_width as i64;
            let b: i64 = (line + 1) as i64;
            let chh: i64 = self.cell_height as i64;
            proof {
                assert(0 <= a * cw <= 0x0fff_ffff * 0xffff) by (nonlinear_arith)
                    requires
                        0 <= a <= 0x0fff_ffff,
                        0 <= cw <= 0xffff,
                ;
                assert(0 <= b * chh <= 0x0fff_ffff * 0xffff) by (nonlinear_arith)
                    requires
                        0 <= b <= 0x0fff_ffff,
                        0 <= chh <= 0xffff,
                ;
            }
            let x: i64 = a * cw * 64 + (rec.x_offset as i64);
            let y: i64 = b * chh * 64 + (rec.y_offset as i64);
            out.push(
                DrawCmd { glyph_id: rec.glyph_id, x, y, scale_num: num, scale_den: den, fg },
            );
            j = j + 1;
        }
        proof {
            assert(out@ =~= place_spec(
                records@,
                start_col as int,
                line as int,
                self.cell_width as int,
                self.cell_height as int,
                fg,
            ));
        }
        out
    }
}

/// Declares harfbuzz_rs::Font, the shaping engine's font handle, so that it
/// can be carried through signatures; its value stays opaque here.
#[verifier::external_type_specification]
#[verifier::external_body]
pub struct ExHbFont<'a>(harfbuzz_rs::Font<'a>);

/// Relies on harfbuzz_rs::shape: shapes one text run with the `liga` and
/// `calt` features enabled and reports, per output glyph, its glyph
/// identifier, cluster index, and 26.6 fixed-point offsets and advances.
/// Nothing is assumed here of what comes back; the verified placement takes
/// the records as they are.
#[verifier::external_body]
fn shape_run(font: &harfbuzz_rs::Font<'_>, text: &Vec<char>) -> (r: Vec<GlyphRecord>) {
    let s: String = text.iter().collect();
    let buffer = harfbuzz_rs::UnicodeBuffer::new().add_str(&s).guess_segment_properties();
    let features = [
        harfbuzz_rs::Feature::new(harfbuzz_rs::Tag::new('l', 'i', 'g', 'a'), 1, 0..),
        harfbuzz_rs::Feature::new(harfbuzz_rs::Tag::new('c', 'a', 'l', 't'), 1, 0..),
    ];
    let out = harfbuzz_rs::shape(font, buffer, &features);
    out.get_glyph_positions().iter().zip(out.get_glyph_infos()).map(
        |(p, i)| GlyphRecord {
            glyph_id: i.codepoint, cluster: i.cluster, x_offset: p.x_offset,
            y_offset: p.y_offset, x_advance: p.x_advance, y_advance: p.y_advance,
        },
    ).collect()
}

/// A flat sequence of draw instructions from per-run batches, in order.
pub open spec fn concat_cmds(seqs: Seq<Seq<DrawCmd>>) -> Seq<DrawCmd>
    decreases seqs.len(),
{
    if seqs.len() == 0 {
        Seq::empty()
    } else {
        concat_cmds(seqs.drop_last()) + seqs.last()
    }
}

/// The draw instructions of one row, given the glyph records the shaping
/// engine produced for each of its color runs: each run's records placed by
/// the placement law, in run order, in the run's resolved foreground color.
pub open spec fn line_cmds_spec(
    cell_w: int,
    cell_h: int,
    scheme: Seq<RGBA>,
    cells: Seq<Cell>,
    line: int,
    recs: Seq<Seq<GlyphRecord>>,
) -> Seq<DrawCmd> {
    let runs = runs_spec(cells);
    concat_cmds(
        Seq::new(
            runs.len(),
            |k: int|
                place_spec(
                    recs[k],
                    runs[k].start_col,
                    line,
                    cell_w,
                    cell_h,
                    resolve_spec(runs[k].fg, scheme),
                ),
        ),
    )
}

/// The draw instructions of a whole viewport, row by row.
pub open spec fn screen_cmds_spec(
    cell_w: int,
    cell_h: int,
    scheme: Seq<RGBA>,
    g: crate::grid::GridV,
    recss: Seq<Seq<Seq<GlyphRecord>>>,
) -> Seq<DrawCmd> {
    concat_cmds(
        Seq::new(
            g.max_row as nat,
            |i: int| line_cmds_spec(cell_w, cell_h, scheme, g.visible(i).cells, i, recss[i]),
        ),
    )
}

impl Renderer {
    /// Batches one committed row: coalesces its color runs, shapes each run
    /// as one unit, and places the shaped glyphs. Whatever glyph records the
    /// shaping engine hands back, the result is exactly their placement
    /// under the placement law, run by run.
    #[verifier::rlimit(100)]
    pub fn render_line(&self, row: &Row, line: usize, font: &harfbuzz_rs::Font<'_>) -> (r: Vec<
        DrawCmd,
    >)
        requires
            self.wf(),
            line < 0x0fff_ffff,
            row@.cells.len() <= 0x0fff_ffff,
            forall|j: int| 0 <= j < row@.cells.len() ==> (#[trigger] row@.cells[j]).wf(),
        ensures
            exists|recs: Seq<Seq<GlyphRecord>>|
                r@ == line_cmds_spec(
                    self.cell_width as int,
                    self.cell_height as int,
                    self.colorscheme@,
                    row@.cells,
                    line as int,
                    recs,
                ),
    {
        let ghost runsv = runs_spec(row@.cells);
        proof {
            lemma_runs_fg_wf(row@.cells, runsv);
        }
        let runs = color_runs(&row.cells);
        let mut out: Vec<DrawCmd> = Vec::new();
        let ghost mut recs: Seq<Seq<GlyphRecord>> = Seq::empty();
        let ghost mut parts: Seq<Seq<DrawCmd>> = Seq::empty();
        let mut k: usize = 0;
        while k < runs.len()
            invariant
                self.wf(),
                line < 0x0fff_ffff,
                k <= runs@.len(),
                runs@.map_values(|cr: ColorRun| cr@) == runsv,
                forall|t: int| 0 <= t < runsv.len() ==> (#[trigger] runsv[t]).fg.wf(),
                recs.len() == k,
                parts.len() == k,
                out@ == concat_cmds(parts),
                forall|t: int|
                    0 <= t < k ==> #[trigger] parts[t] == place_spec(
                        recs[t],
                        runsv[t].start_col,
                        line as int,
                        self.cell_width as int,
                        self.cell_height as int,
                        resolve_spec(runsv[t].fg, self.colorscheme@),
                    ),
            decreases runs@.len() - k,
        {
            let shaped = shape_run(font, &runs[k].text);
            let fg_rgba = self.to_rgba(runs[k].fg);
            let start_col = runs[k].start_col;
            let fits = shaped.len() <= 0x0fff_ffff && start_col <= 0x0fff_ffff - shaped.len();
            let mut placed = if fits {
                self.place_run(&shaped, start_col, line, fg_rgba)
            } else {
                Vec::new()
            };
            proof {
                let used: Seq<GlyphRecord> = if fits {
                    shaped@
                } else {
                    Seq::empty()
                };
                if !fits {
                    assert(placed@ =~= place_spec(
                        used,
                        runsv[k as int].start_col,
                        line as int,
                        self.cell_width as int,
                        self.cell_height as int,
                        resolve_spec(runsv[k as int].fg, self.colorscheme@),
                    ));
                }
                let ghost parts0 = parts;
                recs = recs.push(used);
                parts = parts.push(placed@);
                assert(parts.drop_last() =~= parts0);
                assert(concat_cmds(parts) == concat_cmds(parts0) + placed@);
            }
            out.append(&mut placed);
            k = k + 1;
        }
        proof {
            assert(parts =~= Seq::new(
                runsv.len(),
                |t: int|
                    place_spec(
                        recs[t],
                        runsv[t].start_col,
                        line as int,
                        self.cell_width as int,
                        self.cell_height as int,
                        resolve_spec(runsv[t].fg, self.colorscheme@),
                    ),
            ));
            assert(out@ == line_cmds_spec(
                self.cell_width as int,
                self.cell_height as int,
                self.colorscheme@,
                row@.cells,
                line as int,
                recs,
            ));
        }
        out
    }

    /// Batches every committed viewport row, oldest to newest. The batcher
    /// only ever reads the grid: a caller that wants a fully-flushed picture
    /// flushes the write queue first.
    pub fn prepare_render(&self, grid: &Grid, font: &harfbuzz_rs::Font<'_>) -> (r: Vec<DrawCmd>)
        requires
            self.wf(),
            grid@.wf(),
        ensures
            exists|recss: Seq<Seq<Seq<GlyphRecord>>>|
                r@ == screen_cmds_spec(
                    self.cell_width as int,
                    self.cell_height as int,
                    self.colorscheme@,
                    grid@,
                    recss,
                ),
    {
        let mut out: Vec<DrawCmd> = Vec::new();
        let ghost mut recss: Seq<Seq<Seq<GlyphRecord>>> = Seq::empty();
        let ghost mut parts: Seq<Seq<DrawCmd>> = Seq::empty();
        let mut i: usize = 0;
        while i < grid.max_row
            invariant
                self.wf(),
                grid@.wf(),
                i <= grid@.max_row,
                grid.max_row == grid@.max_row,
                recss.len() == i,
                parts.len() == i,
                out@ == concat_cmds(parts),
                forall|t: int|
                    0 <= t < i ==> #[trigger] parts[t] == line_cmds_spec(
                        self.cell_width as int,
                        self.cell_height as int,
                        self.colorscheme@,
                        grid@.visible(t).cells,
                        t,
                        recss[t],
                    ),
            decreases grid@.max_row - i,
        {
            let row = grid.row(i);
            proof {
                assert(grid@.rows[grid@.hist() + i].wf(grid@.max_col));
            }
            let mut cmds = self.render_line(row, i, font);
            proof {
                let rc = choose|rc: Seq<Seq<GlyphRecord>>|
                    cmds@ == line_cmds_spec(
                        self.cell_width as int,
                        self.cell_height as int,
                        self.colorscheme@,
                        grid@.visible(i as int).cells,
                        i as int,
                        rc,
                    );
                let ghost parts0 = parts;
                recss = recss.push(rc);
                parts = parts.push(cmds@);
                assert(parts.drop_last() =~= parts0);
                assert(concat_cmds(parts) == concat_cmds(parts0) + cmds@);
            }
            out.append(&mut cmds);
            i = i + 1;
        }
        proof {
            assert(parts =~= Seq::new(
                grid@.max_row as nat,
                |t: int|
                    line_cmds_spec(
                        self.cell_width as int,
                        self.cell_height as int,
                        self.colorscheme@,
                        grid@.visible(t).cells,
                        t,
                        recss[t],
                    ),
            ));
            assert(out@ == screen_cmds_spec(
                self.cell_width as int,
                self.cell_height as int,
                self.colorscheme@,
                grid@,
                recss,
            ));
        }
        out
    }
}

} // verus!
