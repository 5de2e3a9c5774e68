//! Laws that tie the components together: what printing, flushing, graphic
//! rendition, selective erase and scrolling guarantee in combination.

use vstd::prelude::*;

use crate::cell::Cell;
use crate::color::resolve_spec;
use crate::color::Color;
use crate::color::RGBA;
use crate::erase::erase_row_range_spec;
use crate::erase::lemma_stop_col;
use crate::grid::lemma_insert_all_no_wrap;
use crate::grid::lemma_insert_all_wf;
use crate::grid::lemma_scroll_wf;
use crate::grid::GridV;
use crate::rendition::apply_rendition;
use crate::rendition::Pen;
use crate::term::TermV;

verus! {

/// A sequence of print tokens processed in order.
pub open spec fn print_all(t: TermV, cs: Seq<char>) -> TermV
    decreases cs.len(),
{
    if cs.len() == 0 {
        t
    } else {
        print_all(t.print(cs.first()), cs.skip(1))
    }
}

/// Printing never touches the pen, the grid or the dark-mode flag: it only
/// appends to the write queue, one cell per character, each tagged with the
/// pen state at the moment it was printed.
pub proof fn lemma_print_preserves_pen(t: TermV, cs: Seq<char>)
    ensures
        ({
            let t1 = print_all(t, cs);
            &&& t1.pen == t.pen
            &&& t1.grid == t.grid
            &&& t1.dark_mode == t.dark_mode
            &&& t1.scheme == t.scheme
            &&& t1.queue == t.queue + cs.map_values(|c: char| TermV::tagged_cell(t.pen, c))
        }),
    decreases cs.len(),
{
    if cs.len() == 0 {
        assert(t.queue + cs.map_values(|c: char| TermV::tagged_cell(t.pen, c)) =~= t.queue);
    } else {
        let t0 = t.print(cs.first());
        lemma_print_preserves_pen(t0, cs.skip(1));
        assert(t0.queue + cs.skip(1).map_values(|c: char| TermV::tagged_cell(t0.pen, c)) =~= t.queue
            + cs.map_values(|c: char| TermV::tagged_cell(t.pen, c)));
    }
}

/// A graphic-rendition token commits the queued cells into the grid exactly
/// as they stand — with the pen tags they were printed under — empties the
/// queue, and only then changes the pen. The grid mutation depends on the
/// old queue alone, never on the new pen.
pub proof fn lemma_rendition_commits_queue(t: TermV, ps: Seq<i64>)
    requires
        t.wf(),
    ensures
        ({
            let t2 = t.flush().rendition(ps);
            &&& t2.grid == t.grid.insert_all(t.queue)
            &&& t2.queue.len() == 0
            &&& t2.pen == apply_rendition(t.pen, ps, t.dark_mode)
            &&& t2.wf()
        }),
{
    lemma_insert_all_wf(t.grid, t.queue);
    crate::rendition::lemma_apply_rendition_wf(t.pen, ps, t.dark_mode);
}

/// The flush-ordering law: for a sequence of print tokens followed by a
/// graphic-rendition change, every printed character is committed with the
/// colors and attributes in effect at the moment it was printed, not with
/// the new pen state. Stated here for a batch that fits in the cursor's row
/// without wrapping; the committed cells land in that row, after the cells
/// that were already queued, each exactly the pen-tagged snapshot of its
/// character.
pub proof fn lemma_flush_ordering(t: TermV, cs: Seq<char>, ps: Seq<i64>)
    requires
        t.wf(),
        t.grid.cursor.column + t.queue.len() + cs.len() <= t.grid.max_col,
    ensures
        ({
            let t2 = print_all(t, cs).flush().rendition(ps);
            let row = t2.grid.rows[t.grid.hist() + t.grid.cursor.line].cells;
            &&& t2.pen == apply_rendition(t.pen, ps, t.dark_mode)
            &&& forall|k: int|
                0 <= k < t.queue.len() ==> row[t.grid.cursor.column + k] == #[trigger] t.queue[k]
            &&& forall|k: int|
                0 <= k < cs.len() ==> row[t.grid.cursor.column + t.queue.len() + k]
                    == TermV::tagged_cell(t.pen, #[trigger] cs[k])
            &&& t2.wf()
        }),
{
    let t1 = print_all(t, cs);
    lemma_print_preserves_pen(t, cs);
    lemma_rendition_commits_queue(t1, ps);
    let data = t1.queue;
    assert forall|k: int| 0 <= k < data.len() implies (#[trigger] data[k]).wf() by {
        if k >= t.queue.len() {
            assert(data[k] == cs.map_values(|c: char| TermV::tagged_cell(t.pen, c))[k - t.queue.len()]);
        }
    }
    lemma_insert_all_no_wrap(t.grid, data);
    let t2 = t1.flush().rendition(ps);
    let idx = t.grid.hist() + t.grid.cursor.line;
    assert forall|k: int| 0 <= k < t.queue.len() implies t2.grid.rows[idx].cells[t.grid.cursor.column
        + k] == #[trigger] t.queue[k] by {
        assert(t2.grid.rows[idx].cells[t.grid.cursor.column + k] == data[k]);
    }
    assert forall|k: int| 0 <= k < cs.len() implies t2.grid.rows[idx].cells[t.grid.cursor.column
        + t.queue.len() + k] == TermV::tagged_cell(t.pen, #[trigger] cs[k]) by {
        assert(t2.grid.rows[idx].cells[t.grid.cursor.column + (t.queue.len() + k)] == data[t.queue.len() + k]);
        assert(data[t.queue.len() + k] == cs.map_values(|c: char| TermV::tagged_cell(t.pen, c))[k]);
    }
}

/// The flush-ordering law in full generality, wrap and scroll included:
/// after any sequence of print tokens and a flush, every cell of the grid is
/// a blank, a cell the grid held before, a cell that was already queued, or
/// the pen-tagged snapshot of one of the printed characters. The flush never
/// invents a cell and never retags one: a committed character can only carry
/// the pen state of the moment it was printed.
pub proof fn lemma_flush_ordering_general(t: TermV, cs: Seq<char>)
    requires
        t.wf(),
    ensures
        crate::grid::cells_covered_by(
            print_all(t, cs).flush().grid,
            t.grid,
            t.queue + cs.map_values(|c: char| TermV::tagged_cell(t.pen, c)),
        ),
{
    lemma_print_preserves_pen(t, cs);
    let t1 = print_all(t, cs);
    assert forall|k: int| 0 <= k < t1.queue.len() implies (#[trigger] t1.queue[k]).wf() by {
        if k >= t.queue.len() {
            assert(t1.queue[k] == cs.map_values(|c: char| TermV::tagged_cell(t.pen, c))[k
                - t.queue.len()]);
        }
    }
    crate::grid::lemma_insert_all_covered(t.grid, t1.queue);
}

/// The palette round-trip law: every base-palette code 30..=37 and 40..=47,
/// under either dark-mode value, resolves through the rendition state
/// machine and the color resolver to the colorscheme entry of the selected
/// palette half — deterministically and totally.
pub proof fn lemma_palette_round_trip(pen: Pen, code: i64, dark_mode: bool, scheme: Seq<RGBA>)
    requires
        scheme.len() == 16,
        30 <= code <= 37 || 40 <= code <= 47,
    ensures
        ({
            let p2 = apply_rendition(pen, seq![code], dark_mode);
            &&& 30 <= code <= 37 ==> {
                let idx: int = if dark_mode {
                    code - 30
                } else {
                    code - 30 + 8
                };
                p2.fg == Color::BasePalette(idx as u8) && resolve_spec(p2.fg, scheme)
                    == scheme[idx]
            }
            &&& 40 <= code <= 47 ==> {
                let idx: int = if dark_mode {
                    code - 40
                } else {
                    code - 40 + 8
                };
                p2.bg == Color::BasePalette(idx as u8) && resolve_spec(p2.bg, scheme)
                    == scheme[idx]
            }
        }),
{
    let vs: Seq<i64> = seq![code];
    assert(vs.len() == 1);
    assert(vs.first() == code);
    assert(vs.skip(1) =~= Seq::<i64>::empty());
    let p1 = crate::rendition::apply_one(pen, code, dark_mode);
    assert(apply_rendition(pen, vs, dark_mode) == crate::rendition::apply_short(
        pen,
        vs,
        dark_mode,
    ));
    assert(crate::rendition::apply_short(pen, vs, dark_mode) == crate::rendition::apply_short(
        p1,
        vs.skip(1),
        dark_mode,
    ));
    assert(crate::rendition::apply_short(p1, vs.skip(1), dark_mode) == p1);
}

/// The structured-reset law: applying an extended-palette selection
/// `[38, 5, N]` and then `[0]` leaves the whole pen at its defaults — the
/// reset always wins, whatever extended color was selected before, and
/// whether or not the index was even in palette range.
pub proof fn lemma_reset_after_extended(pen: Pen, n: i64, dark_mode: bool)
    ensures
        apply_rendition(apply_rendition(pen, seq![38i64, 5i64, n], dark_mode), seq![0i64], dark_mode)
            == Pen::default_spec(),
{
    let p1 = apply_rendition(pen, seq![38i64, 5i64, n], dark_mode);
    let vs: Seq<i64> = seq![0i64];
    assert(vs.len() == 1);
    assert(vs.first() == 0i64);
    assert(vs.skip(1) =~= Seq::<i64>::empty());
    let p2 = crate::rendition::apply_one(p1, 0i64, dark_mode);
    assert(p2 == Pen::default_spec());
    assert(apply_rendition(p1, vs, dark_mode) == crate::rendition::apply_short(p1, vs, dark_mode));
    assert(crate::rendition::apply_short(p1, vs, dark_mode) == crate::rendition::apply_short(
        p2,
        vs.skip(1),
        dark_mode,
    ));
    assert(crate::rendition::apply_short(p2, vs.skip(1), dark_mode) == p2);
}

/// The selective-erase stop law: in a row whose cells before column `k` are
/// erasable and whose cell at column `k` is protected, a selective erase of
/// the whole row from column 0 clears exactly the columns before `k` and
/// leaves every cell from `k` on untouched — including erasable cells past
/// the protected one.
pub proof fn lemma_selective_erase_stops(cells: Seq<Cell>, k: int)
    requires
        0 <= k < cells.len(),
        forall|j: int| 0 <= j < k ==> (#[trigger] cells[j]).erasable,
        !cells[k].erasable,
    ensures
        ({
            let r = erase_row_range_spec(cells, 0, cells.len() as int, true);
            &&& r.len() == cells.len()
            &&& forall|j: int| 0 <= j < k ==> #[trigger] r[j] == cells[j].erased_spec()
            &&& forall|j: int| k <= j < cells.len() ==> #[trigger] r[j] == cells[j]
        }),
{
    lemma_stop_col(cells, 0, cells.len() as int, k);
}

/// The scrollback-bound law: committing any batch of well-formed cells
/// keeps the retained history within its configured bound, and one scroll
/// past a full history evicts exactly the oldest retained row.
pub proof fn lemma_scrollback_bound(g: GridV, data: Seq<Cell>)
    requires
        g.wf(),
        forall|k: int| 0 <= k < data.len() ==> (#[trigger] data[k]).wf(),
    ensures
        g.insert_all(data).wf(),
        g.insert_all(data).hist() <= g.history_cap,
        g.hist() >= g.history_cap ==> g.scroll().rows == g.rows.push(
            crate::grid::RowV::blank(g.max_col),
        ).skip(1) && g.scroll().hist() == g.hist(),
        g.hist() < g.history_cap ==> g.scroll().rows == g.rows.push(
            crate::grid::RowV::blank(g.max_col),
        ) && g.scroll().hist() == g.hist() + 1,
{
    lemma_insert_all_wf(g, data);
    lemma_scroll_wf(g);
}

} // verus!
