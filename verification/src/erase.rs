//! The erase engine: range-based cell clearing over the grid, either
//! unconditional or selective. A selective scan stops at the first protected
//! cell it meets rather than skipping over it, so a single protected cell
//! halts erasure of everything past it in the scanned range.

use vstd::prelude::*;

use crate::cell::Cell;
use crate::grid::Grid;
use crate::grid::GridV;
use crate::grid::RowV;

verus! {

/// Which cells an erase may clear: every cell in range, or only the
/// erasable prefix of the range (stopping at the first protected cell).
#[derive(Clone, Copy, Debug, PartialEq, Eq, Structural)]
pub enum EraseKind {
    Unconditional,
    Selective,
}

impl EraseKind {
    /// Whether this kind respects protected cells.
    pub open spec fn is_selective(self) -> bool {
        self == EraseKind::Selective
    }
}

/// The first position in `[i, end)` holding a protected cell, or `end` when
/// every cell in the range is erasable.
pub open spec fn stop_col(cells: Seq<Cell>, i: int, end: int) -> int
    recommends
        0 <= i,
        end <= cells.len(),
    decreases end - i,
{
    if i >= end {
        end
    } else if !cells[i].erasable {
        i
    } else {
        stop_col(cells, i + 1, end)
    }
}

/// A row after erasing the column range `[start, end)`: the range end is
/// clamped to the row, a selective erase stops at the first protected cell,
/// and every cleared cell becomes a dirty space in default colors.
pub open spec fn erase_row_range_spec(
    cells: Seq<Cell>,
    start: int,
    end: int,
    selective: bool,
) -> Seq<Cell> {
    let end2 = if end > cells.len() {
        cells.len() as int
    } else {
        end
    };
    let stop = if selective {
        stop_col(cells, start, end2)
    } else {
        end2
    };
    Seq::new(
        cells.len(),
        |j: int|
            if start <= j < stop {
                cells[j].erased_spec()
            } else {
                cells[j]
            },
    )
}

impl GridV {
    /// The grid after erasing the column range `[start, end)` of one
    /// viewport row; a line index beyond the viewport is a no-op.
    pub open spec fn erase_line_range(self, line: int, start: int, end: int, selective: bool) -> GridV {
        if line >= self.max_row {
            self
        } else {
            let idx = self.hist() + line;
            let row = self.rows[idx];
            let row2 = RowV {
                cells: erase_row_range_spec(row.cells, start, end, selective),
                high_water: row.high_water,
            };
            GridV { rows: self.rows.update(idx, row2), ..self }
        }
    }

    /// The grid after erasing one whole viewport row.
    pub open spec fn erase_line_full(self, line: int, selective: bool) -> GridV {
        self.erase_line_range(line, 0, self.max_col, selective)
    }

    /// The grid after erasing every whole viewport row in `[start, end)`.
    pub open spec fn erase_rows(self, start: int, end: int, selective: bool) -> GridV
        decreases end - start,
    {
        if start >= end {
            self
        } else {
            self.erase_line_full(start, selective).erase_rows(start + 1, end, selective)
        }
    }
}

/// A scan that saw only erasable cells up to `k` and is stopped at `k` (by
/// the range end or by a protected cell) pins the stop position down.
pub proof fn lemma_stop_col(cells: Seq<Cell>, start: int, end: int, k: int)
    requires
        0 <= start <= k <= end <= cells.len(),
        forall|j: int| start <= j < k ==> (#[trigger] cells[j]).erasable,
        k == end || !cells[k].erasable,
    ensures
        stop_col(cells, start, end) == k,
    decreases k - start,
{
    if start < k {
        lemma_stop_col(cells, start + 1, end, k);
    }
}

impl Grid {
    /// Clears the cell at viewport row index `idx` (absolute in `rows`),
    /// column `i`, to a dirty space in default colors.
    fn erase_cell_at(&mut self, idx: usize, i: usize)
        requires
            idx < old(self)@.rows.len(),
            i < old(self)@.rows[idx as int].cells.len(),
        ensures
            final(self)@ == (GridV {
                rows: old(self)@.rows.update(
                    idx as int,
                    RowV {
                        cells: old(self)@.rows[idx as int].cells.update(
                            i as int,
                            old(self)@.rows[idx as int].cells[i as int].erased_spec(),
                        ),
                        high_water: old(self)@.rows[idx as int].high_water,
                    },
                ),
                ..old(self)@
            }),
    {
        let cell = &mut self.rows[idx].cells[i];
        cell.c = ' ';
        cell.fg = crate::color::Color::BasePalette(7);
        cell.bg = crate::color::Color::BasePalette(0);
        cell.attr = crate::color::Attribute::normal();
        cell.dirty = true;
        proof {
            assert(self@.rows =~= old(self)@.rows.update(
                idx as int,
                RowV {
                    cells: old(self)@.rows[idx as int].cells.update(
                        i as int,
                        old(self)@.rows[idx as int].cells[i as int].erased_spec(),
                    ),
                    high_water: old(self)@.rows[idx as int].high_water,
                },
            ));
        }
    }

    /// Erases the column range `[start, end)` of one viewport row. The range
    /// end is clamped to the row; a line index beyond the viewport is a
    /// no-op; a selective erase stops at the first protected cell.
    pub fn erase_line_range(&mut self, line: usize, start: usize, end: usize, kind: EraseKind)
        requires
            old(self)@.wf(),
        ensures
            final(self)@ == old(self)@.erase_line_range(
                line as int,
                start as int,
                end as int,
                kind.is_selective(),
            ),
            final(self)@.wf(),
    {
        if line >= self.max_row {
            return ;
        }
        let hist = self.rows.len() - self.max_row;
        let idx = hist + line;
        let ghost cells0 = self@.rows[idx as int].cells;
        let len = self.rows[idx].cells.len();
        let end2 = if end > len {
            len
        } else {
            end
        };
        let selective = match kind {
            EraseKind::Selective => true,
            EraseKind::Unconditional => false,
        };
        let mut i = start;
        proof {
            assert(Seq::new(
                cells0.len(),
                |j: int|
                    if start <= j < start {
                        cells0[j].erased_spec()
                    } else {
                        cells0[j]
                    },
            ) =~= cells0);
            assert(old(self)@.rows[idx as int] == RowV {
                cells: cells0,
                high_water: old(self)@.rows[idx as int].high_water,
            });
            assert(old(self)@.rows.update(
                idx as int,
                RowV { cells: cells0, high_water: old(self)@.rows[idx as int].high_water },
            ) =~= old(self)@.rows);
        }
        while i < end2
            invariant
                old(self)@.wf(),
                start <= i,
                i <= end2 || i == start,
                end2 <= cells0.len(),
                len == cells0.len(),
                end2 == (if end > len {
                    len
                } else {
                    end
                }),
                self@.rows.len() == old(self)@.rows.len(),
                self@.rows[idx as int].cells.len() == cells0.len(),
                idx == old(self)@.hist() + line,
                0 <= idx < old(self)@.rows.len(),
                cells0 == old(self)@.rows[idx as int].cells,
                selective == kind.is_selective(),
                forall|j: int| start <= j < i ==> (#[trigger] cells0[j]).erasable || !selective,
                self@ == (GridV {
                    rows: old(self)@.rows.update(
                        idx as int,
                        RowV {
                            cells: Seq::new(
                                cells0.len(),
                                |j: int|
                                    if start <= j < i {
                                        cells0[j].erased_spec()
                                    } else {
                                        cells0[j]
                                    },
                            ),
                            high_water: old(self)@.rows[idx as int].high_water,
                        },
                    ),
                    ..old(self)@
                }),
            decreases end2 - i,
        {
            proof {
                assert(self@.rows[idx as int].cells[i as int] == cells0[i as int]);
            }
            if selective && !self.rows[idx].cells[i].erasable {
                proof {
                    lemma_stop_col(cells0, start as int, end2 as int, i as int);
                    lemma_erase_line_finish(old(self)@, self@, line as int, start as int, end as int, i as int, selective);
                }
                return ;
            }
            self.erase_cell_at(idx, i);
            proof {
                assert(self@.rows[idx as int].cells =~= Seq::new(
                    cells0.len(),
                    |j: int|
                        if start <= j < i + 1 {
                            cells0[j].erased_spec()
                        } else {
                            cells0[j]
                        },
                ));
                assert(self@.rows =~= (GridV {
                    rows: old(self)@.rows.update(
                        idx as int,
                        RowV {
                            cells: Seq::new(
                                cells0.len(),
                                |j: int|
                                    if start <= j < i + 1 {
                                        cells0[j].erased_spec()
                                    } else {
                                        cells0[j]
                                    },
                            ),
                            high_water: old(self)@.rows[idx as int].high_water,
                        },
                    ),
                    ..old(self)@
                }).rows);
            }
            i = i + 1;
        }
        proof {
            let end2i: int = end2 as int;
            let ii: int = i as int;
            if start > end2 {
                assert(Seq::new(
                    cells0.len(),
                    |j: int|
                        if start <= j < ii {
                            cells0[j].erased_spec()
                        } else {
                            cells0[j]
                        },
                ) =~= Seq::new(
                    cells0.len(),
                    |j: int|
                        if start <= j < end2i {
                            cells0[j].erased_spec()
                        } else {
                            cells0[j]
                        },
                ));
                assert(self@.rows =~= (GridV {
                    rows: old(self)@.rows.update(
                        idx as int,
                        RowV {
                            cells: Seq::new(
                                cells0.len(),
                                |j: int|
                                    if start <= j < end2i {
                                        cells0[j].erased_spec()
                                    } else {
                                        cells0[j]
                                    },
                            ),
                            high_water: old(self)@.rows[idx as int].high_water,
                        },
                    ),
                    ..old(self)@
                }).rows);
                lemma_erase_line_finish(old(self)@, self@, line as int, start as int, end as int, end2i, selective);
            } else {
                if selective {
                    lemma_stop_col(cells0, start as int, end2i, ii);
                }
                lemma_erase_line_finish(old(self)@, self@, line as int, start as int, end as int, ii, selective);
            }
        }
    }
}

impl Grid {
    /// Erases every whole viewport row in `[start, end)`; rows beyond the
    /// viewport are skipped, and a selective erase stops per row at the
    /// first protected cell.
    pub fn erase_rows_range(&mut self, start: usize, end: usize, kind: EraseKind)
        requires
            old(self)@.wf(),
        ensures
            final(self)@ == old(self)@.erase_rows(start as int, end as int, kind.is_selective()),
            final(self)@.wf(),
    {
        let lim = if end > self.max_row {
            self.max_row
        } else {
            end
        };
        let mut i = start;
        while i < lim
            invariant
                old(self)@.wf(),
                self@.wf(),
                start <= i,
                i <= lim || i == start,
                lim <= old(self)@.max_row,
                lim == (if end > old(self)@.max_row {
                    old(self)@.max_row
                } else {
                    end as int
                }),
                self@.max_row == old(self)@.max_row,
                self@.max_col == old(self)@.max_col,
                self@ == old(self)@.erase_rows(start as int, i as int, kind.is_selective()),
            decreases lim - i,
        {
            self.erase_line_range(i, 0, self.max_col, kind);
            proof {
                lemma_erase_rows_snoc(old(self)@, start as int, i + 1, kind.is_selective());
            }
            i = i + 1;
        }
        proof {
            let sel = kind.is_selective();
            let g0 = old(self)@;
            if i == lim && start <= lim {
                if end > lim {
                    lemma_erase_rows_split(g0, start as int, lim as int, end as int, sel);
                    lemma_erase_rows_past(g0.erase_rows(start as int, lim as int, sel), lim as int, end as int, sel);
                }
            } else {
                if (start as int) < (end as int) {
                    lemma_erase_rows_past(g0, start as int, end as int, sel);
                }
            }
        }
    }
}

/// Erasing one more row extends a row-range erase at its end.
pub proof fn lemma_erase_rows_snoc(g: GridV, start: int, end: int, selective: bool)
    requires
        start < end,
    ensures
        g.erase_rows(start, end, selective) == g.erase_rows(start, end - 1, selective).erase_line_full(end - 1, selective),
    decreases end - start,
{
    assert(g.erase_rows(start, end, selective) == g.erase_line_full(start, selective).erase_rows(
        start + 1,
        end,
        selective,
    ));
    if start < end - 1 {
        lemma_erase_rows_snoc(g.erase_line_full(start, selective), start + 1, end, selective);
        assert(g.erase_rows(start, end - 1, selective) == g.erase_line_full(start, selective).erase_rows(
            start + 1,
            end - 1,
            selective,
        ));
    } else {
        assert(g.erase_line_full(start, selective).erase_rows(start + 1, end, selective)
            == g.erase_line_full(start, selective));
        assert(g.erase_rows(start, end - 1, selective) == g);
    }
}

/// A row-range erase splits at any midpoint.
pub proof fn lemma_erase_rows_split(g: GridV, start: int, mid: int, end: int, selective: bool)
    requires
        start <= mid <= end,
    ensures
        g.erase_rows(start, end, selective) == g.erase_rows(start, mid, selective).erase_rows(mid, end, selective),
    decreases mid - start,
{
    if start < mid {
        assert(g.erase_rows(start, end, selective) == g.erase_line_full(start, selective).erase_rows(
            start + 1,
            end,
            selective,
        ));
        assert(g.erase_rows(start, mid, selective) == g.erase_line_full(start, selective).erase_rows(
            start + 1,
            mid,
            selective,
        ));
        lemma_erase_rows_split(g.erase_line_full(start, selective), start + 1, mid, end, selective);
    } else {
        assert(g.erase_rows(start, mid, selective) == g);
    }
}

/// Erasing rows entirely beyond the viewport changes nothing.
pub proof fn lemma_erase_rows_past(g: GridV, start: int, end: int, selective: bool)
    requires
        start >= g.max_row,
    ensures
        g.erase_rows(start, end, selective) == g,
    decreases end - start,
{
    if start < end {
        assert(g.erase_line_full(start, selective) == g);
        lemma_erase_rows_past(g, start + 1, end, selective);
    }
}

/// Ties the loop's partial-erase picture to the erase-line specification,
/// once the stop position is known.
proof fn lemma_erase_line_finish(
    g0: GridV,
    g1: GridV,
    line: int,
    start: int,
    end: int,
    stop: int,
    selective: bool,
)
    requires
        g0.wf(),
        0 <= line < g0.max_row,
        0 <= start,
        g1.max_row == g0.max_row,
        g1.max_col == g0.max_col,
        g1.history_cap == g0.history_cap,
        g1.display_offset == g0.display_offset,
        g1.cursor == g0.cursor,
        g1.saved_cursor == g0.saved_cursor,
        g1.rows.len() == g0.rows.len(),
        ({
            let idx = g0.hist() + line;
            let cells0 = g0.rows[idx].cells;
            let end2 = if end > cells0.len() {
                cells0.len() as int
            } else {
                end
            };
            &&& (if selective {
                stop_col(cells0, start, end2) == stop
            } else {
                stop == end2
            })
            &&& forall|r: int| 0 <= r < g1.rows.len() && r != idx ==> g1.rows[r] == g0.rows[r]
            &&& g1.rows[idx].high_water == g0.rows[idx].high_water
            &&& g1.rows[idx].cells.len() == cells0.len()
            &&& forall|j: int|
                0 <= j < cells0.len() ==> g1.rows[idx].cells[j] == (if start <= j < stop {
                    (#[trigger] cells0[j]).erased_spec()
                } else {
                    cells0[j]
                })
        }),
    ensures
        g1 == g0.erase_line_range(line, start, end, selective),
        g1.wf(),
{
    let idx = g0.hist() + line;
    let cells0 = g0.rows[idx].cells;
    assert(g1.rows[idx].cells =~= erase_row_range_spec(cells0, start, end, selective));
    assert(g1.rows[idx] == g0.erase_line_range(line, start, end, selective).rows[idx]);
    assert(g1.rows =~= g0.erase_line_range(line, start, end, selective).rows);
    assert forall|i: int| 0 <= i < g1.rows.len() implies (#[trigger] g1.rows[i]).wf(g1.max_col) by {
        if i != idx {
            assert(g1.rows[i] == g0.rows[i]);
        } else {
            assert forall|j: int| 0 <= j < g1.rows[i].cells.len() implies (#[trigger] g1.rows[i].cells[j]).wf() by {
                assert(cells0[j].wf());
            }
        }
    }
}

} // verus!
