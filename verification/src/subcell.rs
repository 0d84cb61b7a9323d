//! Sub-cell area fills drawn with eighth-block glyphs.
//!
//! A column of a filled area chart is measured in eighths of a cell from
//! the top of the plot.  Cells wholly inside the fill take a full block in
//! a gradient band chosen by their distance from the baseline; the one
//! boundary cell takes a partial lower block in the series line colour, so
//! the fill edge doubles as the stroke at eight times the vertical
//! resolution.  Downward fills need upper partial blocks, which the basic
//! block range lacks: they draw the complementary lower block with
//! foreground and background swapped.

use vstd::prelude::*;
use crate::chart_model::SeriesDirection;

verus! {

/// Eighths in one character row.
pub const EIGHTHS_PER_ROW: usize = 8;

/// The lower-block glyph covering `n` eighths of a cell, `n` from 0 to 8.
pub open spec fn spec_lower_block(n: int) -> Seq<char> {
    if n <= 0 {
        " "@
    } else if n == 1 {
        "▁"@
    } else if n == 2 {
        "▂"@
    } else if n == 3 {
        "▃"@
    } else if n == 4 {
        "▄"@
    } else if n == 5 {
        "▅"@
    } else if n == 6 {
        "▆"@
    } else if n == 7 {
        "▇"@
    } else {
        "█"@
    }
}

/// The lower-block glyph for `filled` eighths; eight or more is a full block.
pub fn glyph(filled: usize) -> (r: &'static str)
    ensures
        r@ == spec_lower_block(filled as int),
{
    if filled == 0 {
        " "
    } else if filled == 1 {
        "▁"
    } else if filled == 2 {
        "▂"
    } else if filled == 3 {
        "▃"
    } else if filled == 4 {
        "▄"
    } else if filled == 5 {
        "▅"
    } else if filled == 6 {
        "▆"
    } else if filled == 7 {
        "▇"
    } else {
        "█"
    }
}

/// How a painted cell is coloured.
#[derive(Debug, Clone, Copy, PartialEq, Eq, Structural)]
pub enum CellTone {
    /// A full cell in the gradient band for `distance` eighths from the
    /// baseline, out of a fill `span` eighths deep.
    Band { distance: usize, span: usize },
    /// The boundary of an upward fill: the glyph in the line colour.
    Line,
    /// The boundary of a downward fill: the glyph in the background colour
    /// over the line colour.
    Inverted,
}

/// One painted cell of a column: its row, how many eighths its lower-block
/// glyph covers, and its colouring.
#[derive(Debug, Clone, Copy, PartialEq, Eq, Structural)]
pub struct CellPaint {
    pub row: usize,
    pub glyph: usize,
    pub tone: CellTone,
}

pub open spec fn min_int(a: int, b: int) -> int {
    if a < b {
        a
    } else {
        b
    }
}

pub open spec fn max_int(a: int, b: int) -> int {
    if a > b {
        a
    } else {
        b
    }
}

/// Rows needed to cover `n` eighths.
pub open spec fn rows_to_cover(n: int) -> int {
    (n + 7) / 8
}

/// Eighths of row `row` lying inside `[lo, hi)`.
pub open spec fn spec_row_overlap(row: int, lo: int, hi: int) -> int {
    min_int(row * 8 + 8, hi) - max_int(row * 8, lo)
}

/// The cell painted in row `row` by an upward fill of `[top, baseline)`.
pub open spec fn spec_up_cell(row: int, top: int, baseline: int) -> CellPaint {
    let filled = spec_row_overlap(row, top, baseline);
    let span = max_int(baseline - top, 1);
    if filled == 8 {
        CellPaint {
            row: row as usize,
            glyph: 8,
            tone: CellTone::Band {
                distance: (baseline - (row * 8 + 4)) as usize,
                span: span as usize,
            },
        }
    } else {
        CellPaint { row: row as usize, glyph: filled as usize, tone: CellTone::Line }
    }
}

/// The cell painted in row `row` by a downward fill of `[baseline, bottom)`.
pub open spec fn spec_down_cell(row: int, baseline: int, bottom: int) -> CellPaint {
    let filled = spec_row_overlap(row, baseline, bottom);
    let span = max_int(bottom - baseline, 1);
    if filled == 8 {
        CellPaint {
            row: row as usize,
            glyph: 8,
            tone: CellTone::Band {
                distance: ((row * 8 + 4) - baseline) as usize,
                span: span as usize,
            },
        }
    } else {
        CellPaint { row: row as usize, glyph: (8 - filled) as usize, tone: CellTone::Inverted }
    }
}

/// The cells of an upward fill of the eighths `[top, baseline)`, top row
/// first; nothing when the fill is empty.
pub open spec fn spec_up_plan(top: int, baseline: int) -> Seq<CellPaint> {
    if top < baseline {
        Seq::new(
            (rows_to_cover(baseline) - top / 8) as nat,
            |k: int| spec_up_cell(top / 8 + k, top, baseline),
        )
    } else {
        seq![]
    }
}

/// The cells of a downward fill of the eighths `[baseline, bottom)`, top
/// row first; nothing when the fill is empty.
pub open spec fn spec_down_plan(baseline: int, bottom: int) -> Seq<CellPaint> {
    if baseline < bottom {
        Seq::new(
            (rows_to_cover(bottom) - baseline / 8) as nat,
            |k: int| spec_down_cell(baseline / 8 + k, baseline, bottom),
        )
    } else {
        seq![]
    }
}

proof fn lemma_row_bounds(lo: int, hi: int, row: int)
    requires
        0 <= lo < hi,
        lo / 8 <= row < rows_to_cover(hi),
    ensures
        spec_row_overlap(row, lo, hi) >= 1,
        spec_row_overlap(row, lo, hi) <= 8,
{
    assert(row * 8 < hi) by {
        assert(rows_to_cover(hi) * 8 <= hi + 7);
    }
    assert(row * 8 + 8 > lo) by {
        assert((lo / 8) * 8 + 8 > lo);
    }
}

/// The cells of an upward fill of the eighths `[top, baseline)`.
pub fn paint_up_column(top: usize, baseline: usize) -> (r: Vec<CellPaint>)
    requires
        top <= baseline,
        baseline + EIGHTHS_PER_ROW <= usize::MAX,
    ensures
        r@ == spec_up_plan(top as int, baseline as int),
{
    let mut cells: Vec<CellPaint> = Vec::new();
    if top == baseline {
        return cells;
    }
    let span: usize = if baseline - top > 1 {
        baseline - top
    } else {
        1
    };
    let first = top / EIGHTHS_PER_ROW;
    let end = (baseline + 7) / EIGHTHS_PER_ROW;
    let mut row = first;
    while row < end
        invariant
            top < baseline,
            baseline + EIGHTHS_PER_ROW <= usize::MAX,
            first == top / 8,
            end == rows_to_cover(baseline as int),
            first <= row <= end,
            span == max_int(baseline - top, 1),
            cells@.len() == row - first,
            forall|k: int| 0 <= k < cells@.len() ==> cells@[k] == spec_up_cell(first + k, top as int, baseline as int),
        decreases end - row,
    {
        proof {
            lemma_row_bounds(top as int, baseline as int, row as int);
        }
        let cell_top = row * EIGHTHS_PER_ROW;
        let upper = if cell_top + EIGHTHS_PER_ROW < baseline {
            cell_top + EIGHTHS_PER_ROW
        } else {
            baseline
        };
        let lower = if cell_top > top {
            cell_top
        } else {
            top
        };
        let filled = upper - lower;
        let cell = if filled == EIGHTHS_PER_ROW {
            CellPaint {
                row,
                glyph: EIGHTHS_PER_ROW,
                tone: CellTone::Band { distance: baseline - (cell_top + 4), span },
            }
        } else {
            CellPaint { row, glyph: filled, tone: CellTone::Line }
        };
        cells.push(cell);
        row = row + 1;
    }
    proof {
        assert(cells@ =~= spec_up_plan(top as int, baseline as int));
    }
    cells
}

/// The cells of a downward fill of the eighths `[baseline, bottom)`.
pub fn paint_down_column(baseline: usize, bottom: usize) -> (r: Vec<CellPaint>)
    requires
        baseline <= bottom,
        bottom + EIGHTHS_PER_ROW <= usize::MAX,
    ensures
        r@ == spec_down_plan(baseline as int, bottom as int),
{
    let mut cells: Vec<CellPaint> = Vec::new();
    if baseline == bottom {
        return cells;
    }
    let span: usize = if bottom - baseline > 1 {
        bottom - baseline
    } else {
        1
    };
    let first = baseline / EIGHTHS_PER_ROW;
    let end = (bottom + 7) / EIGHTHS_PER_ROW;
    let mut row = first;
    while row < end
        invariant
            baseline < bottom,
            bottom + EIGHTHS_PER_ROW <= usize::MAX,
            first == baseline / 8,
            end == rows_to_cover(bottom as int),
            first <= row <= end,
            span == max_int(bottom - baseline, 1),
            cells@.len() == row - first,
            forall|k: int| 0 <= k < cells@.len() ==> cells@[k] == spec_down_cell(first + k, baseline as int, bottom as int),
        decreases end - row,
    {
        proof {
            lemma_row_bounds(baseline as int, bottom as int, row as int);
        }
        let cell_top = row * EIGHTHS_PER_ROW;
        let upper = if cell_top + EIGHTHS_PER_ROW < bottom {
            cell_top + EIGHTHS_PER_ROW
        } else {
            bottom
        };
        let lower = if cell_top > baseline {
            cell_top
        } else {
            baseline
        };
        let filled = upper - lower;
        let cell = if filled == EIGHTHS_PER_ROW {
            CellPaint {
                row,
                glyph: EIGHTHS_PER_ROW,
                tone: CellTone::Band { distance: (cell_top + 4) - baseline, span },
            }
        } else {
            CellPaint { row, glyph: EIGHTHS_PER_ROW - filled, tone: CellTone::Inverted }
        };
        cells.push(cell);
        row = row + 1;
    }
    proof {
        assert(cells@ =~= spec_down_plan(baseline as int, bottom as int));
    }
    cells
}

/// The baseline moved to the nearest cell boundary (halves round down the
/// plot), so that the two halves of a mirrored chart never share a cell.
pub open spec fn spec_snapped_baseline(raw: int, total: int) -> int {
    min_int(((raw + 4) / 8) * 8, total)
}

/// Snaps a baseline at `raw` eighths from the top of a plot `total`
/// eighths tall; see [`spec_snapped_baseline`].
pub fn snapped_baseline(raw: usize, total: usize) -> (r: usize)
    requires
        raw <= total,
        total + EIGHTHS_PER_ROW <= usize::MAX,
    ensures
        r == spec_snapped_baseline(raw as int, total as int),
        total % 8 == 0 ==> r % 8 == 0,
        r <= total,
{
    let row = (raw + EIGHTHS_PER_ROW / 2) / EIGHTHS_PER_ROW;
    let snapped = row * EIGHTHS_PER_ROW;
    if snapped < total {
        snapped
    } else {
        total
    }
}

/// The fill of one column whose value lies `edge` eighths from the top.
/// An upward fill keeps at least its lowest eighth, so an idle series still
/// shows a heartbeat line; a downward fill likewise reaches at least one
/// eighth below the baseline, as far as the plot goes.
pub open spec fn spec_column_plan(direction: SeriesDirection, edge: int, baseline: int, total: int) -> Seq<CellPaint> {
    match direction {
        SeriesDirection::Up => {
            let top = min_int(edge, if baseline >= 1 { baseline - 1 } else { 0 });
            spec_up_plan(top, baseline)
        },
        SeriesDirection::Down => {
            let bottom = max_int(edge, min_int(baseline + 1, total));
            spec_down_plan(baseline, bottom)
        },
    }
}

/// The cells to paint in one column; see [`spec_column_plan`].
pub fn column_plan(direction: SeriesDirection, edge: usize, baseline: usize, total: usize) -> (r: Vec<CellPaint>)
    requires
        edge <= total,
        baseline <= total,
        total + EIGHTHS_PER_ROW <= usize::MAX,
    ensures
        r@ == spec_column_plan(direction, edge as int, baseline as int, total as int),
{
    match direction {
        SeriesDirection::Up => {
            let floor = if baseline >= 1 {
                baseline - 1
            } else {
                0
            };
            let top = if edge < floor {
                edge
            } else {
                floor
            };
            paint_up_column(top, baseline)
        },
        SeriesDirection::Down => {
            let reach = if baseline + 1 < total {
                baseline + 1
            } else {
                total
            };
            let bottom = if edge > reach {
                edge
            } else {
                reach
            };
            paint_down_column(baseline, bottom)
        },
    }
}

/// The shape of one series as far as the compositor cares.
#[derive(Debug, Clone, Copy, PartialEq, Eq, Structural)]
pub struct SeriesShape {
    pub filled: bool,
    pub direction: SeriesDirection,
}

/// Baseline layouts of a chart.
#[derive(Debug, Clone, Copy, PartialEq, Eq, Structural)]
pub enum BaselineKind {
    /// Everything grows up from zero.
    Zero,
    /// Upward series above the baseline, downward series below it.
    Mirror,
}

/// Number of upward series.
pub open spec fn spec_ups(series: Seq<SeriesShape>) -> nat
    decreases series.len(),
{
    if series.len() == 0 {
        0
    } else {
        spec_ups(series.drop_last()) + if series.last().direction == SeriesDirection::Up {
            1nat
        } else {
            0nat
        }
    }
}

/// Scenes the compositor can draw: at least one series, all filled, and
/// at most one per side of the baseline (a zero baseline has only the upper
/// side).  Two fills on one side cannot share a cell.
pub open spec fn spec_supports(series: Seq<SeriesShape>, baseline: BaselineKind) -> bool {
    let ups = spec_ups(series);
    let downs = series.len() - ups;
    &&& series.len() > 0
    &&& forall|i: int| 0 <= i < series.len() ==> #[trigger] series[i].filled
    &&& match baseline {
        BaselineKind::Zero => ups == 1 && downs == 0,
        BaselineKind::Mirror => ups <= 1 && downs <= 1,
    }
}

proof fn lemma_ups_bounded(series: Seq<SeriesShape>)
    ensures
        spec_ups(series) <= series.len(),
    decreases series.len(),
{
    if series.len() > 0 {
        lemma_ups_bounded(series.drop_last());
    }
}

/// Whether the compositor can draw a scene; see [`spec_supports`].
pub fn supports(series: &[SeriesShape], baseline: BaselineKind) -> (r: bool)
    ensures
        r == spec_supports(series@, baseline),
{
    if series.len() == 0 {
        return false;
    }
    let mut ups: usize = 0;
    let mut all_filled = true;
    let mut i: usize = 0;
    while i < series.len()
        invariant
            i <= series@.len(),
            ups == spec_ups(series@.take(i as int)),
            ups <= i,
            all_filled == (forall|k: int| 0 <= k < i ==> #[trigger] series@[k].filled),
        decreases series@.len() - i,
    {
        assert(series@.take(i + 1).drop_last() =~= series@.take(i as int));
        if !series[i].filled {
            all_filled = false;
        }
        if series[i].direction == SeriesDirection::Up {
            ups = ups + 1;
        }
        i = i + 1;
    }
    assert(series@.take(series@.len() as int) =~= series@);
    if !all_filled {
        return false;
    }
    let downs = series.len() - ups;
    match baseline {
        BaselineKind::Zero => ups == 1 && downs == 0,
        BaselineKind::Mirror => ups <= 1 && downs <= 1,
    }
}

/// Eighths of the fill that a painted cell covers: the glyph's own for a
/// lower block, its complement for an inverted one.
pub open spec fn spec_cell_eighths(cell: CellPaint) -> int {
    match cell.tone {
        CellTone::Inverted => 8 - cell.glyph,
        _ => cell.glyph as int,
    }
}

/// Total eighths covered by a list of painted cells.
pub open spec fn spec_covered(cells: Seq<CellPaint>) -> int
    decreases cells.len(),
{
    if cells.len() == 0 {
        0
    } else {
        spec_covered(cells.drop_last()) + spec_cell_eighths(cells.last())
    }
}

proof fn lemma_up_prefix(top: int, baseline: int, n: int)
    requires
        0 <= top < baseline,
        1 <= n <= rows_to_cover(baseline) - top / 8,
    ensures
        spec_covered(spec_up_plan(top, baseline).take(n)) == min_int((top / 8 + n) * 8, baseline) - top,
    decreases n,
{
    let plan = spec_up_plan(top, baseline);
    let row = top / 8 + n - 1;
    lemma_row_bounds(top, baseline, row);
    let cell = plan[n - 1];
    assert(cell == spec_up_cell(row, top, baseline));
    assert(spec_cell_eighths(cell) == spec_row_overlap(row, top, baseline));
    assert(plan.take(n).drop_last() =~= plan.take(n - 1));
    assert(plan.take(n).last() == cell);
    assert(spec_covered(plan.take(n)) == spec_covered(plan.take(n - 1)) + spec_cell_eighths(cell));
    assert((top / 8) * 8 <= top && top < (top / 8) * 8 + 8);
    if n > 1 {
        lemma_up_prefix(top, baseline, n - 1);
        assert(row * 8 < baseline) by {
            assert(rows_to_cover(baseline) * 8 <= baseline + 7);
        }
        assert(row * 8 >= top);
        assert(min_int((top / 8 + n - 1) * 8, baseline) == row * 8);
    } else {
        assert(plan.take(0) =~= Seq::<CellPaint>::empty());
    }
}

proof fn lemma_down_prefix(baseline: int, bottom: int, n: int)
    requires
        0 <= baseline < bottom,
        1 <= n <= rows_to_cover(bottom) - baseline / 8,
    ensures
        spec_covered(spec_down_plan(baseline, bottom).take(n)) == min_int((baseline / 8 + n) * 8, bottom) - baseline,
    decreases n,
{
    let plan = spec_down_plan(baseline, bottom);
    let row = baseline / 8 + n - 1;
    lemma_row_bounds(baseline, bottom, row);
    let cell = plan[n - 1];
    assert(cell == spec_down_cell(row, baseline, bottom));
    assert(spec_cell_eighths(cell) == spec_row_overlap(row, baseline, bottom));
    assert(plan.take(n).drop_last() =~= plan.take(n - 1));
    assert(plan.take(n).last() == cell);
    assert(spec_covered(plan.take(n)) == spec_covered(plan.take(n - 1)) + spec_cell_eighths(cell));
    assert((baseline / 8) * 8 <= baseline && baseline < (baseline / 8) * 8 + 8);
    if n > 1 {
        lemma_down_prefix(baseline, bottom, n - 1);
        assert(row * 8 < bottom) by {
            assert(rows_to_cover(bottom) * 8 <= bottom + 7);
        }
        assert(row * 8 >= baseline);
        assert(min_int((baseline / 8 + n - 1) * 8, bottom) == row * 8);
    } else {
        assert(plan.take(0) =~= Seq::<CellPaint>::empty());
    }
}

/// An upward fill paints exactly the eighths between its edge and the
/// baseline: the cells' coverage adds up to `baseline - top`.
pub proof fn law_up_fill_covers_its_span(top: nat, baseline: nat)
    requires
        top <= baseline,
    ensures
        spec_covered(spec_up_plan(top as int, baseline as int)) == baseline - top,
{
    let plan = spec_up_plan(top as int, baseline as int);
    if top < baseline {
        let n = rows_to_cover(baseline as int) - top / 8;
        assert(n >= 1) by {
            assert(rows_to_cover(baseline as int) * 8 >= baseline);
        }
        lemma_up_prefix(top as int, baseline as int, n);
        assert(plan.take(n) =~= plan);
        assert(rows_to_cover(baseline as int) * 8 >= baseline);
    } else {
        assert(plan =~= Seq::<CellPaint>::empty());
    }
}

/// A downward fill paints exactly the eighths between the baseline and
/// its edge: the cells' coverage adds up to `bottom - baseline`.
pub proof fn law_down_fill_covers_its_span(baseline: nat, bottom: nat)
    requires
        baseline <= bottom,
    ensures
        spec_covered(spec_down_plan(baseline as int, bottom as int)) == bottom - baseline,
{
    let plan = spec_down_plan(baseline as int, bottom as int);
    if baseline < bottom {
        let n = rows_to_cover(bottom as int) - baseline / 8;
        assert(n >= 1) by {
            assert(rows_to_cover(bottom as int) * 8 >= bottom);
        }
        lemma_down_prefix(baseline as int, bottom as int, n);
        assert(plan.take(n) =~= plan);
        assert(rows_to_cover(bottom as int) * 8 >= bottom);
    } else {
        assert(plan =~= Seq::<CellPaint>::empty());
    }
}

/// On a baseline at a cell boundary, only the edge cell of a fill can be
/// partial: every other cell of an upward fill is a full block in a
/// gradient band, and so is every cell but the last of a downward fill.
pub proof fn law_only_the_edge_cell_is_partial(top: nat, baseline: nat, bottom: nat)
    requires
        top <= baseline <= bottom,
        baseline % 8 == 0,
    ensures
        forall|k: int|
            1 <= k < spec_up_plan(top as int, baseline as int).len() ==> {
                let c = #[trigger] spec_up_plan(top as int, baseline as int)[k];
                c.glyph == 8 && c.tone is Band
            },
        forall|k: int|
            0 <= k < spec_down_plan(baseline as int, bottom as int).len() - 1 ==> {
                let c = #[trigger] spec_down_plan(baseline as int, bottom as int)[k];
                c.glyph == 8 && c.tone is Band
            },
{
    assert(rows_to_cover(baseline as int) == baseline / 8);
    assert((baseline / 8) * 8 == baseline);
    assert((top / 8) * 8 <= top && top < (top / 8) * 8 + 8);
    assert forall|k: int| 1 <= k < spec_up_plan(top as int, baseline as int).len() implies {
        let c = #[trigger] spec_up_plan(top as int, baseline as int)[k];
        c.glyph == 8 && c.tone is Band
    } by {
        let row = top / 8 + k;
        lemma_row_bounds(top as int, baseline as int, row);
        assert(row * 8 >= top);
        assert(row * 8 + 8 <= baseline);
        assert(spec_row_overlap(row, top as int, baseline as int) == 8);
    }
    assert forall|k: int| 0 <= k < spec_down_plan(baseline as int, bottom as int).len() - 1 implies {
        let c = #[trigger] spec_down_plan(baseline as int, bottom as int)[k];
        c.glyph == 8 && c.tone is Band
    } by {
        let row = baseline / 8 + k;
        lemma_row_bounds(baseline as int, bottom as int, row);
        assert(row * 8 + 8 <= bottom) by {
            assert(rows_to_cover(bottom as int) * 8 <= bottom + 7);
        }
        assert(row * 8 >= baseline);
        assert(spec_row_overlap(row, baseline as int, bottom as int) == 8);
    }
}

/// With the baseline on a cell boundary, the two halves of a mirrored
/// column never share a cell: every row of the upward fill lies above
/// every row of the downward fill.
pub proof fn law_mirror_halves_never_share_a_cell(top: usize, baseline: usize, bottom: usize)
    requires
        top <= baseline <= bottom,
        baseline % 8 == 0,
    ensures
        forall|i: int, j: int|
            0 <= i < spec_up_plan(top as int, baseline as int).len() && 0 <= j < spec_down_plan(
                baseline as int,
                bottom as int,
            ).len() ==> #[trigger] spec_up_plan(top as int, baseline as int)[i].row
                < #[trigger] spec_down_plan(baseline as int, bottom as int)[j].row,
{
    assert(rows_to_cover(baseline as int) == baseline / 8);
    assert forall|i: int, j: int|
        0 <= i < spec_up_plan(top as int, baseline as int).len() && 0 <= j < spec_down_plan(
            baseline as int,
            bottom as int,
        ).len() implies #[trigger] spec_up_plan(top as int, baseline as int)[i].row
            < #[trigger] spec_down_plan(baseline as int, bottom as int)[j].row by {
        let up_row = top / 8 + i;
        let down_row = baseline / 8 + j;
        assert(up_row < baseline / 8);
        assert(spec_up_plan(top as int, baseline as int)[i].row == up_row);
        assert(spec_down_plan(baseline as int, bottom as int)[j].row == down_row);
    }
}

/// An upward series never vanishes: over a baseline below the plot top,
/// its column covers at least one eighth whatever its value.
pub proof fn law_up_column_keeps_a_heartbeat(edge: nat, baseline: nat, total: nat)
    requires
        1 <= baseline <= total,
        edge <= total,
    ensures
        spec_covered(spec_column_plan(SeriesDirection::Up, edge as int, baseline as int, total as int)) >= 1,
{
    let top = min_int(edge as int, baseline - 1);
    law_up_fill_covers_its_span(top as nat, baseline);
}

} // verus!
