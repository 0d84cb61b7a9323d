//! Compact channel heatmap for Wi-Fi spectrum views.
//!
//! Each channel becomes a cell: its label right-aligned in four columns, a
//! three-glyph bar whose shade grows with occupancy, and markers for the
//! user's own access points, neighbouring networks and signal strength.
//! Cells are laid out left to right and wrap to a new line when the next
//! one would overflow the area; a legend line closes the heatmap.

use vstd::prelude::*;
use crate::style::{line_views, raw, span_views, styled, styled_bold, SpanView, StyledSpan, ThemeRole};
use crate::text::{
    chars_of, concat2, concat3, fmt_i64, fmt_u64, lemma_i32_spelling_len, owned, pad_right_align,
    spec_decimal, spec_right, spec_signed_decimal,
};

verus! {

/// One channel of the heatmap.
#[derive(Debug, Clone, PartialEq, Eq)]
pub struct HeatmapCell {
    pub label: String,
    pub your_count: usize,
    pub neighbor_count: usize,
    pub signal: Option<i32>,
    pub conflict: bool,
}

/// A label short enough that the cell's width fits in a `usize`.
pub open spec fn label_fits(cell: HeatmapCell) -> bool {
    cell.label@.len() + 64 <= usize::MAX
}

/// Occupancy shade from 0 to 4: two points per own AP, one per neighbour.
pub open spec fn spec_intensity(your_count: int, neighbor_count: int) -> int {
    let v = 2 * your_count + neighbor_count;
    if v > 4 {
        4
    } else {
        v
    }
}

/// The three-glyph bar of a shade.
pub open spec fn spec_bar(intensity: int) -> Seq<char> {
    if intensity == 0 {
        "···"@
    } else if intensity == 1 {
        "░░░"@
    } else if intensity == 2 {
        "▒▒▒"@
    } else if intensity == 3 {
        "▓▓▓"@
    } else {
        "███"@
    }
}

/// The colour of a cell's bar: conflicts first, then own APs, then
/// neighbours.
pub open spec fn spec_bar_role(cell: HeatmapCell) -> ThemeRole {
    if cell.conflict {
        ThemeRole::Warning
    } else if cell.your_count > 0 {
        ThemeRole::WifiYourAp
    } else if cell.neighbor_count > 0 {
        ThemeRole::WifiNeighbor
    } else {
        ThemeRole::TextMuted
    }
}

/// The styled spans of one cell, left to right.
pub open spec fn spec_cell_spans(cell: HeatmapCell) -> Seq<SpanView> {
    let label_role = if cell.conflict {
        ThemeRole::Warning
    } else {
        ThemeRole::AccentSecondary
    };
    let base = seq![
        (spec_right(cell.label@, 4), Some(label_role), cell.conflict),
        ("▕"@, Some(ThemeRole::BorderUnfocused), false),
        (
            spec_bar(spec_intensity(cell.your_count as int, cell.neighbor_count as int)),
            Some(spec_bar_role(cell)),
            false,
        ),
        ("▏"@, Some(ThemeRole::BorderUnfocused), false),
    ];
    let with_ap = if cell.your_count > 0 {
        base.push(("▲"@, Some(ThemeRole::WifiYourAp), false))
    } else {
        base
    };
    let shown_neighbors: nat = if cell.neighbor_count > 9 {
        9
    } else {
        cell.neighbor_count as nat
    };
    let with_neighbors = if cell.neighbor_count > 0 {
        with_ap.push(("·"@ + spec_decimal(shown_neighbors), Some(ThemeRole::WifiNeighbor), false))
    } else {
        with_ap
    };
    let with_signal = match cell.signal {
        Some(s) => with_neighbors.push(
            (" "@ + spec_signed_decimal(s as int) + "d"@, Some(ThemeRole::TextSecondary), false),
        ),
        None => with_neighbors,
    };
    with_signal.push(("  "@, None, false))
}

/// The columns one cell takes, trailing gap included.
pub open spec fn spec_cell_width(cell: HeatmapCell) -> nat {
    let label = if cell.label@.len() > 4 {
        cell.label@.len()
    } else {
        4
    };
    let ap: nat = if cell.your_count > 0 {
        1
    } else {
        0
    };
    let neighbors: nat = if cell.neighbor_count > 0 {
        2
    } else {
        0
    };
    let signal: nat = match cell.signal {
        Some(s) => spec_signed_decimal(s as int).len() + 2,
        None => 0,
    };
    label + 5 + ap + neighbors + signal + 2
}

fn bar_text(intensity: usize) -> (r: String)
    ensures
        r@ == spec_bar(intensity as int),
{
    if intensity == 0 {
        owned("···")
    } else if intensity == 1 {
        owned("░░░")
    } else if intensity == 2 {
        owned("▒▒▒")
    } else if intensity == 3 {
        owned("▓▓▓")
    } else {
        owned("███")
    }
}

fn bar_role(cell: &HeatmapCell) -> (r: ThemeRole)
    ensures
        r == spec_bar_role(*cell),
{
    if cell.conflict {
        ThemeRole::Warning
    } else if cell.your_count > 0 {
        ThemeRole::WifiYourAp
    } else if cell.neighbor_count > 0 {
        ThemeRole::WifiNeighbor
    } else {
        ThemeRole::TextMuted
    }
}

/// The width and the spans of one cell.
pub fn cell_spans(cell: &HeatmapCell) -> (r: (usize, Vec<StyledSpan>))
    requires
        label_fits(*cell),
    ensures
        r.0 == spec_cell_width(*cell),
        span_views(r.1@) == spec_cell_spans(*cell),
{
    let intensity: usize = if cell.your_count >= 2 || cell.neighbor_count >= 4 {
        4
    } else {
        let v = 2 * cell.your_count + cell.neighbor_count;
        if v > 4 {
            4
        } else {
            v
        }
    };
    let label = pad_right_align(&cell.label, 4);
    let label_span = if cell.conflict {
        styled_bold(label, ThemeRole::Warning)
    } else {
        styled(label, ThemeRole::AccentSecondary)
    };
    let mut spans: Vec<StyledSpan> = Vec::new();
    spans.push(label_span);
    spans.push(styled(owned("▕"), ThemeRole::BorderUnfocused));
    spans.push(styled(bar_text(intensity), bar_role(cell)));
    spans.push(styled(owned("▏"), ThemeRole::BorderUnfocused));

    let label_len = chars_of(cell.label.as_str()).len();
    let mut width: usize = if label_len > 4 {
        label_len
    } else {
        4
    } + 5;
    if cell.your_count > 0 {
        spans.push(styled(owned("▲"), ThemeRole::WifiYourAp));
        width = width + 1;
    }
    if cell.neighbor_count > 0 {
        let shown: u64 = if cell.neighbor_count > 9 {
            9
        } else {
            cell.neighbor_count as u64
        };
        let digits = fmt_u64(shown);
        let marker = concat2("·", digits.as_str());
        proof {
            reveal_strlit("·");
            assert(spec_decimal(shown as nat).len() == 1);
        }
        width = width + 2;
        spans.push(styled(marker, ThemeRole::WifiNeighbor));
    }
    match cell.signal {
        Some(s) => {
            let spelled = fmt_i64(s as i64);
            proof {
                lemma_i32_spelling_len(s);
            }
            let spelled_len = chars_of(spelled.as_str()).len();
            width = width + spelled_len + 2;
            spans.push(styled(concat3(" ", spelled.as_str(), "d"), ThemeRole::TextSecondary));
        },
        None => {},
    }
    spans.push(raw(owned("  ")));
    width = width + 2;
    proof {
        assert(span_views(spans@) =~= spec_cell_spans(*cell));
    }
    (width, spans)
}

/// Greedy line filling: the finished lines, the line being filled and its
/// width after placing every cell of `cells` in an area `max` columns wide.
/// A cell starts a new line when the current line is not empty and the
/// cell would push it past `max`.
pub open spec fn spec_layout(cells: Seq<HeatmapCell>, max: nat) -> (Seq<Seq<SpanView>>, Seq<SpanView>, nat)
    decreases cells.len(),
{
    if cells.len() == 0 {
        (seq![], seq![], 0)
    } else {
        let (done, cur, w) = spec_layout(cells.drop_last(), max);
        let cell = cells.last();
        let cw = spec_cell_width(cell);
        if w > 0 && w + cw > max {
            (done.push(cur), spec_cell_spans(cell), cw)
        } else {
            (done, cur + spec_cell_spans(cell), w + cw)
        }
    }
}

/// The legend line under the cells.
pub open spec fn spec_legend() -> Seq<SpanView> {
    seq![
        ("  ░ clear  "@, Some(ThemeRole::TextMuted), false),
        ("▒ light  "@, Some(ThemeRole::WifiNeighbor), false),
        ("▓ busy  "@, Some(ThemeRole::WifiYourAp), false),
        ("█ conflict  "@, Some(ThemeRole::Warning), false),
        ("▲ your AP  · neighbors"@, Some(ThemeRole::TextSecondary), false),
    ]
}

/// The lines of a heatmap drawn `width` columns wide: the empty message in
/// muted text when there are no cells, else the wrapped cells and the legend.
pub open spec fn spec_heatmap_lines(cells: Seq<HeatmapCell>, empty_message: Seq<char>, width: u16) -> Seq<Seq<SpanView>> {
    if cells.len() == 0 {
        seq![seq![(empty_message, Some(ThemeRole::TextMuted), false)]]
    } else {
        let max: nat = if width == 0 {
            1
        } else {
            width as nat
        };
        let (done, cur, _w) = spec_layout(cells, max);
        let body = if cur.len() > 0 {
            done.push(cur)
        } else {
            done
        };
        body.push(spec_legend())
    }
}

/// The spans of every cell, one after another.
pub open spec fn spec_all_cell_spans(cells: Seq<HeatmapCell>) -> Seq<SpanView> {
    cells.map_values(|c: HeatmapCell| spec_cell_spans(c)).flatten()
}

/// A heatmap over a list of channel cells.
pub struct HyperHeatmap<'a> {
    cells: &'a [HeatmapCell],
    empty_message: &'a str,
}

impl<'a> View for HyperHeatmap<'a> {
    type V = (Seq<HeatmapCell>, Seq<char>);

    closed spec fn view(&self) -> (Seq<HeatmapCell>, Seq<char>) {
        (self.cells@, self.empty_message@)
    }
}

impl<'a> HyperHeatmap<'a> {
    /// A heatmap of `cells` that says "No channel data" when there are none.
    pub fn new(cells: &'a [HeatmapCell]) -> (r: Self)
        ensures
            r@ == (cells@, "No channel data"@),
    {
        HyperHeatmap { cells, empty_message: "No channel data" }
    }

    /// The same heatmap with another message for the empty case.
    pub fn empty_message(self, message: &'a str) -> (r: Self)
        ensures
            r@ == (self@.0, message@),
    {
        HyperHeatmap { cells: self.cells, empty_message: message }
    }

    /// The styled lines to draw in an area `area_width` columns wide.
    pub fn lines(&self, area_width: u16) -> (r: Vec<Vec<StyledSpan>>)
        requires
            forall|i: int| 0 <= i < self@.0.len() ==> label_fits(#[trigger] self@.0[i]),
        ensures
            line_views(r@) == spec_heatmap_lines(self@.0, self@.1, area_width),
    {
        let mut lines: Vec<Vec<StyledSpan>> = Vec::new();
        assert(self@.0 == self.cells@);
        assert(self@.1 == self.empty_message@);
        if self.cells.len() == 0 {
            let mut only: Vec<StyledSpan> = Vec::new();
            only.push(styled(owned(self.empty_message), ThemeRole::TextMuted));
            assert(span_views(only@) =~= seq![(self@.1, Some(ThemeRole::TextMuted), false)]);
            lines.push(only);
            proof {
                assert(line_views(lines@) =~= spec_heatmap_lines(self@.0, self@.1, area_width));
            }
            return lines;
        }
        let max_width: usize = if area_width == 0 {
            1
        } else {
            area_width as usize
        };
        let mut spans: Vec<StyledSpan> = Vec::new();
        let mut line_width: usize = 0;
        let mut i: usize = 0;
        while i < self.cells.len()
            invariant
                i <= self.cells@.len(),
                max_width as nat == (if area_width == 0 { 1 } else { area_width as nat }),
                forall|k: int| 0 <= k < self.cells@.len() ==> label_fits(#[trigger] self.cells@[k]),
                spec_layout(self.cells@.take(i as int), max_width as nat) == (
                    line_views(lines@),
                    span_views(spans@),
                    line_width as nat,
                ),
            decreases self.cells@.len() - i,
        {
            let ghost before = self.cells@.take(i as int);
            assert(self.cells@.take(i + 1).drop_last() =~= before);
            let (width, cell_sp) = cell_spans(&self.cells[i]);
            let wraps = line_width > 0 && (line_width > max_width || width > max_width - line_width);
            if wraps {
                let finished = spans;
                proof {
                    assert(line_views(lines@.push(finished)) =~= line_views(lines@).push(span_views(finished@)));
                }
                lines.push(finished);
                spans = cell_sp;
                line_width = width;
            } else {
                let mut extra = cell_sp;
                let ghost old_spans = spans@;
                let ghost added = extra@;
                spans.append(&mut extra);
                proof {
                    assert(span_views(old_spans + added) =~= span_views(old_spans) + span_views(added));
                }
                line_width = line_width + width;
            }
            i = i + 1;
        }
        assert(self.cells@.take(self.cells@.len() as int) =~= self.cells@);
        if spans.len() > 0 {
            let finished = spans;
            proof {
                assert(line_views(lines@.push(finished)) =~= line_views(lines@).push(span_views(finished@)));
            }
            lines.push(finished);
        }
        let mut legend: Vec<StyledSpan> = Vec::new();
        legend.push(styled(owned("  ░ clear  "), ThemeRole::TextMuted));
        legend.push(styled(owned("▒ light  "), ThemeRole::WifiNeighbor));
        legend.push(styled(owned("▓ busy  "), ThemeRole::WifiYourAp));
        legend.push(styled(owned("█ conflict  "), ThemeRole::Warning));
        legend.push(styled(owned("▲ your AP  · neighbors"), ThemeRole::TextSecondary));
        proof {
            assert(span_views(legend@) =~= spec_legend());
            assert(line_views(lines@.push(legend)) =~= line_views(lines@).push(span_views(legend@)));
        }
        lines.push(legend);
        lines
    }
}

proof fn lemma_layout_keeps_cells(cells: Seq<HeatmapCell>, max: nat)
    ensures
        ({
            let (done, cur, _w) = spec_layout(cells, max);
            done.push(cur).flatten() == spec_all_cell_spans(cells)
        }),
    decreases cells.len(),
{
    broadcast use Seq::lemma_flatten_push;

    let f = |c: HeatmapCell| spec_cell_spans(c);
    if cells.len() == 0 {
        assert(seq![seq![]].flatten() =~= Seq::<SpanView>::empty()) by {
            seq![Seq::<SpanView>::empty()].lemma_flatten_one_element();
        }
        assert(cells.map_values(f) =~= Seq::<Seq<SpanView>>::empty());
        assert(Seq::<Seq<SpanView>>::empty().push(Seq::<SpanView>::empty()) =~= seq![Seq::<SpanView>::empty()]);
    } else {
        let prev = cells.drop_last();
        lemma_layout_keeps_cells(prev, max);
        let (done, cur, _w) = spec_layout(prev, max);
        assert(cells.map_values(f) =~= prev.map_values(f).push(spec_cell_spans(cells.last())));
        assert(done.push(cur + spec_cell_spans(cells.last())).flatten() =~= done.flatten() + (cur
            + spec_cell_spans(cells.last())));
        assert(done.push(cur).flatten() =~= done.flatten() + cur);
    }
}

/// Wrapping loses, repeats and reorders no cell: the lines above the
/// legend, read one after another, are every cell's spans in order.
pub proof fn law_wrapping_keeps_every_cell(cells: Seq<HeatmapCell>, message: Seq<char>, width: u16)
    requires
        cells.len() > 0,
    ensures
        spec_heatmap_lines(cells, message, width).drop_last().flatten() == spec_all_cell_spans(cells),
{
    let max: nat = if width == 0 {
        1
    } else {
        width as nat
    };
    lemma_layout_keeps_cells(cells, max);
    lemma_layout_line_nonempty(cells, max);
    let (done, cur, _w) = spec_layout(cells, max);
    assert(spec_heatmap_lines(cells, message, width).drop_last() =~= done.push(cur));
}

proof fn lemma_layout_line_nonempty(cells: Seq<HeatmapCell>, max: nat)
    requires
        cells.len() > 0,
    ensures
        spec_layout(cells, max).1.len() > 0,
    decreases cells.len(),
{
    let prev = cells.drop_last();
    if prev.len() > 0 {
        lemma_layout_line_nonempty(prev, max);
    }
}

/// A channel's shade never lightens as access points are added, an own
/// access point weighs twice a neighbour, an empty channel is blank, and the
/// shade saturates at 4 (a full bar).
pub proof fn law_shade_grows_with_occupancy(y1: nat, n1: nat, y2: nat, n2: nat)
    requires
        y1 <= y2,
        n1 <= n2,
    ensures
        spec_intensity(y1 as int, n1 as int) <= spec_intensity(y2 as int, n2 as int),
        0 <= spec_intensity(y1 as int, n1 as int) <= 4,
        spec_intensity(0, 0) == 0,
        spec_intensity(1, 0) == spec_intensity(0, 2),
        spec_intensity(y1 as int, n1 as int) == 4 <==> 2 * y1 + n1 >= 4,
        spec_bar(0) == "···"@,
        spec_bar(4) == "███"@,
{
}

} // verus!
