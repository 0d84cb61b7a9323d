//! Switch faceplate for device port views.
//!
//! Ports are drawn the way a switch front panel shows them: in pairs, odd
//! port above even port, with banks of pairs wrapping to fit the area.
//! Each bank takes four lines: odd labels, odd port glyphs, even port
//! glyphs, even labels.  A legend line closes the faceplate.

use vstd::prelude::*;
use std::collections::BTreeMap;
use crate::style::{line_views, raw, span_views, styled, styled_bold, SpanView, StyledSpan, ThemeRole};
use crate::text::{center, concat3, fmt_u64, owned, spec_center, spec_decimal};

verus! {

/// Link state of a port.
#[derive(Debug, Clone, Copy, PartialEq, Eq, Structural)]
pub enum PortState {
    Up,
    Down,
    Unknown,
}

/// Physical connector of a port.
#[derive(Debug, Clone, Copy, PartialEq, Eq, Structural)]
pub enum PortConnector {
    Rj45,
    Sfp,
    SfpPlus,
    Sfp28,
    Qsfp28,
}

/// Power-over-Ethernet details of a port.
#[derive(Debug, Clone, PartialEq, Eq)]
pub struct PoeInfo {
    pub standard: Option<String>,
    pub enabled: bool,
    pub state: PortState,
}

/// One switch port.
#[derive(Debug, Clone, PartialEq, Eq)]
pub struct Port {
    pub index: u32,
    pub name: Option<String>,
    pub state: PortState,
    pub speed_mbps: Option<u32>,
    pub max_speed_mbps: Option<u32>,
    pub connector: Option<PortConnector>,
    pub poe: Option<PoeInfo>,
}

/// A port on a fibre cage (SFP and its faster kin) counts as an uplink.
pub open spec fn spec_is_uplink(port: Port) -> bool {
    match port.connector {
        Some(PortConnector::Sfp) | Some(PortConnector::SfpPlus) | Some(PortConnector::Sfp28) | Some(
            PortConnector::Qsfp28,
        ) => true,
        _ => false,
    }
}

/// The negotiated speed, zero when unknown.
pub open spec fn spec_speed(port: Port) -> int {
    match port.speed_mbps {
        Some(s) => s as int,
        None => 0,
    }
}

/// The glyph of a port: shaded by link speed when up.
pub open spec fn spec_port_glyph(port: Port) -> Seq<char> {
    match port.state {
        PortState::Up => if spec_speed(port) >= 1000 {
            "█"@
        } else if spec_speed(port) >= 100 {
            "▓"@
        } else {
            "▒"@
        },
        PortState::Down => "░"@,
        PortState::Unknown => "·"@,
    }
}

/// The colour of a port: uplinks stand out among ports that are up.
pub open spec fn spec_port_role(port: Port) -> ThemeRole {
    match port.state {
        PortState::Down => ThemeRole::TextMuted,
        PortState::Unknown => ThemeRole::BorderUnfocused,
        PortState::Up => if spec_is_uplink(port) {
            ThemeRole::AccentPrimary
        } else if spec_speed(port) >= 1000 {
            ThemeRole::Success
        } else if spec_speed(port) >= 100 {
            ThemeRole::Warning
        } else {
            ThemeRole::AccentSecondary
        },
    }
}

/// Ports that supply power are drawn bold.
pub open spec fn spec_poe_bold(port: Port) -> bool {
    match port.poe {
        Some(poe) => poe.enabled,
        None => false,
    }
}

/// Whether the port is an uplink.
pub fn is_uplink(port: &Port) -> (r: bool)
    ensures
        r == spec_is_uplink(*port),
{
    match port.connector {
        Some(PortConnector::Sfp) | Some(PortConnector::SfpPlus) | Some(PortConnector::Sfp28) | Some(
            PortConnector::Qsfp28,
        ) => true,
        _ => false,
    }
}

fn speed(port: &Port) -> (r: u32)
    ensures
        r == spec_speed(*port),
{
    match port.speed_mbps {
        Some(s) => s,
        None => 0,
    }
}

/// The glyph of a port; see [`spec_port_glyph`].
pub fn port_glyph(port: &Port) -> (r: &'static str)
    ensures
        r@ == spec_port_glyph(*port),
{
    match port.state {
        PortState::Up => if speed(port) >= 1000 {
            "█"
        } else if speed(port) >= 100 {
            "▓"
        } else {
            "▒"
        },
        PortState::Down => "░",
        PortState::Unknown => "·",
    }
}

/// The colour role of a port; see [`spec_port_role`].
pub fn port_style(port: &Port) -> (r: ThemeRole)
    ensures
        r == spec_port_role(*port),
{
    match port.state {
        PortState::Down => ThemeRole::TextMuted,
        PortState::Unknown => ThemeRole::BorderUnfocused,
        PortState::Up => if is_uplink(port) {
            ThemeRole::AccentPrimary
        } else if speed(port) >= 1000 {
            ThemeRole::Success
        } else if speed(port) >= 100 {
            ThemeRole::Warning
        } else {
            ThemeRole::AccentSecondary
        },
    }
}

/// Whether the port is drawn bold: it supplies power.
pub fn poe_modifier(port: &Port) -> (bold: bool)
    ensures
        bold == spec_poe_bold(*port),
{
    match &port.poe {
        Some(poe) => poe.enabled,
        None => false,
    }
}

/// The port drawn at position `index`: the last one listed with it.
pub open spec fn spec_port_at(ports: Seq<Port>, index: int) -> Option<Port>
    decreases ports.len(),
{
    if ports.len() == 0 {
        None
    } else if ports.last().index == index {
        Some(ports.last())
    } else {
        spec_port_at(ports.drop_last(), index)
    }
}

/// The largest port index listed, zero for none.
pub open spec fn spec_max_index(ports: Seq<Port>) -> int
    decreases ports.len(),
{
    if ports.len() == 0 {
        0
    } else {
        let rest = spec_max_index(ports.drop_last());
        if ports.last().index > rest {
            ports.last().index as int
        } else {
            rest
        }
    }
}

/// Port pairs shown: enough for the largest index, and at least one.
pub open spec fn spec_pair_count(ports: Seq<Port>) -> int {
    let pairs = (spec_max_index(ports) + 1) / 2;
    if pairs < 1 {
        1
    } else {
        pairs
    }
}

/// Pairs per bank in an area `width` columns wide: four columns a pair
/// after a two-column margin, and at least one.
pub open spec fn spec_pairs_per_bank(width: u16) -> int {
    let room = if width >= 2 {
        (width - 2) / 4
    } else {
        0
    };
    if room < 1 {
        1
    } else {
        room
    }
}

/// The banks as inclusive ranges of pairs, from pair `start` on.
pub open spec fn spec_banks(start: int, count: int, per_bank: int) -> Seq<(int, int)>
    decreases (if start <= count {
        count - start + 1
    } else {
        0
    }),
{
    if start > count || per_bank < 1 || start < 1 {
        seq![]
    } else {
        let end = if start + per_bank - 1 < count {
            start + per_bank - 1
        } else {
            count
        };
        seq![(start, end)] + spec_banks(start + per_bank, count, per_bank)
    }
}

/// The position of a pair's odd or even port.
pub open spec fn spec_pair_index(pair: int, odd: bool) -> int {
    if odd {
        pair * 2 - 1
    } else {
        pair * 2
    }
}

/// The label cell of a position: its number centred in four columns, or
/// blank when no port sits there.
pub open spec fn spec_label_span(ports: Seq<Port>, index: int) -> SpanView {
    let label = match spec_port_at(ports, index) {
        Some(p) => spec_decimal(p.index as nat),
        None => " "@,
    };
    (spec_center(label, 4), Some(ThemeRole::TextSecondary), false)
}

/// The glyph cell of a position: the port body in its shell (open to the
/// top for odd ports, to the bottom for even ones), or blank.
pub open spec fn spec_glyph_span(ports: Seq<Port>, index: int, odd: bool) -> SpanView {
    match spec_port_at(ports, index) {
        Some(p) => {
            let body = if spec_is_uplink(p) {
                "⇅"@
            } else {
                spec_port_glyph(p)
            };
            let shell = if odd {
                "▟"@ + body + "▙"@
            } else {
                "▜"@ + body + "▛"@
            };
            (spec_center(shell, 4), Some(spec_port_role(p)), spec_poe_bold(p))
        },
        None => ("    "@, None, false),
    }
}

/// A label line of the pairs `start..=end`.
pub open spec fn spec_label_line(ports: Seq<Port>, start: int, end: int, odd: bool) -> Seq<SpanView> {
    seq![(" "@, None::<ThemeRole>, false)] + Seq::new(
        (end - start + 1) as nat,
        |k: int| spec_label_span(ports, spec_pair_index(start + k, odd)),
    )
}

/// A glyph line of the pairs `start..=end`.
pub open spec fn spec_glyph_line(ports: Seq<Port>, start: int, end: int, odd: bool) -> Seq<SpanView> {
    seq![(" "@, None::<ThemeRole>, false)] + Seq::new(
        (end - start + 1) as nat,
        |k: int| spec_glyph_span(ports, spec_pair_index(start + k, odd), odd),
    )
}

/// The four lines of one bank.
pub open spec fn spec_bank_lines(ports: Seq<Port>, bank: (int, int)) -> Seq<Seq<SpanView>> {
    seq![
        spec_label_line(ports, bank.0, bank.1, true),
        spec_glyph_line(ports, bank.0, bank.1, true),
        spec_glyph_line(ports, bank.0, bank.1, false),
        spec_label_line(ports, bank.0, bank.1, false),
    ]
}

/// The legend line under the banks.
pub open spec fn spec_faceplate_legend() -> Seq<SpanView> {
    seq![
        ("  █ 1G+  "@, Some(ThemeRole::Success), false),
        ("▓ 100M  "@, Some(ThemeRole::Warning), false),
        ("░ down  "@, Some(ThemeRole::TextMuted), false),
        ("⇅ uplink  "@, Some(ThemeRole::AccentPrimary), false),
        ("⚡ PoE"@, Some(ThemeRole::AccentSecondary), false),
    ]
}

/// The lines of a faceplate drawn `width` columns wide: the empty message
/// in muted text when there are no ports, else every bank's four lines and
/// the legend.
pub open spec fn spec_faceplate_lines(ports: Seq<Port>, empty_message: Seq<char>, width: u16) -> Seq<Seq<SpanView>> {
    if ports.len() == 0 {
        seq![seq![(empty_message, Some(ThemeRole::TextMuted), false)]]
    } else {
        spec_banks(1, spec_pair_count(ports), spec_pairs_per_bank(width)).map_values(
            |b: (int, int)| spec_bank_lines(ports, b),
        ).flatten().push(spec_faceplate_legend())
    }
}

/// Where in `ports` the port drawn at each index sits.
pub open spec fn spec_index_map(ports: Seq<Port>) -> Map<u32, usize>
    decreases ports.len(),
{
    if ports.len() == 0 {
        Map::empty()
    } else {
        spec_index_map(ports.drop_last()).insert(ports.last().index, (ports.len() - 1) as usize)
    }
}

proof fn lemma_index_map(ports: Seq<Port>, index: u32)
    requires
        ports.len() <= usize::MAX,
    ensures
        spec_index_map(ports).contains_key(index) <==> spec_port_at(ports, index as int) is Some,
        spec_index_map(ports).contains_key(index) ==> {
            let at = spec_index_map(ports)[index];
            &&& at < ports.len()
            &&& spec_port_at(ports, index as int) == Some(ports[at as int])
        },
    decreases ports.len(),
{
    if ports.len() > 0 {
        lemma_index_map(ports.drop_last(), index);
    }
}

proof fn lemma_port_at_index(ports: Seq<Port>, index: int)
    ensures
        spec_port_at(ports, index) matches Some(p) ==> p.index == index,
    decreases ports.len(),
{
    if ports.len() > 0 {
        lemma_port_at_index(ports.drop_last(), index);
    }
}

/// `u32` keys order the map as integers do.
proof fn lemma_u32_keys_ordered()
    ensures
        vstd::laws_cmp::obeys_cmp::<u32>(),
{
    broadcast use vstd::laws_cmp::group_laws_cmp;

}

fn port_at<'b>(ports: &'b [Port], by_index: &BTreeMap<u32, usize>, index: u64) -> (r: Option<&'b Port>)
    requires
        by_index@ == spec_index_map(ports@),
    ensures
        r matches Some(p) ==> spec_port_at(ports@, index as int) == Some(*p),
        r is None ==> spec_port_at(ports@, index as int) is None,
{
    broadcast use vstd::std_specs::btree::group_btree_axioms;

    proof {
        lemma_u32_keys_ordered();
        lemma_port_at_index(ports@, index as int);
    }
    if index > u32::MAX as u64 {
        return None;
    }
    let key = index as u32;
    let count = ports.len();
    proof {
        assert(ports@.len() == count);
        lemma_index_map(ports@, key);
    }
    match by_index.get(&key) {
        Some(at) => Some(&ports[*at]),
        None => None,
    }
}

fn label_span(ports: &[Port], by_index: &BTreeMap<u32, usize>, index: u64) -> (r: StyledSpan)
    requires
        by_index@ == spec_index_map(ports@),
    ensures
        r@ == spec_label_span(ports@, index as int),
{
    let label = match port_at(ports, by_index, index) {
        Some(p) => fmt_u64(p.index as u64),
        None => owned(" "),
    };
    styled(center(&label, 4), ThemeRole::TextSecondary)
}

fn glyph_span(ports: &[Port], by_index: &BTreeMap<u32, usize>, index: u64, odd: bool) -> (r: StyledSpan)
    requires
        by_index@ == spec_index_map(ports@),
    ensures
        r@ == spec_glyph_span(ports@, index as int, odd),
{
    match port_at(ports, by_index, index) {
        Some(p) => {
            let body = if is_uplink(p) {
                "⇅"
            } else {
                port_glyph(p)
            };
            let shell = if odd {
                concat3("▟", body, "▙")
            } else {
                concat3("▜", body, "▛")
            };
            StyledSpan { text: center(&shell, 4), role: Some(port_style(p)), bold: poe_modifier(p) }
        },
        None => raw(owned("    ")),
    }
}

fn pair_line(ports: &[Port], by_index: &BTreeMap<u32, usize>, start: u64, end: u64, odd: bool, glyphs: bool) -> (r: Vec<StyledSpan>)
    requires
        by_index@ == spec_index_map(ports@),
        1 <= start <= end <= u32::MAX,
    ensures
        span_views(r@) == if glyphs {
            spec_glyph_line(ports@, start as int, end as int, odd)
        } else {
            spec_label_line(ports@, start as int, end as int, odd)
        },
{
    let mut spans: Vec<StyledSpan> = Vec::new();
    spans.push(raw(owned(" ")));
    let ghost expected = if glyphs {
        spec_glyph_line(ports@, start as int, end as int, odd)
    } else {
        spec_label_line(ports@, start as int, end as int, odd)
    };
    let mut pair = start;
    while pair <= end
        invariant
            by_index@ == spec_index_map(ports@),
            1 <= start <= pair <= end + 1,
            end <= u32::MAX,
            expected == (if glyphs {
                spec_glyph_line(ports@, start as int, end as int, odd)
            } else {
                spec_label_line(ports@, start as int, end as int, odd)
            }),
            spans@.len() == pair - start + 1,
            forall|k: int| 0 <= k < spans@.len() ==> (#[trigger] spans@[k])@ == expected[k],
        decreases end + 1 - pair,
    {
        let index = if odd {
            pair * 2 - 1
        } else {
            pair * 2
        };
        let span = if glyphs {
            glyph_span(ports, by_index, index, odd)
        } else {
            label_span(ports, by_index, index)
        };
        spans.push(span);
        pair = pair + 1;
    }
    proof {
        assert(span_views(spans@) =~= expected);
    }
    spans
}

/// A faceplate over a list of ports.
pub struct SwitchFaceplate<'a> {
    ports: &'a [Port],
    empty_message: &'a str,
}

impl<'a> View for SwitchFaceplate<'a> {
    type V = (Seq<Port>, Seq<char>);

    closed spec fn view(&self) -> (Seq<Port>, Seq<char>) {
        (self.ports@, self.empty_message@)
    }
}

impl<'a> SwitchFaceplate<'a> {
    /// A faceplate of `ports` that says "No port data available" when
    /// there are none.
    pub fn new(ports: &'a [Port]) -> (r: Self)
        ensures
            r@ == (ports@, "No port data available"@),
    {
        SwitchFaceplate { ports, empty_message: "No port data available" }
    }

    /// The same faceplate with another message for the empty case.
    pub fn empty_message(self, message: &'a str) -> (r: Self)
        ensures
            r@ == (self@.0, message@),
    {
        SwitchFaceplate { ports: self.ports, empty_message: message }
    }

    /// The styled lines to draw in an area `area_width` columns wide.
    pub fn lines(&self, area_width: u16) -> (r: Vec<Vec<StyledSpan>>)
        ensures
            line_views(r@) == spec_faceplate_lines(self@.0, self@.1, area_width),
    {
        broadcast use vstd::std_specs::btree::group_btree_axioms;

        proof {
            lemma_u32_keys_ordered();
        }
        let mut lines: Vec<Vec<StyledSpan>> = Vec::new();
        let ports = self.ports;
        assert(self@.0 == ports@);
        if ports.len() == 0 {
            let mut only: Vec<StyledSpan> = Vec::new();
            only.push(styled(owned(self.empty_message), ThemeRole::TextMuted));
            assert(span_views(only@) =~= seq![(self@.1, Some(ThemeRole::TextMuted), false)]);
            lines.push(only);
            proof {
                assert(line_views(lines@) =~= spec_faceplate_lines(self@.0, self@.1, area_width));
            }
            return lines;
        }
        let mut by_index: BTreeMap<u32, usize> = BTreeMap::new();
        let mut max_index: u32 = 0;
        let mut i: usize = 0;
        while i < ports.len()
            invariant
                i <= ports@.len(),
                by_index@ == spec_index_map(ports@.take(i as int)),
                max_index == spec_max_index(ports@.take(i as int)),
            decreases ports@.len() - i,
        {
            assert(ports@.take(i + 1).drop_last() =~= ports@.take(i as int));
            by_index.insert(ports[i].index, i);
            if ports[i].index > max_index {
                max_index = ports[i].index;
            }
            i = i + 1;
        }
        assert(ports@.take(ports@.len() as int) =~= ports@);
        let half: u64 = (max_index as u64 + 1) / 2;
        let pair_count: u64 = if half < 1 {
            1
        } else {
            half
        };
        let room: u16 = if area_width >= 2 {
            (area_width - 2) / 4
        } else {
            0
        };
        let per_bank: u64 = if room < 1 {
            1
        } else {
            room as u64
        };
        let ghost f = |b: (int, int)| spec_bank_lines(ports@, b);
        let ghost total = spec_banks(1, pair_count as int, per_bank as int).map_values(f).flatten();
        assert(pair_count == spec_pair_count(ports@));
        assert(per_bank == spec_pairs_per_bank(area_width));
        let mut bank_start: u64 = 1;
        while bank_start <= pair_count
            invariant
                by_index@ == spec_index_map(ports@),
                1 <= bank_start <= pair_count + per_bank,
                pair_count <= 0x8000_0000,
                1 <= per_bank <= 0x4000,
                f == (|b: (int, int)| spec_bank_lines(ports@, b)),
                line_views(lines@) + spec_banks(bank_start as int, pair_count as int, per_bank as int).map_values(f).flatten()
                    == total,
            decreases pair_count + per_bank - bank_start,
        {
            let end_candidate = bank_start + per_bank - 1;
            let bank_end = if end_candidate < pair_count {
                end_candidate
            } else {
                pair_count
            };
            let ghost rest = spec_banks(bank_start as int, pair_count as int, per_bank as int);
            let ghost next = spec_banks((bank_start + per_bank) as int, pair_count as int, per_bank as int);
            proof {
                assert(rest == seq![(bank_start as int, bank_end as int)] + next);
                assert(rest.map_values(f) =~= seq![f((bank_start as int, bank_end as int))] + next.map_values(f));
                vstd::seq_lib::lemma_flatten_concat(seq![f((bank_start as int, bank_end as int))], next.map_values(f));
                seq![f((bank_start as int, bank_end as int))].lemma_flatten_one_element();
            }
            let ghost before = line_views(lines@);
            let l0 = pair_line(ports, &by_index, bank_start, bank_end, true, false);
            let l1 = pair_line(ports, &by_index, bank_start, bank_end, true, true);
            let l2 = pair_line(ports, &by_index, bank_start, bank_end, false, true);
            let l3 = pair_line(ports, &by_index, bank_start, bank_end, false, false);
            lines.push(l0);
            lines.push(l1);
            lines.push(l2);
            lines.push(l3);
            proof {
                assert(line_views(lines@) =~= before + spec_bank_lines(ports@, (bank_start as int, bank_end as int)));
            }
            bank_start = bank_start + per_bank;
        }
        proof {
            let rest = spec_banks(bank_start as int, pair_count as int, per_bank as int);
            assert(rest =~= Seq::<(int, int)>::empty());
            assert(rest.map_values(f) =~= Seq::<Seq<Seq<SpanView>>>::empty());
            assert(line_views(lines@) + Seq::<Seq<SpanView>>::empty() =~= line_views(lines@));
        }
        let mut legend: Vec<StyledSpan> = Vec::new();
        legend.push(styled(owned("  █ 1G+  "), ThemeRole::Success));
        legend.push(styled(owned("▓ 100M  "), ThemeRole::Warning));
        legend.push(styled(owned("░ down  "), ThemeRole::TextMuted));
        legend.push(styled(owned("⇅ uplink  "), ThemeRole::AccentPrimary));
        legend.push(styled(owned("⚡ PoE"), ThemeRole::AccentSecondary));
        proof {
            assert(span_views(legend@) =~= spec_faceplate_legend());
            assert(line_views(lines@.push(legend)) =~= line_views(lines@).push(span_views(legend@)));
        }
        lines.push(legend);
        lines
    }
}

proof fn lemma_banks_from(start: int, count: int, per_bank: int)
    requires
        1 <= start <= count,
        per_bank >= 1,
    ensures
        ({
            let b = spec_banks(start, count, per_bank);
            &&& b.len() > 0
            &&& b[0].0 == start
            &&& b.last().1 == count
            &&& forall|k: int| 0 <= k < b.len() ==> #[trigger] b[k].0 <= b[k].1 && b[k].1 - b[k].0 < per_bank
            &&& forall|k: int| 0 <= k < b.len() - 1 ==> #[trigger] b[k + 1].0 == b[k].1 + 1
        }),
    decreases count - start,
{
    let b = spec_banks(start, count, per_bank);
    let next = spec_banks(start + per_bank, count, per_bank);
    if start + per_bank <= count {
        lemma_banks_from(start + per_bank, count, per_bank);
        assert(b[0].1 == start + per_bank - 1);
        assert forall|k: int| 0 <= k < b.len() - 1 implies #[trigger] b[k + 1].0 == b[k].1 + 1 by {
            if k > 0 {
                assert(b[k] == next[k - 1]);
                assert(b[k + 1] == next[k]);
                let j = k - 1;
                assert(next[j + 1].0 == next[j].1 + 1);
            } else {
                assert(b[1] == next[0]);
            }
        }
        assert forall|k: int| 0 <= k < b.len() implies #[trigger] b[k].0 <= b[k].1 && b[k].1 - b[k].0 < per_bank by {
            if k > 0 {
                assert(b[k] == next[k - 1]);
            }
        }
    } else {
        assert(next =~= Seq::<(int, int)>::empty());
        assert(b =~= seq![(start, count)]);
    }
}

/// The banks split the port pairs into consecutive runs, in order, each
/// no longer than a bank holds: every pair is drawn in exactly one bank.
pub proof fn law_banks_partition_the_pairs(count: int, per_bank: int)
    requires
        count >= 1,
        per_bank >= 1,
    ensures
        ({
            let b = spec_banks(1, count, per_bank);
            &&& b.len() > 0
            &&& b[0].0 == 1
            &&& b.last().1 == count
            &&& forall|k: int| 0 <= k < b.len() ==> #[trigger] b[k].0 <= b[k].1 && b[k].1 - b[k].0 < per_bank
            &&& forall|k: int| 0 <= k < b.len() - 1 ==> #[trigger] b[k + 1].0 == b[k].1 + 1
        }),
{
    lemma_banks_from(1, count, per_bank);
}

/// A port's look follows its link: a port that is down is a light shade in
/// muted colour whatever its speed; a port that is up is shaded by speed,
/// solid from a gigabit, and a faster port is never lighter than a slower
/// one; an uplink that is up stands out in the primary accent whatever its
/// speed; and a port is bold exactly when it supplies power.
pub proof fn law_port_look_follows_the_link(port: Port, faster: Port)
    requires
        port.state == PortState::Up,
        faster.state == PortState::Up,
        spec_speed(port) <= spec_speed(faster),
    ensures
        spec_port_glyph(Port { state: PortState::Down, ..port }) == "░"@,
        spec_port_role(Port { state: PortState::Down, ..port }) == ThemeRole::TextMuted,
        spec_speed(port) >= 1000 ==> spec_port_glyph(port) == "█"@ && spec_port_glyph(faster) == "█"@,
        spec_speed(port) >= 100 ==> spec_port_glyph(faster) == "█"@ || spec_port_glyph(faster) == "▓"@,
        spec_speed(faster) < 100 ==> spec_port_glyph(port) == "▒"@ && spec_port_glyph(faster) == "▒"@,
        spec_is_uplink(port) ==> spec_port_role(port) == ThemeRole::AccentPrimary,
        spec_poe_bold(port) <==> (port.poe matches Some(p) && p.enabled),
{
}

} // verus!
