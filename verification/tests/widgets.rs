use unifly::chart_model::{
    has_x_axis, plot_density,
    band_count, marker_value_x, AnnotationKind, FillKind, GridSpec, RasterSize, SeriesDirection, XAxis,
};
use unifly::color::{color_to_rgb, indexed_to_rgb, nearest_ansi16, quantize_color, quantize_cube_channel, rgb_distance, TermColor};
use unifly::faceplate::{is_uplink, poe_modifier, port_glyph, port_style, PoeInfo, Port, PortConnector, PortState, SwitchFaceplate};
use unifly::graphics::{picker_protocol_from_graphics, probe_outcome, protocol_from_picker, PickerProtocol};
use unifly::heatmap::{cell_spans, HeatmapCell, HyperHeatmap};
use unifly::render_caps::{ColorDepth, GraphicsProtocol};
use unifly::style::{StyledSpan, ThemeRole};
use unifly::stats::{period_index, StatsPeriod};
use unifly::subcell::{
    column_plan, glyph, paint_down_column, paint_up_column, snapped_baseline, supports, BaselineKind,
    CellPaint, CellTone, SeriesShape,
};

fn texts(line: &[StyledSpan]) -> Vec<String> {
    line.iter().map(|s| s.text.clone()).collect()
}

// ── Faceplate ─────────────────────────────────────────────────────────

fn port(index: u32, state: PortState, speed_mbps: Option<u32>) -> Port {
    Port {
        index,
        name: None,
        state,
        speed_mbps,
        max_speed_mbps: Some(1_000),
        connector: Some(PortConnector::Rj45),
        poe: None,
    }
}

#[test]
fn port_glyph_tracks_link_state_and_speed() {
    assert_eq!(port_glyph(&port(1, PortState::Up, Some(1_000))), "█");
    assert_eq!(port_glyph(&port(2, PortState::Up, Some(100))), "▓");
    assert_eq!(port_glyph(&port(3, PortState::Down, None)), "░");
}

#[test]
fn poe_ports_render_bold() {
    let mut port = port(1, PortState::Up, Some(1_000));
    port.poe = Some(PoeInfo {
        standard: Some("PoE+".into()),
        enabled: true,
        state: PortState::Up,
    });

    assert!(poe_modifier(&port));
}

#[test]
fn slow_and_unknown_ports_have_their_own_glyphs() {
    assert_eq!(port_glyph(&port(1, PortState::Up, Some(10))), "▒");
    assert_eq!(port_glyph(&port(1, PortState::Up, None)), "▒");
    assert_eq!(port_glyph(&port(1, PortState::Unknown, None)), "·");
}

#[test]
fn fibre_ports_are_uplinks_and_stand_out() {
    let mut p = port(25, PortState::Up, Some(10_000));
    p.connector = Some(PortConnector::SfpPlus);
    assert!(is_uplink(&p));
    assert_eq!(port_style(&p), ThemeRole::AccentPrimary);
    assert!(!is_uplink(&port(1, PortState::Up, Some(1_000))));
    assert_eq!(port_style(&port(1, PortState::Up, Some(1_000))), ThemeRole::Success);
    assert_eq!(port_style(&port(1, PortState::Up, Some(100))), ThemeRole::Warning);
    assert_eq!(port_style(&port(1, PortState::Down, None)), ThemeRole::TextMuted);
}

#[test]
fn empty_faceplate_shows_its_message() {
    let ports: Vec<Port> = Vec::new();
    let lines = SwitchFaceplate::new(&ports).lines(40);
    assert_eq!(lines.len(), 1);
    assert_eq!(texts(&lines[0]), vec!["No port data available"]);
    assert_eq!(lines[0][0].role, Some(ThemeRole::TextMuted));
    let lines = SwitchFaceplate::new(&ports).empty_message("nothing").lines(40);
    assert_eq!(texts(&lines[0]), vec!["nothing"]);
}

#[test]
fn faceplate_draws_pairs_in_banks() {
    let ports = vec![
        port(1, PortState::Up, Some(1_000)),
        port(2, PortState::Down, None),
        port(3, PortState::Up, Some(100)),
    ];
    // Width 10 leaves room for two pairs per bank: pairs 1..=2 in one bank.
    let lines = SwitchFaceplate::new(&ports).lines(10);
    assert_eq!(lines.len(), 5);
    assert_eq!(texts(&lines[0]), vec![" ", " 1  ", " 3  "]);
    assert_eq!(texts(&lines[1]), vec![" ", "▟█▙ ", "▟▓▙ "]);
    assert_eq!(texts(&lines[2]), vec![" ", "▜░▛ ", "    "]);
    assert_eq!(texts(&lines[3]), vec![" ", " 2  ", "    "]);
    assert_eq!(lines[4][0].text, "  █ 1G+  ");
    // Width 6 holds one pair per bank: two banks.
    let narrow = SwitchFaceplate::new(&ports).lines(6);
    assert_eq!(narrow.len(), 9);
    assert_eq!(texts(&narrow[4]), vec![" ", " 3  "]);
}

#[test]
fn the_last_port_listed_for_an_index_wins() {
    let ports = vec![port(1, PortState::Down, None), port(1, PortState::Up, Some(1_000))];
    let lines = SwitchFaceplate::new(&ports).lines(20);
    assert_eq!(lines[1][1].text, "▟█▙ ");
}

// ── Heatmap ───────────────────────────────────────────────────────────

#[test]
fn heatmap_cell_width_accounts_for_markers() {
    let cell = HeatmapCell {
        label: "ch6".into(),
        your_count: 1,
        neighbor_count: 3,
        signal: Some(-66),
        conflict: true,
    };

    let (width, spans) = cell_spans(&cell);

    assert!(width >= 15);
    assert!(spans.len() >= 7);
}

#[test]
fn heatmap_cell_layout_is_exact() {
    let cell = HeatmapCell {
        label: "ch6".into(),
        your_count: 1,
        neighbor_count: 3,
        signal: Some(-66),
        conflict: true,
    };
    let (width, spans) = cell_spans(&cell);
    assert_eq!(width, 4 + 5 + 1 + 2 + 5 + 2);
    assert_eq!(texts(&spans), vec![" ch6", "▕", "███", "▏", "▲", "·3", " -66d", "  "]);
    assert!(spans[0].bold);
    assert_eq!(spans[0].role, Some(ThemeRole::Warning));
    assert_eq!(spans[2].role, Some(ThemeRole::Warning));
    assert_eq!(spans[7].role, None);
}

#[test]
fn quiet_channels_show_dots_and_cap_neighbours_at_nine() {
    let idle = HeatmapCell { label: "ch11".into(), your_count: 0, neighbor_count: 0, signal: None, conflict: false };
    let (width, spans) = cell_spans(&idle);
    assert_eq!(width, 4 + 5 + 2);
    assert_eq!(texts(&spans), vec!["ch11", "▕", "···", "▏", "  "]);
    assert_eq!(spans[2].role, Some(ThemeRole::TextMuted));
    let crowded = HeatmapCell { label: "1".into(), your_count: 0, neighbor_count: 12, signal: None, conflict: false };
    let (_, spans) = cell_spans(&crowded);
    assert_eq!(texts(&spans), vec!["   1", "▕", "███", "▏", "·9", "  "]);
    assert_eq!(spans[2].role, Some(ThemeRole::WifiNeighbor));
}

#[test]
fn heatmap_wraps_cells_and_adds_a_legend() {
    let cells: Vec<HeatmapCell> = (1..=3)
        .map(|n| HeatmapCell { label: format!("{n}"), your_count: 0, neighbor_count: 1, signal: None, conflict: false })
        .collect();
    // Each cell is 4 + 5 + 2 + 2 = 13 columns wide.
    let wide = HyperHeatmap::new(&cells).lines(80);
    assert_eq!(wide.len(), 2);
    assert_eq!(wide[0].len(), 18);
    let narrow = HyperHeatmap::new(&cells).lines(26);
    assert_eq!(narrow.len(), 3);
    assert_eq!(narrow[0].len(), 12);
    assert_eq!(narrow[1].len(), 6);
    assert_eq!(narrow[2][0].text, "  ░ clear  ");
    let all: Vec<String> = narrow[..2].iter().flat_map(|l| texts(l)).collect();
    let flat: Vec<String> = wide[0].iter().map(|s| s.text.clone()).collect();
    assert_eq!(all, flat);
}

#[test]
fn empty_heatmap_shows_its_message() {
    let cells: Vec<HeatmapCell> = Vec::new();
    let lines = HyperHeatmap::new(&cells).lines(40);
    assert_eq!(texts(&lines[0]), vec!["No channel data"]);
    let lines = HyperHeatmap::new(&cells).empty_message("scan first").lines(40);
    assert_eq!(texts(&lines[0]), vec!["scan first"]);
}

// ── Sub-cell fills ────────────────────────────────────────────────────

#[test]
fn lower_blocks_cover_their_eighths() {
    assert_eq!(glyph(0), " ");
    assert_eq!(glyph(2), "▂");
    assert_eq!(glyph(5), "▅");
    assert_eq!(glyph(8), "█");
    assert_eq!(glyph(12), "█");
}

#[test]
fn full_value_column_fills_to_the_top() {
    // A four-row plot is 32 eighths tall; a full value reaches eighth 0.
    let plan = column_plan(SeriesDirection::Up, 0, 32, 32);
    assert_eq!(plan.len(), 4);
    assert!(plan.iter().all(|c| c.glyph == 8 && matches!(c.tone, CellTone::Band { .. })));
}

#[test]
fn half_value_boundary_cell_is_partial_in_line_color() {
    // 2.25 of 4.0 over 32 eighths puts the edge at eighth 14.
    let plan = column_plan(SeriesDirection::Up, 14, 32, 32);
    assert_eq!(plan.len(), 3);
    assert_eq!(plan[0], CellPaint { row: 1, glyph: 2, tone: CellTone::Line });
    assert_eq!(plan[1].row, 2);
    assert_eq!(plan[1].glyph, 8);
    assert_eq!(plan[2].row, 3);
    assert_eq!(plan[2].glyph, 8);
    // What the renderer draws: the boundary glyph in the line colour over
    // solid blocks, and nothing in the top row.
    assert_eq!(glyph(plan[0].glyph), "▂");
    assert_eq!(glyph(plan[1].glyph), "█");
    assert_eq!(glyph(plan[2].glyph), "█");
    assert!(plan.iter().all(|cell| cell.row != 0));
    assert!(matches!(plan[1].tone, CellTone::Band { .. }));
}

#[test]
fn zero_value_keeps_a_heartbeat_floor() {
    let plan = column_plan(SeriesDirection::Up, 32, 32, 32);
    assert_eq!(plan, vec![CellPaint { row: 3, glyph: 1, tone: CellTone::Line }]);
    assert_eq!(glyph(plan[0].glyph), "▁");
}

#[test]
fn mirror_halves_compose_without_sharing_cells() {
    // Baseline at eighth 48 of 64; the lower series reaches eighth 59.
    let up = column_plan(SeriesDirection::Up, 0, 48, 64);
    let down = column_plan(SeriesDirection::Down, 59, 48, 64);
    assert_eq!(up.len(), 6);
    assert_eq!(down.len(), 2);
    assert_eq!(down[0].row, 6);
    assert_eq!(down[0].glyph, 8);
    assert_eq!(down[1], CellPaint { row: 7, glyph: 5, tone: CellTone::Inverted });
    assert_eq!(glyph(down[0].glyph), "█");
    assert_eq!(glyph(down[1].glyph), "▅");
    assert!(up.iter().all(|u| down.iter().all(|d| u.row < d.row)));
}

#[test]
fn band_distances_are_measured_from_the_baseline() {
    let plan = paint_up_column(0, 16);
    assert_eq!(plan[0].tone, CellTone::Band { distance: 12, span: 16 });
    assert_eq!(plan[1].tone, CellTone::Band { distance: 4, span: 16 });
    let plan = paint_down_column(16, 32);
    assert_eq!(plan[0].tone, CellTone::Band { distance: 4, span: 16 });
    assert_eq!(plan[1].tone, CellTone::Band { distance: 12, span: 16 });
    assert!(paint_up_column(5, 5).is_empty());
}

#[test]
fn baseline_snaps_to_the_nearest_cell_boundary() {
    assert_eq!(snapped_baseline(32, 32), 32);
    assert_eq!(snapped_baseline(20, 32), 24);
    assert_eq!(snapped_baseline(19, 32), 16);
    assert_eq!(snapped_baseline(3, 32), 0);
}

#[test]
fn unfilled_series_is_unsupported() {
    let up = SeriesShape { filled: true, direction: SeriesDirection::Up };
    let down = SeriesShape { filled: true, direction: SeriesDirection::Down };
    let unfilled = SeriesShape { filled: false, direction: SeriesDirection::Up };
    assert!(!supports(&[unfilled], BaselineKind::Zero));
    assert!(!supports(&[], BaselineKind::Zero));
    assert!(supports(&[up], BaselineKind::Zero));
    assert!(!supports(&[up, up], BaselineKind::Zero));
    assert!(!supports(&[down], BaselineKind::Zero));
    assert!(supports(&[up, down], BaselineKind::Mirror));
    assert!(!supports(&[down, down], BaselineKind::Mirror));
}

// ── Chart model ───────────────────────────────────────────────────────

#[test]
fn marker_value_label_goes_right_then_left() {
    assert_eq!(marker_value_x(5, 0, 40), Some(6));
    assert_eq!(marker_value_x(35, 0, 40), Some(26));
    assert_eq!(marker_value_x(5, 0, 12), None);
}

#[test]
fn chart_model_small_decisions() {
    assert_eq!(GridSpec { tick_count: 4 }.divisions(), 3);
    assert_eq!(GridSpec { tick_count: 0 }.divisions(), 1);
    assert_eq!(AnnotationKind::Now.symbol(), "●");
    assert_eq!(AnnotationKind::Peak.symbol(), "◆");
    assert!(AnnotationKind::Now.shows_value());
    assert!(!AnnotationKind::Peak.shows_value());
    assert_eq!(RasterSize { width: 0, height: 32 }.drawn(), (1, 32));
    assert_eq!(band_count(FillKind::Unfilled, 5), None);
    assert_eq!(band_count(FillKind::Solid, 5), Some(1));
    assert_eq!(band_count(FillKind::Gradient, 1), Some(2));
    assert_eq!(band_count(FillKind::Gradient, 30), Some(10));
}

// ── Colour ────────────────────────────────────────────────────────────

#[test]
fn ansi256_gradient_quantizes_to_indexed_colors() {
    assert_eq!(quantize_color(TermColor::Rgb(255, 0, 0), ColorDepth::Ansi256), TermColor::Indexed(196));
    assert_eq!(quantize_color(TermColor::Rgb(0, 0, 0), ColorDepth::Ansi256), TermColor::Indexed(16));
    assert_eq!(quantize_cube_channel(127), 2);
    assert_eq!(quantize_cube_channel(255), 5);
}

#[test]
fn ansi16_gradient_uses_basic_palette() {
    assert_eq!(quantize_color(TermColor::Rgb(250, 80, 80), ColorDepth::Ansi16), TermColor::LightRed);
    assert_eq!(nearest_ansi16(TermColor::Cyan), TermColor::Cyan);
    assert_eq!(nearest_ansi16(TermColor::Reset), TermColor::Gray);
}

#[test]
fn no_color_gradient_resets_every_band() {
    assert_eq!(quantize_color(TermColor::Rgb(1, 2, 3), ColorDepth::NoColor), TermColor::Reset);
    assert_eq!(quantize_color(TermColor::Rgb(1, 2, 3), ColorDepth::TrueColor), TermColor::Rgb(1, 2, 3));
}

#[test]
fn palette_entries_have_their_rgb_values() {
    assert_eq!(indexed_to_rgb(1), (170, 0, 0));
    assert_eq!(indexed_to_rgb(16 + 36 + 6 + 1), (95, 95, 95));
    assert_eq!(indexed_to_rgb(232), (8, 8, 8));
    assert_eq!(indexed_to_rgb(255), (238, 238, 238));
    assert_eq!(color_to_rgb(TermColor::Reset), (192, 192, 192));
    assert_eq!(rgb_distance((0, 0, 0), (3, 4, 0)), 25);
}

// ── Graphics protocol probing ─────────────────────────────────────────

#[test]
fn picker_protocol_maps_to_pixel_caps() {
    assert_eq!(protocol_from_picker(PickerProtocol::Kitty), GraphicsProtocol::Kitty);
    assert_eq!(protocol_from_picker(PickerProtocol::Sixel), GraphicsProtocol::Sixel);
    assert_eq!(protocol_from_picker(PickerProtocol::Halfblocks), GraphicsProtocol::Off);
}

#[test]
fn graphics_protocol_maps_back_to_picker_protocol() {
    assert_eq!(picker_protocol_from_graphics(GraphicsProtocol::Kitty), Some(PickerProtocol::Kitty));
    assert_eq!(picker_protocol_from_graphics(GraphicsProtocol::Off), None);
}

#[test]
fn probing_keeps_the_picker_only_for_pixels() {
    let disabled = probe_outcome(true, Some(PickerProtocol::Kitty), None);
    assert_eq!(disabled.protocol, GraphicsProtocol::Off);
    assert!(!disabled.keep_picker);
    let failed = probe_outcome(false, None, Some(GraphicsProtocol::Kitty));
    assert_eq!(failed.protocol, GraphicsProtocol::Off);
    let forced = probe_outcome(false, Some(PickerProtocol::Halfblocks), Some(GraphicsProtocol::Sixel));
    assert_eq!(forced.protocol, GraphicsProtocol::Sixel);
    assert!(forced.keep_picker);
    assert_eq!(forced.set_protocol, Some(PickerProtocol::Sixel));
    let answered = probe_outcome(false, Some(PickerProtocol::Halfblocks), None);
    assert_eq!(answered.protocol, GraphicsProtocol::Off);
    assert!(!answered.keep_picker);
}

#[test]
fn fills_cover_exactly_their_span() {
    fn covered(plan: &[CellPaint]) -> usize {
        plan.iter()
            .map(|c| if c.tone == CellTone::Inverted { 8 - c.glyph } else { c.glyph })
            .sum()
    }
    for (top, baseline) in [(0, 32), (14, 32), (31, 32), (3, 21), (9, 9)] {
        assert_eq!(covered(&paint_up_column(top, baseline)), baseline - top);
    }
    for (baseline, bottom) in [(16, 59), (48, 64), (5, 6), (7, 7)] {
        assert_eq!(covered(&paint_down_column(baseline, bottom)), bottom - baseline);
    }
}

#[test]
fn canvas_reserves_an_axis_row_and_samples_densely() {
    assert!(has_x_axis(XAxis::Epoch, 7));
    assert!(!has_x_axis(XAxis::Epoch, 6));
    assert!(!has_x_axis(XAxis::Hidden, 20));
    assert_eq!(plot_density(0), 160);
    assert_eq!(plot_density(40), 160);
    assert_eq!(plot_density(41), 164);
    assert_eq!(plot_density(100), 400);
}

#[test]
fn stats_periods_are_indexed_shortest_first() {
    assert_eq!(period_index(StatsPeriod::OneHour), 0);
    assert_eq!(period_index(StatsPeriod::TwentyFourHours), 1);
    assert_eq!(period_index(StatsPeriod::SevenDays), 2);
    assert_eq!(period_index(StatsPeriod::ThirtyDays), 3);
}
