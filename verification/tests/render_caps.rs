use unifly::render_caps::{parse_graphics_protocol, ColorDepth, GlyphTier, GraphicsProtocol, RenderCaps};

fn env(pairs: &[(&str, &str)]) -> Vec<(String, String)> {
    pairs
        .iter()
        .map(|(name, value)| (name.to_string(), value.to_string()))
        .collect()
}

#[test]
fn no_color_wins_over_truecolor() {
    let caps = RenderCaps::detect_with(None, &env(&[("NO_COLOR", "1"), ("COLORTERM", "truecolor")]));

    assert_eq!(caps.color_depth, ColorDepth::NoColor);
    assert_eq!(caps.graphics_protocol, GraphicsProtocol::Off);
}

#[test]
fn empty_no_color_does_not_disable_color() {
    let caps = RenderCaps::detect_with(None, &env(&[("NO_COLOR", ""), ("COLORTERM", "truecolor")]));

    assert_eq!(caps.color_depth, ColorDepth::TrueColor);
}

#[test]
fn detects_truecolor_before_ansi256() {
    let caps = RenderCaps::detect_with(None, &env(&[("COLORTERM", "24bit"), ("TERM", "xterm-256color")]));

    assert_eq!(caps.color_depth, ColorDepth::TrueColor);
}

#[test]
fn detects_ansi256_from_term() {
    let caps = RenderCaps::detect_with(None, &env(&[("TERM", "screen-256color")]));

    assert_eq!(caps.color_depth, ColorDepth::Ansi256);
}

#[test]
fn defaults_to_braille_on_unknown_terminals() {
    let caps = RenderCaps::detect_with(None, &env(&[]));

    assert_eq!(caps.color_depth, ColorDepth::Ansi16);
    assert_eq!(caps.glyph_tier, GlyphTier::Braille);
}

#[test]
fn octant_capable_terminals_default_to_octant() {
    for vars in [
        [("TERM", "xterm-ghostty")].as_slice(),
        [("KITTY_WINDOW_ID", "1")].as_slice(),
        [("TERM_PROGRAM", "WezTerm")].as_slice(),
        [("TERM", "foot-extra")].as_slice(),
    ] {
        let caps = RenderCaps::detect_with(None, &env(vars));
        assert_eq!(caps.glyph_tier, GlyphTier::Octant, "vars: {vars:?}");
    }
}

#[test]
fn config_quality_overrides_terminal_gating() {
    let caps = RenderCaps::detect_with(Some("octant"), &env(&[("TERM", "xterm-256color")]));

    assert_eq!(caps.glyph_tier, GlyphTier::Octant);
}

#[test]
fn env_chart_quality_overrides_config() {
    let caps = RenderCaps::detect_with(Some("block"), &env(&[("UNIFLY_CHART_QUALITY", "octant")]));

    assert_eq!(caps.glyph_tier, GlyphTier::Octant);
}

#[test]
fn invalid_env_chart_quality_falls_back_to_config() {
    let caps = RenderCaps::detect_with(Some("block"), &env(&[("UNIFLY_CHART_QUALITY", "crystal")]));

    assert_eq!(caps.glyph_tier, GlyphTier::Block);
}

#[test]
fn config_chart_quality_is_used_without_env() {
    let caps = RenderCaps::detect_with(Some("block"), &env(&[]));

    assert_eq!(caps.glyph_tier, GlyphTier::Block);
}

#[test]
fn graphics_protocol_can_be_forced_from_env() {
    let caps = RenderCaps::detect_with(None, &env(&[("UNIFLY_GRAPHICS_PROTOCOL", "kitty")]));

    assert_eq!(caps.graphics_protocol, GraphicsProtocol::Kitty);
}

#[test]
fn graphics_protocol_can_be_disabled() {
    let caps = RenderCaps::detect_with(
        None,
        &env(&[("UNIFLY_DISABLE_GRAPHICS", "1"), ("UNIFLY_GRAPHICS_PROTOCOL", "kitty")]),
    );

    assert_eq!(caps.graphics_protocol, GraphicsProtocol::Off);
}

#[test]
fn protocol_names_parse_trimmed_and_case_insensitively() {
    assert_eq!(parse_graphics_protocol("  KiTTy "), Some(GraphicsProtocol::Kitty));
    assert_eq!(parse_graphics_protocol("sixels"), Some(GraphicsProtocol::Sixel));
    assert_eq!(parse_graphics_protocol("iterm"), Some(GraphicsProtocol::Iterm2));
    assert_eq!(parse_graphics_protocol("0"), Some(GraphicsProtocol::Off));
    assert_eq!(parse_graphics_protocol("png"), None);
}

#[test]
fn switching_protocol_keeps_the_other_capabilities() {
    let caps = RenderCaps::detect_with(Some("block"), &env(&[("TERM", "xterm-256color")]));
    let switched = caps.with_graphics_protocol(GraphicsProtocol::Sixel);
    assert_eq!(switched.graphics_protocol, GraphicsProtocol::Sixel);
    assert_eq!(switched.color_depth, caps.color_depth);
    assert_eq!(switched.glyph_tier, caps.glyph_tier);
}

#[test]
fn pixel_protocols_are_the_ones_that_are_not_off() {
    assert!(GraphicsProtocol::Kitty.is_pixels());
    assert!(GraphicsProtocol::Iterm2.is_pixels());
    assert!(!GraphicsProtocol::Off.is_pixels());
}
