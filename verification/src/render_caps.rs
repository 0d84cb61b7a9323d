//! Terminal rendering capabilities for TUI charts and the environment
//! heuristics that detect them.
//!
//! Detection reads a snapshot of the environment: a list of
//! `(name, value)` pairs, of which the first with a given name counts.

use vstd::prelude::*;

use crate::text::{
    chars_is, chars_of, contains_lit, lower, normalize, spec_contains, spec_lower,
    spec_normalize,
};

verus! {

/// What a terminal can draw.
#[derive(Debug, Clone, Copy, PartialEq, Eq, Structural)]
pub struct RenderCaps {
    pub color_depth: ColorDepth,
    pub glyph_tier: GlyphTier,
    pub graphics_protocol: GraphicsProtocol,
}

#[derive(Debug, Clone, Copy, PartialEq, Eq, Structural)]
pub enum ColorDepth {
    NoColor,
    Ansi16,
    Ansi256,
    TrueColor,
}

#[derive(Debug, Clone, Copy, PartialEq, Eq, Structural)]
pub enum GlyphTier {
    Block,
    Braille,
    Octant,
}

#[derive(Debug, Clone, Copy, PartialEq, Eq, Hash, Structural)]
pub enum GraphicsProtocol {
    Off,
    Kitty,
    Sixel,
    Iterm2,
}

/// Chart marker drawn for each glyph tier.
#[derive(Debug, Clone, Copy, PartialEq, Eq, Structural)]
pub enum ChartMarker {
    HalfBlock,
    Braille,
    Octant,
}

impl GlyphTier {
    /// The chart marker of this tier.
    pub fn marker(self) -> (r: ChartMarker)
        ensures
            r == match self {
                GlyphTier::Block => ChartMarker::HalfBlock,
                GlyphTier::Braille => ChartMarker::Braille,
                GlyphTier::Octant => ChartMarker::Octant,
            },
    {
        match self {
            GlyphTier::Block => ChartMarker::HalfBlock,
            GlyphTier::Braille => ChartMarker::Braille,
            GlyphTier::Octant => ChartMarker::Octant,
        }
    }
}

impl GraphicsProtocol {
    /// Whether the protocol draws true pixels.
    pub fn is_pixels(self) -> (r: bool)
        ensures
            r == (self != GraphicsProtocol::Off),
    {
        match self {
            GraphicsProtocol::Kitty | GraphicsProtocol::Sixel | GraphicsProtocol::Iterm2 => true,
            GraphicsProtocol::Off => false,
        }
    }
}

// ── Environment snapshot ──────────────────────────────────────────────

/// The value of the first variable called `key`.
pub open spec fn spec_env_get(env: Seq<(String, String)>, key: Seq<char>) -> Option<Seq<char>>
    decreases env.len(),
{
    if env.len() == 0 {
        None
    } else if env[0].0@ == key {
        Some(env[0].1@)
    } else {
        spec_env_get(env.drop_first(), key)
    }
}

/// Looks `key` up in an environment snapshot.
pub fn env_get(env: &[(String, String)], key: &str) -> (r: Option<Vec<char>>)
    ensures
        match spec_env_get(env@, key@) {
            Some(v) => r matches Some(w) && w@ == v,
            None => r is None,
        },
{
    let k = chars_of(key);
    let mut i: usize = 0;
    assert(env@.subrange(0, env@.len() as int) =~= env@);
    while i < env.len()
        invariant
            i <= env.len(),
            k@ == key@,
            spec_env_get(env@, key@) == spec_env_get(env@.subrange(i as int, env@.len() as int), key@),
        decreases env.len() - i,
    {
        let name = chars_of(env[i].0.as_str());
        let ghost rest = env@.subrange(i as int, env@.len() as int);
        assert(rest[0] == env@[i as int]);
        if crate::text::chars_eq(&name, &k) {
            return Some(chars_of(env[i].1.as_str()));
        }
        assert(rest.drop_first() =~= env@.subrange(i + 1, env@.len() as int));
        i = i + 1;
    }
    None
}

/// The variable `key` is set (to any value).
pub open spec fn env_has(env: Seq<(String, String)>, key: Seq<char>) -> bool {
    spec_env_get(env, key) is Some
}

/// The variable `key` is set and its value contains `needle`.
pub open spec fn env_contains(env: Seq<(String, String)>, key: Seq<char>, needle: Seq<char>) -> bool {
    spec_env_get(env, key) matches Some(v) && spec_contains(v, needle)
}

fn env_var_contains(env: &[(String, String)], key: &str, needle: &str) -> (r: bool)
    ensures
        r == env_contains(env@, key@, needle@),
{
    match env_get(env, key) {
        Some(v) => contains_lit(&v, needle),
        None => false,
    }
}

// ── Parsers ───────────────────────────────────────────────────────────

pub open spec fn spec_parse_glyph_tier(value: Seq<char>) -> Option<GlyphTier> {
    let v = spec_normalize(value);
    if v == "block"@ || v == "blocks"@ || v == "minimal"@ {
        Some(GlyphTier::Block)
    } else if v == "braille"@ || v == "default"@ {
        Some(GlyphTier::Braille)
    } else if v == "octant"@ || v == "octants"@ || v == "ultra"@ {
        Some(GlyphTier::Octant)
    } else {
        None
    }
}

pub open spec fn spec_parse_graphics_protocol(value: Seq<char>) -> Option<GraphicsProtocol> {
    let v = spec_normalize(value);
    if v == "kitty"@ {
        Some(GraphicsProtocol::Kitty)
    } else if v == "sixel"@ || v == "sixels"@ {
        Some(GraphicsProtocol::Sixel)
    } else if v == "iterm2"@ || v == "iterm"@ {
        Some(GraphicsProtocol::Iterm2)
    } else if v == "off"@ || v == "none"@ || v == "false"@ || v == "0"@ {
        Some(GraphicsProtocol::Off)
    } else {
        None
    }
}

/// Parses a chart quality name (trimmed, case-insensitive).
pub fn parse_glyph_tier(value: &str) -> (r: Option<GlyphTier>)
    ensures
        r == spec_parse_glyph_tier(value@),
{
    let v = normalize(value);
    if chars_is(&v, "block") || chars_is(&v, "blocks") || chars_is(&v, "minimal") {
        Some(GlyphTier::Block)
    } else if chars_is(&v, "braille") || chars_is(&v, "default") {
        Some(GlyphTier::Braille)
    } else if chars_is(&v, "octant") || chars_is(&v, "octants") || chars_is(&v, "ultra") {
        Some(GlyphTier::Octant)
    } else {
        None
    }
}

/// Parses a graphics protocol name (trimmed, case-insensitive).
pub fn parse_graphics_protocol(value: &str) -> (r: Option<GraphicsProtocol>)
    ensures
        r == spec_parse_graphics_protocol(value@),
{
    let v = normalize(value);
    if chars_is(&v, "kitty") {
        Some(GraphicsProtocol::Kitty)
    } else if chars_is(&v, "sixel") || chars_is(&v, "sixels") {
        Some(GraphicsProtocol::Sixel)
    } else if chars_is(&v, "iterm2") || chars_is(&v, "iterm") {
        Some(GraphicsProtocol::Iterm2)
    } else if chars_is(&v, "off") || chars_is(&v, "none") || chars_is(&v, "false") || chars_is(
        &v,
        "0",
    ) {
        Some(GraphicsProtocol::Off)
    } else {
        None
    }
}

fn parse_glyph_tier_chars(v: &Vec<char>) -> (r: Option<GlyphTier>)
    ensures
        r == spec_parse_glyph_tier(v@),
{
    let s = crate::text::string_of(v);
    parse_glyph_tier(s.as_str())
}

fn parse_graphics_protocol_chars(v: &Vec<char>) -> (r: Option<GraphicsProtocol>)
    ensures
        r == spec_parse_graphics_protocol(v@),
{
    let s = crate::text::string_of(v);
    parse_graphics_protocol(s.as_str())
}

// ── Detection ─────────────────────────────────────────────────────────

pub open spec fn spec_detect_color_depth(env: Seq<(String, String)>) -> ColorDepth {
    if spec_env_get(env, "NO_COLOR"@) matches Some(v) && v.len() > 0 {
        ColorDepth::NoColor
    } else if spec_env_get(env, "COLORTERM"@) matches Some(v) && (v == "truecolor"@ || v
        == "24bit"@) {
        ColorDepth::TrueColor
    } else if env_contains(env, "TERM"@, "256color"@) {
        ColorDepth::Ansi256
    } else {
        ColorDepth::Ansi16
    }
}

/// Colour depth: `NO_COLOR` (non-empty) wins, then `COLORTERM`, then `TERM`.
pub fn detect_color_depth(env: &[(String, String)]) -> (r: ColorDepth)
    ensures
        r == spec_detect_color_depth(env@),
{
    if let Some(v) = env_get(env, "NO_COLOR") {
        if v.len() > 0 {
            return ColorDepth::NoColor;
        }
    }
    if let Some(v) = env_get(env, "COLORTERM") {
        if chars_is(&v, "truecolor") || chars_is(&v, "24bit") {
            return ColorDepth::TrueColor;
        }
    }
    if env_var_contains(env, "TERM", "256color") {
        return ColorDepth::Ansi256;
    }
    ColorDepth::Ansi16
}

pub open spec fn spec_forced_graphics_protocol(env: Seq<(String, String)>) -> Option<
    GraphicsProtocol,
> {
    match spec_env_get(env, "UNIFLY_GRAPHICS_PROTOCOL"@) {
        Some(v) => spec_parse_graphics_protocol(v),
        None => None,
    }
}

/// Graphics are switched off by `UNIFLY_DISABLE_GRAPHICS` (any value).
pub fn graphics_disabled_with(env: &[(String, String)]) -> (r: bool)
    ensures
        r == env_has(env@, "UNIFLY_DISABLE_GRAPHICS"@),
{
    env_get(env, "UNIFLY_DISABLE_GRAPHICS").is_some()
}

/// The protocol named by `UNIFLY_GRAPHICS_PROTOCOL`, when it parses.
pub fn forced_graphics_protocol_with(env: &[(String, String)]) -> (r: Option<GraphicsProtocol>)
    ensures
        r == spec_forced_graphics_protocol(env@),
{
    match env_get(env, "UNIFLY_GRAPHICS_PROTOCOL") {
        Some(v) => parse_graphics_protocol_chars(&v),
        None => None,
    }
}

pub open spec fn spec_detect_graphics_protocol(env: Seq<(String, String)>) -> GraphicsProtocol {
    if env_has(env, "UNIFLY_DISABLE_GRAPHICS"@) {
        GraphicsProtocol::Off
    } else if spec_forced_graphics_protocol(env) is Some {
        spec_forced_graphics_protocol(env).unwrap()
    } else if env_has(env, "KITTY_WINDOW_ID"@) || env_contains(env, "TERM"@, "xterm-kitty"@) {
        GraphicsProtocol::Kitty
    } else if env_contains(env, "TERM"@, "sixel"@) {
        GraphicsProtocol::Sixel
    } else {
        GraphicsProtocol::Off
    }
}

/// Graphics protocol: disabled, forced, or guessed from the terminal.
pub fn detect_graphics_protocol(env: &[(String, String)]) -> (r: GraphicsProtocol)
    ensures
        r == spec_detect_graphics_protocol(env@),
{
    if graphics_disabled_with(env) {
        return GraphicsProtocol::Off;
    }
    if let Some(protocol) = forced_graphics_protocol_with(env) {
        return protocol;
    }
    if env_get(env, "KITTY_WINDOW_ID").is_some() || env_var_contains(env, "TERM", "xterm-kitty") {
        return GraphicsProtocol::Kitty;
    }
    if env_var_contains(env, "TERM", "sixel") {
        return GraphicsProtocol::Sixel;
    }
    GraphicsProtocol::Off
}

pub open spec fn spec_octant_capable_terminal(env: Seq<(String, String)>) -> bool {
    ||| env_has(env, "KITTY_WINDOW_ID"@)
    ||| env_has(env, "GHOSTTY_RESOURCES_DIR"@)
    ||| env_has(env, "WEZTERM_EXECUTABLE"@)
    ||| env_contains(env, "TERM"@, "kitty"@)
    ||| env_contains(env, "TERM"@, "ghostty"@)
    ||| env_contains(env, "TERM"@, "wezterm"@)
    ||| env_contains(env, "TERM"@, "foot"@)
    ||| (spec_env_get(env, "TERM_PROGRAM"@) matches Some(p) && (spec_contains(
        spec_lower(p),
        "kitty"@,
    ) || spec_contains(spec_lower(p), "ghostty"@) || spec_contains(spec_lower(p), "wezterm"@)))
}

/// Terminals that rasterize block glyphs themselves, so octants render
/// whatever font is installed.
pub fn octant_capable_terminal(env: &[(String, String)]) -> (r: bool)
    ensures
        r == spec_octant_capable_terminal(env@),
{
    if env_get(env, "KITTY_WINDOW_ID").is_some() || env_get(env, "GHOSTTY_RESOURCES_DIR").is_some()
        || env_get(env, "WEZTERM_EXECUTABLE").is_some() {
        return true;
    }
    if env_var_contains(env, "TERM", "kitty") || env_var_contains(env, "TERM", "ghostty")
        || env_var_contains(env, "TERM", "wezterm") || env_var_contains(env, "TERM", "foot") {
        return true;
    }
    match env_get(env, "TERM_PROGRAM") {
        Some(p) => {
            let program = lower(&p);
            contains_lit(&program, "kitty") || contains_lit(&program, "ghostty") || contains_lit(
                &program,
                "wezterm",
            )
        },
        None => false,
    }
}

pub open spec fn spec_default_glyph_tier(env: Seq<(String, String)>) -> GlyphTier {
    if spec_octant_capable_terminal(env) {
        GlyphTier::Octant
    } else {
        GlyphTier::Braille
    }
}

/// Octant on terminals known to draw it, Braille elsewhere.
pub fn default_glyph_tier(env: &[(String, String)]) -> (r: GlyphTier)
    ensures
        r == spec_default_glyph_tier(env@),
{
    if octant_capable_terminal(env) {
        GlyphTier::Octant
    } else {
        GlyphTier::Braille
    }
}

pub open spec fn spec_glyph_tier(configured: Option<Seq<char>>, env: Seq<(String, String)>) -> GlyphTier {
    let from_env = match spec_env_get(env, "UNIFLY_CHART_QUALITY"@) {
        Some(v) => spec_parse_glyph_tier(v),
        None => None,
    };
    let from_config = match configured {
        Some(c) => spec_parse_glyph_tier(c),
        None => None,
    };
    match from_env {
        Some(t) => t,
        None => match from_config {
            Some(t) => t,
            None => spec_default_glyph_tier(env),
        },
    }
}

pub open spec fn spec_detect(configured: Option<Seq<char>>, env: Seq<(String, String)>) -> RenderCaps {
    RenderCaps {
        color_depth: spec_detect_color_depth(env),
        glyph_tier: spec_glyph_tier(configured, env),
        graphics_protocol: spec_detect_graphics_protocol(env),
    }
}

pub open spec fn opt_view(s: Option<&str>) -> Option<Seq<char>> {
    match s {
        Some(v) => Some(v@),
        None => None,
    }
}

impl RenderCaps {
    /// Detects capabilities from an environment snapshot. The chart quality
    /// comes from `UNIFLY_CHART_QUALITY` when it parses, else from the
    /// configured quality when that parses, else from the terminal.
    pub fn detect_with(configured_quality: Option<&str>, env: &[(String, String)]) -> (r: RenderCaps)
        ensures
            r == spec_detect(opt_view(configured_quality), env@),
    {
        let color_depth = detect_color_depth(env);
        let from_env = match env_get(env, "UNIFLY_CHART_QUALITY") {
            Some(v) => parse_glyph_tier_chars(&v),
            None => None,
        };
        let glyph_tier = match from_env {
            Some(t) => t,
            None => {
                let from_config = match configured_quality {
                    Some(c) => parse_glyph_tier(c),
                    None => None,
                };
                match from_config {
                    Some(t) => t,
                    None => default_glyph_tier(env),
                }
            },
        };
        RenderCaps {
            color_depth,
            glyph_tier,
            graphics_protocol: detect_graphics_protocol(env),
        }
    }

    /// The same capabilities with another graphics protocol.
    pub fn with_graphics_protocol(self, protocol: GraphicsProtocol) -> (r: RenderCaps)
        ensures
            r == (RenderCaps { graphics_protocol: protocol, ..self }),
    {
        RenderCaps { graphics_protocol: protocol, ..self }
    }
}

// ── Laws ──────────────────────────────────────────────────────────────

/// A non-empty `NO_COLOR` always wins over every other colour hint.
pub proof fn law_no_color_wins(env: Seq<(String, String)>)
    requires
        spec_env_get(env, "NO_COLOR"@) matches Some(v) && v.len() > 0,
    ensures
        spec_detect_color_depth(env) == ColorDepth::NoColor,
{
}

/// `UNIFLY_DISABLE_GRAPHICS` switches pixel graphics off whatever else is set.
pub proof fn law_disable_graphics_wins(env: Seq<(String, String)>)
    requires
        env_has(env, "UNIFLY_DISABLE_GRAPHICS"@),
    ensures
        spec_detect_graphics_protocol(env) == GraphicsProtocol::Off,
        !(spec_detect_graphics_protocol(env) != GraphicsProtocol::Off),
{
}

/// A chart quality in the environment that parses overrides the configured one.
pub proof fn law_env_quality_overrides_config(
    configured: Option<Seq<char>>,
    env: Seq<(String, String)>,
    t: GlyphTier,
)
    requires
        spec_env_get(env, "UNIFLY_CHART_QUALITY"@) matches Some(v) && spec_parse_glyph_tier(v)
            == Some(t),
    ensures
        spec_detect(configured, env).glyph_tier == t,
{
}

/// A configured quality that parses is used unless the environment names
/// one that parses.
pub proof fn law_config_quality_overrides_terminal(
    configured: Seq<char>,
    env: Seq<(String, String)>,
    t: GlyphTier,
)
    requires
        spec_parse_glyph_tier(configured) == Some(t),
        !(spec_env_get(env, "UNIFLY_CHART_QUALITY"@) matches Some(v) && spec_parse_glyph_tier(v)
            is Some),
    ensures
        spec_detect(Some(configured), env).glyph_tier == t,
{
}

/// A protocol named in `UNIFLY_GRAPHICS_PROTOCOL` that parses is the one
/// used, whatever the terminal (`TERM`, `KITTY_WINDOW_ID`) suggests, unless
/// graphics are disabled.
pub proof fn law_forced_protocol_wins(
    configured: Option<Seq<char>>,
    env: Seq<(String, String)>,
    v: Seq<char>,
    p: GraphicsProtocol,
)
    requires
        !env_has(env, "UNIFLY_DISABLE_GRAPHICS"@),
        spec_env_get(env, "UNIFLY_GRAPHICS_PROTOCOL"@) == Some(v),
        spec_parse_graphics_protocol(v) == Some(p),
    ensures
        spec_detect_graphics_protocol(env) == p,
        spec_detect(configured, env).graphics_protocol == p,
{
}

/// `COLORTERM=truecolor` (or `24bit`) gives true colour whatever `TERM`
/// says, unless `NO_COLOR` is set non-empty; a `TERM` naming 256 colours
/// gives the 256-colour palette when neither of those applies; and the 16
/// basic colours are the fallback.
pub proof fn law_color_depth_precedence(env: Seq<(String, String)>)
    requires
        !(spec_env_get(env, "NO_COLOR"@) matches Some(v) && v.len() > 0),
    ensures
        spec_env_get(env, "COLORTERM"@) == Some("truecolor"@) ==> spec_detect_color_depth(env)
            == ColorDepth::TrueColor,
        spec_env_get(env, "COLORTERM"@) == Some("24bit"@) ==> spec_detect_color_depth(env)
            == ColorDepth::TrueColor,
        !(spec_env_get(env, "COLORTERM"@) matches Some(v) && (v == "truecolor"@ || v == "24bit"@))
            ==> (spec_detect_color_depth(env) == if env_contains(env, "TERM"@, "256color"@) {
            ColorDepth::Ansi256
        } else {
            ColorDepth::Ansi16
        }),
{
}

/// With graphics neither disabled nor forced, Kitty is used inside Kitty
/// (`KITTY_WINDOW_ID` set, or a `TERM` naming `xterm-kitty`), Sixel on a
/// `TERM` naming sixel, and pixel graphics are off everywhere else.
pub proof fn law_protocol_guess_without_override(env: Seq<(String, String)>)
    requires
        !env_has(env, "UNIFLY_DISABLE_GRAPHICS"@),
        spec_forced_graphics_protocol(env) is None,
    ensures
        env_has(env, "KITTY_WINDOW_ID"@) ==> spec_detect_graphics_protocol(env) == GraphicsProtocol::Kitty,
        env_contains(env, "TERM"@, "xterm-kitty"@) ==> spec_detect_graphics_protocol(env)
            == GraphicsProtocol::Kitty,
        !env_has(env, "KITTY_WINDOW_ID"@) && !env_contains(env, "TERM"@, "xterm-kitty"@) ==> (
        spec_detect_graphics_protocol(env) == if env_contains(env, "TERM"@, "sixel"@) {
            GraphicsProtocol::Sixel
        } else {
            GraphicsProtocol::Off
        }),
{
}

/// Without a chart quality from the environment or the configuration, the
/// glyph tier is Octant on terminals that draw octants themselves (Kitty,
/// Ghostty, WezTerm, foot) and Braille elsewhere.
pub proof fn law_default_tier_follows_the_terminal(configured: Option<Seq<char>>, env: Seq<(String, String)>)
    requires
        !(spec_env_get(env, "UNIFLY_CHART_QUALITY"@) matches Some(v) && spec_parse_glyph_tier(v) is Some),
        !(configured matches Some(c) && spec_parse_glyph_tier(c) is Some),
    ensures
        env_has(env, "KITTY_WINDOW_ID"@) ==> spec_detect(configured, env).glyph_tier == GlyphTier::Octant,
        env_contains(env, "TERM"@, "foot"@) ==> spec_detect(configured, env).glyph_tier == GlyphTier::Octant,
        !spec_octant_capable_terminal(env) ==> spec_detect(configured, env).glyph_tier
            == GlyphTier::Braille,
{
}

} // verus!
