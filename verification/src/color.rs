//! Terminal colours and their quantisation to what a terminal can show.
//!
//! Gradients are computed in full colour; a terminal limited to the
//! 256-colour palette gets the nearest entry of its 6x6x6 cube, one
//! limited to 16 colours gets the nearest basic colour, and one without
//! colour gets the default.

use vstd::prelude::*;
use crate::render_caps::ColorDepth;

verus! {

/// A terminal colour: the default, one of the sixteen named colours, a
/// 24-bit colour or an entry of the 256-colour palette.
#[derive(Debug, Clone, Copy, PartialEq, Eq, Structural)]
pub enum TermColor {
    Reset,
    Black,
    Red,
    Green,
    Yellow,
    Blue,
    Magenta,
    Cyan,
    Gray,
    DarkGray,
    LightRed,
    LightGreen,
    LightYellow,
    LightBlue,
    LightMagenta,
    LightCyan,
    White,
    Rgb(u8, u8, u8),
    Indexed(u8),
}

/// The sixteen basic colours in palette order, with the RGB value each
/// stands for.
pub open spec fn spec_ansi16(k: int) -> (TermColor, (u8, u8, u8)) {
    if k == 0 {
        (TermColor::Black, (0, 0, 0))
    } else if k == 1 {
        (TermColor::Red, (170, 0, 0))
    } else if k == 2 {
        (TermColor::Green, (0, 170, 0))
    } else if k == 3 {
        (TermColor::Yellow, (170, 85, 0))
    } else if k == 4 {
        (TermColor::Blue, (0, 0, 170))
    } else if k == 5 {
        (TermColor::Magenta, (170, 0, 170))
    } else if k == 6 {
        (TermColor::Cyan, (0, 170, 170))
    } else if k == 7 {
        (TermColor::Gray, (170, 170, 170))
    } else if k == 8 {
        (TermColor::DarkGray, (85, 85, 85))
    } else if k == 9 {
        (TermColor::LightRed, (255, 85, 85))
    } else if k == 10 {
        (TermColor::LightGreen, (85, 255, 85))
    } else if k == 11 {
        (TermColor::LightYellow, (255, 255, 85))
    } else if k == 12 {
        (TermColor::LightBlue, (85, 85, 255))
    } else if k == 13 {
        (TermColor::LightMagenta, (255, 85, 255))
    } else if k == 14 {
        (TermColor::LightCyan, (85, 255, 255))
    } else {
        (TermColor::White, (255, 255, 255))
    }
}

fn ansi16(k: usize) -> (r: (TermColor, (u8, u8, u8)))
    requires
        k < 16,
    ensures
        r == spec_ansi16(k as int),
{
    if k == 0 {
        (TermColor::Black, (0, 0, 0))
    } else if k == 1 {
        (TermColor::Red, (170, 0, 0))
    } else if k == 2 {
        (TermColor::Green, (0, 170, 0))
    } else if k == 3 {
        (TermColor::Yellow, (170, 85, 0))
    } else if k == 4 {
        (TermColor::Blue, (0, 0, 170))
    } else if k == 5 {
        (TermColor::Magenta, (170, 0, 170))
    } else if k == 6 {
        (TermColor::Cyan, (0, 170, 170))
    } else if k == 7 {
        (TermColor::Gray, (170, 170, 170))
    } else if k == 8 {
        (TermColor::DarkGray, (85, 85, 85))
    } else if k == 9 {
        (TermColor::LightRed, (255, 85, 85))
    } else if k == 10 {
        (TermColor::LightGreen, (85, 255, 85))
    } else if k == 11 {
        (TermColor::LightYellow, (255, 255, 85))
    } else if k == 12 {
        (TermColor::LightBlue, (85, 85, 255))
    } else if k == 13 {
        (TermColor::LightMagenta, (255, 85, 255))
    } else if k == 14 {
        (TermColor::LightCyan, (85, 255, 255))
    } else {
        (TermColor::White, (255, 255, 255))
    }
}

/// The steps of the 256-colour cube along each channel.
pub open spec fn spec_cube_step(i: int) -> u8 {
    if i == 0 {
        0
    } else if i == 1 {
        95
    } else if i == 2 {
        135
    } else if i == 3 {
        175
    } else if i == 4 {
        215
    } else {
        255
    }
}

fn cube_step(i: u8) -> (r: u8)
    requires
        i < 6,
    ensures
        r == spec_cube_step(i as int),
{
    if i == 0 {
        0
    } else if i == 1 {
        95
    } else if i == 2 {
        135
    } else if i == 3 {
        175
    } else if i == 4 {
        215
    } else {
        255
    }
}

/// The RGB value of a 256-colour palette entry: the sixteen basic
/// colours, then the 6x6x6 cube, then a ramp of 24 greys.
pub open spec fn spec_indexed_rgb(index: u8) -> (u8, u8, u8) {
    if index < 16 {
        spec_ansi16(index as int).1
    } else if index <= 231 {
        let i = index - 16;
        (spec_cube_step(i / 36), spec_cube_step((i % 36) / 6), spec_cube_step(i % 6))
    } else {
        let gray = (8 + (index - 232) * 10) as u8;
        (gray, gray, gray)
    }
}

/// The RGB value a colour stands for; the default is taken as light grey.
pub open spec fn spec_color_rgb(color: TermColor) -> (u8, u8, u8) {
    match color {
        TermColor::Reset => (192, 192, 192),
        TermColor::Black => spec_ansi16(0).1,
        TermColor::Red => spec_ansi16(1).1,
        TermColor::Green => spec_ansi16(2).1,
        TermColor::Yellow => spec_ansi16(3).1,
        TermColor::Blue => spec_ansi16(4).1,
        TermColor::Magenta => spec_ansi16(5).1,
        TermColor::Cyan => spec_ansi16(6).1,
        TermColor::Gray => spec_ansi16(7).1,
        TermColor::DarkGray => spec_ansi16(8).1,
        TermColor::LightRed => spec_ansi16(9).1,
        TermColor::LightGreen => spec_ansi16(10).1,
        TermColor::LightYellow => spec_ansi16(11).1,
        TermColor::LightBlue => spec_ansi16(12).1,
        TermColor::LightMagenta => spec_ansi16(13).1,
        TermColor::LightCyan => spec_ansi16(14).1,
        TermColor::White => spec_ansi16(15).1,
        TermColor::Rgb(r, g, b) => (r, g, b),
        TermColor::Indexed(i) => spec_indexed_rgb(i),
    }
}

/// The RGB value of a 256-colour palette entry; see [`spec_indexed_rgb`].
pub fn indexed_to_rgb(index: u8) -> (r: (u8, u8, u8))
    ensures
        r == spec_indexed_rgb(index),
{
    if index < 16 {
        ansi16(index as usize).1
    } else if index <= 231 {
        let i = index - 16;
        (cube_step(i / 36), cube_step((i % 36) / 6), cube_step(i % 6))
    } else {
        let gray = 8 + (index - 232) * 10;
        (gray, gray, gray)
    }
}

/// The RGB value a colour stands for; see [`spec_color_rgb`].
pub fn color_to_rgb(color: TermColor) -> (r: (u8, u8, u8))
    ensures
        r == spec_color_rgb(color),
{
    match color {
        TermColor::Reset => (192, 192, 192),
        TermColor::Black => ansi16(0).1,
        TermColor::Red => ansi16(1).1,
        TermColor::Green => ansi16(2).1,
        TermColor::Yellow => ansi16(3).1,
        TermColor::Blue => ansi16(4).1,
        TermColor::Magenta => ansi16(5).1,
        TermColor::Cyan => ansi16(6).1,
        TermColor::Gray => ansi16(7).1,
        TermColor::DarkGray => ansi16(8).1,
        TermColor::LightRed => ansi16(9).1,
        TermColor::LightGreen => ansi16(10).1,
        TermColor::LightYellow => ansi16(11).1,
        TermColor::LightBlue => ansi16(12).1,
        TermColor::LightMagenta => ansi16(13).1,
        TermColor::LightCyan => ansi16(14).1,
        TermColor::White => ansi16(15).1,
        TermColor::Rgb(r, g, b) => (r, g, b),
        TermColor::Indexed(i) => indexed_to_rgb(i),
    }
}

/// A channel value scaled to the six cube steps, rounded to nearest.
pub open spec fn spec_cube_channel(value: u8) -> int {
    (value * 5 + 127) / 255
}

/// A channel value scaled to the cube; see [`spec_cube_channel`].
pub fn quantize_cube_channel(value: u8) -> (r: u8)
    ensures
        r == spec_cube_channel(value),
        r <= 5,
{
    let channel: u16 = (value as u16 * 5 + 127) / 255;
    channel as u8
}

/// Squared Euclidean distance between two RGB values.
pub open spec fn spec_rgb_distance(left: (u8, u8, u8), right: (u8, u8, u8)) -> int {
    let dr = left.0 - right.0;
    let dg = left.1 - right.1;
    let db = left.2 - right.2;
    dr * dr + dg * dg + db * db
}

/// Squared distance between two RGB values; see [`spec_rgb_distance`].
pub fn rgb_distance(left: (u8, u8, u8), right: (u8, u8, u8)) -> (r: u32)
    ensures
        r == spec_rgb_distance(left, right),
{
    let dr: i32 = left.0 as i32 - right.0 as i32;
    let dg: i32 = left.1 as i32 - right.1 as i32;
    let db: i32 = left.2 as i32 - right.2 as i32;
    assert(dr * dr <= 65025 && dg * dg <= 65025 && db * db <= 65025) by (nonlinear_arith)
        requires
            -255 <= dr <= 255,
            -255 <= dg <= 255,
            -255 <= db <= 255,
    ;
    assert(dr * dr >= 0 && dg * dg >= 0 && db * db >= 0) by (nonlinear_arith);
    (dr * dr + dg * dg + db * db) as u32
}

/// The palette position, among the first `n` basic colours, of the one
/// nearest to `rgb`; the earliest wins a tie.
pub open spec fn spec_nearest_among(rgb: (u8, u8, u8), n: int) -> int
    decreases n,
{
    if n <= 1 {
        0
    } else {
        let best = spec_nearest_among(rgb, n - 1);
        if spec_rgb_distance(rgb, spec_ansi16(n - 1).1) < spec_rgb_distance(rgb, spec_ansi16(best).1) {
            n - 1
        } else {
            best
        }
    }
}

/// The basic colour nearest to a colour's RGB value.
pub open spec fn spec_nearest_ansi16(color: TermColor) -> TermColor {
    spec_ansi16(spec_nearest_among(spec_color_rgb(color), 16)).0
}

/// The basic colour nearest to `color`; see [`spec_nearest_ansi16`].
pub fn nearest_ansi16(color: TermColor) -> (r: TermColor)
    ensures
        r == spec_nearest_ansi16(color),
{
    let rgb = color_to_rgb(color);
    let mut best: usize = 0;
    let mut best_distance = rgb_distance(rgb, ansi16(0).1);
    let mut k: usize = 1;
    while k < 16
        invariant
            1 <= k <= 16,
            best == spec_nearest_among(rgb, k as int),
            best < 16,
            best_distance == spec_rgb_distance(rgb, spec_ansi16(best as int).1),
        decreases 16 - k,
    {
        let d = rgb_distance(rgb, ansi16(k).1);
        if d < best_distance {
            best = k;
            best_distance = d;
        }
        k = k + 1;
    }
    ansi16(best).0
}

/// The colour a terminal of the given depth shows for `color`.
pub open spec fn spec_quantize(color: TermColor, depth: ColorDepth) -> TermColor {
    match depth {
        ColorDepth::NoColor => TermColor::Reset,
        ColorDepth::TrueColor => color,
        ColorDepth::Ansi256 => {
            let (r, g, b) = spec_color_rgb(color);
            TermColor::Indexed(
                (16 + 36 * spec_cube_channel(r) + 6 * spec_cube_channel(g) + spec_cube_channel(b)) as u8,
            )
        },
        ColorDepth::Ansi16 => spec_nearest_ansi16(color),
    }
}

/// Quantises a colour for a terminal; see [`spec_quantize`].
pub fn quantize_color(color: TermColor, depth: ColorDepth) -> (r: TermColor)
    ensures
        r == spec_quantize(color, depth),
{
    match depth {
        ColorDepth::NoColor => TermColor::Reset,
        ColorDepth::TrueColor => color,
        ColorDepth::Ansi256 => {
            let (r, g, b) = color_to_rgb(color);
            let r = quantize_cube_channel(r);
            let g = quantize_cube_channel(g);
            let b = quantize_cube_channel(b);
            TermColor::Indexed(16 + (36 * r) + (6 * g) + b)
        },
        ColorDepth::Ansi16 => nearest_ansi16(color),
    }
}

proof fn lemma_palette_distinct(j: int, k: int)
    requires
        0 <= j < 16,
        0 <= k < 16,
        j != k,
    ensures
        spec_rgb_distance(spec_ansi16(k).1, spec_ansi16(j).1) > 0,
{
    let a = spec_ansi16(k).1;
    let b = spec_ansi16(j).1;
    assert(a != b);
    let dr = a.0 - b.0;
    let dg = a.1 - b.1;
    let db = a.2 - b.2;
    assert(dr != 0 || dg != 0 || db != 0);
    assert(dr * dr + dg * dg + db * db > 0) by (nonlinear_arith)
        requires
            dr != 0 || dg != 0 || db != 0,
    ;
}

proof fn lemma_nearest_to_palette_entry(k: int, n: int)
    requires
        0 <= k < n <= 16,
    ensures
        spec_nearest_among(spec_ansi16(k).1, n) == k,
    decreases n,
{
    let rgb = spec_ansi16(k).1;
    if n == k + 1 {
        if k > 0 {
            let best = spec_nearest_among(rgb, k);
            lemma_nearest_in_range(rgb, k);
            lemma_palette_distinct(best, k);
            assert(spec_rgb_distance(rgb, rgb) == 0);
        }
    } else {
        lemma_nearest_to_palette_entry(k, n - 1);
        let other = spec_ansi16(n - 1).1;
        let dr = rgb.0 - other.0;
        let dg = rgb.1 - other.1;
        let db = rgb.2 - other.2;
        assert(dr * dr + dg * dg + db * db >= 0) by (nonlinear_arith);
        assert(spec_rgb_distance(rgb, rgb) == 0);
    }
}

proof fn lemma_nearest_in_range(rgb: (u8, u8, u8), n: int)
    requires
        1 <= n <= 16,
    ensures
        0 <= spec_nearest_among(rgb, n) < n,
    decreases n,
{
    if n > 1 {
        lemma_nearest_in_range(rgb, n - 1);
    }
}

/// A basic colour needs no quantising on a 16-colour terminal: the
/// nearest basic colour to it is itself.
pub proof fn law_basic_colors_are_their_own_nearest(k: int)
    requires
        0 <= k < 16,
    ensures
        spec_quantize(spec_ansi16(k).0, ColorDepth::Ansi16) == spec_ansi16(k).0,
{
    lemma_nearest_to_palette_entry(k, 16);
    assert(spec_color_rgb(spec_ansi16(k).0) == spec_ansi16(k).1);
}

/// On a 256-colour terminal every colour lands in the 6x6x6 cube.
pub proof fn law_ansi256_lands_in_the_cube(color: TermColor)
    ensures
        spec_quantize(color, ColorDepth::Ansi256) matches TermColor::Indexed(i) && 16 <= i <= 231,
{
    let (r, g, b) = spec_color_rgb(color);
    assert(spec_cube_channel(r) <= 5 && spec_cube_channel(g) <= 5 && spec_cube_channel(b) <= 5);
}

/// Each channel is scaled to the cube step nearest to it: `c` is one of the
/// six steps and `5 · value` lies within half a step (127.5) of `255 · c`.
pub proof fn law_cube_channel_rounds_to_nearest(value: u8)
    ensures
        0 <= spec_cube_channel(value) <= 5,
        255 * spec_cube_channel(value) - 127 <= 5 * value <= 255 * spec_cube_channel(value) + 127,
{
}

/// On a 256-colour terminal a colour becomes the cube entry whose red,
/// green and blue are, channel for channel, the cube steps nearest to the
/// colour's own red, green and blue: reading the entry back through the
/// palette gives those steps in the same order.
pub proof fn law_ansi256_round_trips_through_the_palette(color: TermColor)
    ensures
        ({
            let (r, g, b) = spec_color_rgb(color);
            spec_quantize(color, ColorDepth::Ansi256) matches TermColor::Indexed(i) && 16 <= i <= 231
                && spec_indexed_rgb(i) == (
                spec_cube_step(spec_cube_channel(r)),
                spec_cube_step(spec_cube_channel(g)),
                spec_cube_step(spec_cube_channel(b)),
            )
        }),
{
    let (r, g, b) = spec_color_rgb(color);
    let cr = spec_cube_channel(r);
    let cg = spec_cube_channel(g);
    let cb = spec_cube_channel(b);
    assert(0 <= cr <= 5 && 0 <= cg <= 5 && 0 <= cb <= 5);
    let x = 36 * cr + 6 * cg + cb;
    assert(x / 36 == cr && (x % 36) / 6 == cg && x % 6 == cb) by (nonlinear_arith)
        requires
            x == 36 * cr + 6 * cg + cb,
            0 <= cr <= 5,
            0 <= cg <= 5,
            0 <= cb <= 5,
    ;
    let i = (16 + x) as u8;
    assert(i == 16 + x);
    assert((i - 16) as u8 == x);
}

/// The cube's six levels per channel: black, then 95 and on in steps of 40
/// up to full intensity.
pub proof fn law_cube_steps_are_the_xterm_levels(i: int)
    requires
        0 <= i <= 5,
    ensures
        spec_cube_step(i) == (if i == 0 {
            0
        } else {
            55 + 40 * i
        }),
{
}

proof fn lemma_nearest_is_minimal(rgb: (u8, u8, u8), n: int, k: int)
    requires
        0 <= k < n <= 16,
    ensures
        spec_rgb_distance(rgb, spec_ansi16(spec_nearest_among(rgb, n)).1) <= spec_rgb_distance(
            rgb,
            spec_ansi16(k).1,
        ),
    decreases n,
{
    if n > 1 && k < n - 1 {
        lemma_nearest_is_minimal(rgb, n - 1, k);
    } else if n > 1 {
        lemma_nearest_is_minimal(rgb, n - 1, 0);
    }
}

/// On a 16-colour terminal a colour becomes a basic colour no farther from
/// it (in squared RGB distance) than any other basic colour.
pub proof fn law_ansi16_picks_a_nearest_basic_color(color: TermColor, k: int)
    requires
        0 <= k < 16,
    ensures
        ({
            let q = spec_quantize(color, ColorDepth::Ansi16);
            let rgb = spec_color_rgb(color);
            &&& exists|j: int| 0 <= j < 16 && q == #[trigger] spec_ansi16(j).0
            &&& spec_rgb_distance(rgb, spec_color_rgb(q)) <= spec_rgb_distance(rgb, spec_ansi16(k).1)
        }),
{
    let rgb = spec_color_rgb(color);
    let j = spec_nearest_among(rgb, 16);
    lemma_nearest_in_range(rgb, 16);
    lemma_nearest_is_minimal(rgb, 16, k);
    assert(spec_color_rgb(spec_ansi16(j).0) == spec_ansi16(j).1);
}

} // verus!
