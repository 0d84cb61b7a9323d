//! The plain parts of the chart model: the enums and sizes that describe a
//! chart, and the integer decisions made from them.

use vstd::prelude::*;

verus! {

/// Direction relative to the chart baseline.
#[derive(Debug, Clone, Copy, PartialEq, Eq, Structural)]
pub enum SeriesDirection {
    Up,
    Down,
}

/// Y-axis label formatting domain.
#[derive(Debug, Clone, Copy, PartialEq, Eq, Structural)]
pub enum Domain {
    /// Bytes-per-second rate (labels look like `"1.2G"`, `"500K"`).
    Rate,
    /// Integer counts (labels look like `"42"`).
    Count,
}

/// X-axis label model.
#[derive(Debug, Clone, Copy)]
pub enum XAxis {
    Hidden,
    /// x is a monotonic sample index; labels are relative to the newest
    /// visible sample (`-30s`, `-20s`, `now`).
    Relative { sample_interval: std::time::Duration },
    /// x is epoch seconds; labels are UTC clock times.
    Epoch,
}

/// Rendering back-end of a time-series chart.
#[derive(Debug, Clone, Copy, PartialEq, Eq, Structural)]
pub enum Renderer {
    /// Canvas renderer with a y-axis gutter of the given width.
    Canvas { gutter_width: u16 },
    /// The compact chart widget with built-in axes.
    Tiled,
}

/// How many horizontal gridlines a chart carries.
#[derive(Debug, Clone, Copy, PartialEq, Eq, Structural)]
pub struct GridSpec {
    pub tick_count: usize,
}

impl GridSpec {
    /// Gridline divisions: one fewer than the ticks, and at least one.
    pub fn divisions(&self) -> (r: usize)
        ensures
            r == (if self.tick_count <= 2 { 1 } else { self.tick_count - 1 }),
    {
        if self.tick_count <= 2 {
            1
        } else {
            self.tick_count - 1
        }
    }
}

/// Kinds of point annotation on a chart.
#[derive(Debug, Clone, Copy, PartialEq, Eq, Structural)]
pub enum AnnotationKind {
    Now,
    Peak,
}

impl AnnotationKind {
    /// The marker glyph: a dot for the newest sample, a diamond for the peak.
    pub fn symbol(&self) -> (r: &'static str)
        ensures
            r@ == (match *self {
                AnnotationKind::Now => "●"@,
                AnnotationKind::Peak => "◆"@,
            }),
    {
        match self {
            AnnotationKind::Now => "●",
            AnnotationKind::Peak => "◆",
        }
    }

    /// Only the newest sample carries a value label beside its marker.
    pub fn shows_value(&self) -> (r: bool)
        ensures
            r == (*self == AnnotationKind::Now),
    {
        match self {
            AnnotationKind::Now => true,
            AnnotationKind::Peak => false,
        }
    }
}

/// Pixel size of a rasterised chart.
#[derive(Debug, Clone, Copy, PartialEq, Eq, Structural)]
pub struct RasterSize {
    pub width: u32,
    pub height: u32,
}

impl RasterSize {
    /// The size actually drawn: each side at least one pixel.
    pub fn drawn(&self) -> (r: (u32, u32))
        ensures
            r.0 == (if self.width == 0 { 1 } else { self.width }),
            r.1 == (if self.height == 0 { 1 } else { self.height }),
    {
        (if self.width == 0 { 1 } else { self.width }, if self.height == 0 { 1 } else { self.height })
    }
}

/// The columns a marker's value label takes.
pub const MARKER_VALUE_WIDTH: u16 = 9;

/// Where the value label of a marker at `column` starts, in a plot area
/// from `plot_x` spanning `plot_width` columns: right of the marker when
/// it fits there, else left of it when it fits there, else nowhere.
pub open spec fn spec_marker_value_x(column: int, plot_x: int, plot_width: int) -> Option<int> {
    let right_x = column + 1;
    if right_x + MARKER_VALUE_WIDTH <= plot_x + plot_width {
        Some(right_x)
    } else if column >= MARKER_VALUE_WIDTH && column - MARKER_VALUE_WIDTH >= plot_x {
        Some(column - MARKER_VALUE_WIDTH)
    } else {
        None
    }
}

/// Placement of a marker's value label; see [`spec_marker_value_x`].
pub fn marker_value_x(column: u16, plot_x: u16, plot_width: u16) -> (r: Option<u16>)
    requires
        column as int + MARKER_VALUE_WIDTH + 1 <= u16::MAX,
        plot_x as int + plot_width as int <= u16::MAX,
    ensures
        r matches Some(x) ==> spec_marker_value_x(column as int, plot_x as int, plot_width as int)
            == Some(x as int),
        r is None ==> spec_marker_value_x(column as int, plot_x as int, plot_width as int) is None,
{
    let right_x = column + 1;
    if right_x + MARKER_VALUE_WIDTH <= plot_x + plot_width {
        Some(right_x)
    } else if column >= MARKER_VALUE_WIDTH && column - MARKER_VALUE_WIDTH >= plot_x {
        Some(column - MARKER_VALUE_WIDTH)
    } else {
        None
    }
}

/// Kinds of series fill; the colours stay with the renderer.
#[derive(Debug, Clone, Copy, PartialEq, Eq, Structural)]
pub enum FillKind {
    Unfilled,
    Solid,
    Gradient,
}

/// How many colour bands a fill is drawn with in an area `height` rows
/// tall: none for no fill, one for a solid fill, and for a gradient the
/// height held between two and ten.
pub fn band_count(kind: FillKind, height: usize) -> (r: Option<usize>)
    ensures
        r == (match kind {
            FillKind::Unfilled => None,
            FillKind::Solid => Some(1usize),
            FillKind::Gradient => Some(
                if height < 2 {
                    2usize
                } else if height > 10 {
                    10usize
                } else {
                    height
                },
            ),
        }),
{
    match kind {
        FillKind::Unfilled => None,
        FillKind::Solid => Some(1),
        FillKind::Gradient => Some(
            if height < 2 {
                2
            } else if height > 10 {
                10
            } else {
                height
            },
        ),
    }
}

/// Shortest canvas chart that gives a row to the x-axis labels.
pub const MIN_HEIGHT_FOR_X_AXIS: u16 = 7;

/// Fewest points a canvas series is interpolated to.
pub const MIN_PLOT_DENSITY: usize = 160;

/// Whether a canvas chart `height` rows tall draws its x-axis row: the axis
/// must not be hidden and the chart at least [`MIN_HEIGHT_FOR_X_AXIS`] tall.
pub fn has_x_axis(x_axis: XAxis, height: u16) -> (r: bool)
    ensures
        r == (!(x_axis is Hidden) && height >= MIN_HEIGHT_FOR_X_AXIS),
{
    let shown = match x_axis {
        XAxis::Hidden => false,
        _ => true,
    };
    shown && height >= MIN_HEIGHT_FOR_X_AXIS
}

/// How many points each canvas series is interpolated to over a plot
/// `width` columns wide: four per column (a zero width counts as one), and
/// never fewer than [`MIN_PLOT_DENSITY`].
pub fn plot_density(width: u16) -> (r: usize)
    ensures
        r == (if (if width == 0 { 1 } else { width as int }) * 4 < MIN_PLOT_DENSITY {
            MIN_PLOT_DENSITY as int
        } else {
            (if width == 0 { 1 } else { width as int }) * 4
        }),
{
    let columns: usize = if width == 0 { 1 } else { width as usize };
    let density: usize = columns * 4;
    if density < MIN_PLOT_DENSITY {
        MIN_PLOT_DENSITY
    } else {
        density
    }
}

} // verus!
