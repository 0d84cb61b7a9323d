//! Styled text as the widgets lay it out: runs of text, each tagged with
//! the theme role that colours it and whether it is bold.  Turning a role
//! into a concrete terminal colour is the renderer's business.

use vstd::prelude::*;

verus! {

/// The palette entries of the theme that the widgets draw with.
#[derive(Clone, Copy, Debug, PartialEq, Eq, Structural)]
pub enum ThemeRole {
    TextMuted,
    TextSecondary,
    AccentPrimary,
    AccentSecondary,
    BorderUnfocused,
    BorderFocused,
    BorderDefault,
    Title,
    WifiNeighbor,
    WifiYourAp,
    Success,
    Warning,
    Error,
    TableHeader,
    KeyHint,
    KeyHintKey,
    EventDensityLow,
    EventDensityMid,
    EventDensityHigh,
}

/// A run of text in one style.  `role` is `None` for unstyled text.
#[derive(Clone, Debug)]
pub struct StyledSpan {
    pub text: String,
    pub role: Option<ThemeRole>,
    pub bold: bool,
}

impl View for StyledSpan {
    type V = SpanView;

    open spec fn view(&self) -> SpanView {
        (self.text@, self.role, self.bold)
    }
}

/// What a span shows: its text, its colour role and whether it is bold.
pub type SpanView = (Seq<char>, Option<ThemeRole>, bool);

/// The views of a line of spans.
pub open spec fn span_views(spans: Seq<StyledSpan>) -> Seq<SpanView> {
    spans.map_values(|s: StyledSpan| s@)
}

/// The views of a list of lines.
pub open spec fn line_views(lines: Seq<Vec<StyledSpan>>) -> Seq<Seq<SpanView>> {
    lines.map_values(|l: Vec<StyledSpan>| span_views(l@))
}

/// A span in the given colour role.
pub fn styled(text: String, role: ThemeRole) -> (r: StyledSpan)
    ensures
        r@ == (text@, Some(role), false),
{
    StyledSpan { text, role: Some(role), bold: false }
}

/// A span in the given colour role, in bold.
pub fn styled_bold(text: String, role: ThemeRole) -> (r: StyledSpan)
    ensures
        r@ == (text@, Some(role), true),
{
    StyledSpan { text, role: Some(role), bold: true }
}

/// A span with no style of its own.
pub fn raw(text: String) -> (r: StyledSpan)
    ensures
        r@ == (text@, None::<ThemeRole>, false),
{
    StyledSpan { text, role: None, bold: false }
}

} // verus!
