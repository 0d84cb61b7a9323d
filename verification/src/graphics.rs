//! Choosing the pixel graphics protocol after probing the terminal.
//!
//! The terminal is asked which image protocol it speaks; the answer, an
//! opt-out and a forced protocol from the environment decide which
//! protocol charts use and whether the image picker is kept for drawing.

use vstd::prelude::*;
use crate::render_caps::GraphicsProtocol;

verus! {

/// The image protocols the picker can drive.
#[derive(Debug, Clone, Copy, PartialEq, Eq, Structural)]
pub enum PickerProtocol {
    Kitty,
    Sixel,
    Iterm2,
    Halfblocks,
}

/// The chart protocol of a picker protocol; half blocks are no pixels.
pub open spec fn spec_protocol_from_picker(protocol: PickerProtocol) -> GraphicsProtocol {
    match protocol {
        PickerProtocol::Kitty => GraphicsProtocol::Kitty,
        PickerProtocol::Sixel => GraphicsProtocol::Sixel,
        PickerProtocol::Iterm2 => GraphicsProtocol::Iterm2,
        PickerProtocol::Halfblocks => GraphicsProtocol::Off,
    }
}

/// The picker protocol that draws a chart protocol, none for no pixels.
pub open spec fn spec_picker_protocol_from_graphics(protocol: GraphicsProtocol) -> Option<PickerProtocol> {
    match protocol {
        GraphicsProtocol::Off => None,
        GraphicsProtocol::Kitty => Some(PickerProtocol::Kitty),
        GraphicsProtocol::Sixel => Some(PickerProtocol::Sixel),
        GraphicsProtocol::Iterm2 => Some(PickerProtocol::Iterm2),
    }
}

/// See [`spec_protocol_from_picker`].
pub fn protocol_from_picker(protocol: PickerProtocol) -> (r: GraphicsProtocol)
    ensures
        r == spec_protocol_from_picker(protocol),
{
    match protocol {
        PickerProtocol::Kitty => GraphicsProtocol::Kitty,
        PickerProtocol::Sixel => GraphicsProtocol::Sixel,
        PickerProtocol::Iterm2 => GraphicsProtocol::Iterm2,
        PickerProtocol::Halfblocks => GraphicsProtocol::Off,
    }
}

/// See [`spec_picker_protocol_from_graphics`].
pub fn picker_protocol_from_graphics(protocol: GraphicsProtocol) -> (r: Option<PickerProtocol>)
    ensures
        r == spec_picker_protocol_from_graphics(protocol),
{
    match protocol {
        GraphicsProtocol::Off => None,
        GraphicsProtocol::Kitty => Some(PickerProtocol::Kitty),
        GraphicsProtocol::Sixel => Some(PickerProtocol::Sixel),
        GraphicsProtocol::Iterm2 => Some(PickerProtocol::Iterm2),
    }
}

/// What probing decides: the chart protocol, whether the picker is kept
/// for drawing, and the protocol to switch the picker to first.
#[derive(Debug, Clone, Copy, PartialEq, Eq, Structural)]
pub struct ProbeOutcome {
    pub protocol: GraphicsProtocol,
    pub keep_picker: bool,
    pub set_protocol: Option<PickerProtocol>,
}

/// The outcome of a probe.  An opt-out wins; a failed query means no
/// pixels; a forced protocol overrides what the terminal answered (and the
/// picker is kept only if it can draw it); otherwise the answer stands and
/// the picker is kept when it draws pixels.
pub open spec fn spec_probe_outcome(
    disabled: bool,
    answered: Option<PickerProtocol>,
    forced: Option<GraphicsProtocol>,
) -> ProbeOutcome {
    if disabled {
        ProbeOutcome { protocol: GraphicsProtocol::Off, keep_picker: false, set_protocol: None }
    } else {
        match answered {
            None => ProbeOutcome { protocol: GraphicsProtocol::Off, keep_picker: false, set_protocol: None },
            Some(answer) => match forced {
                Some(p) => ProbeOutcome {
                    protocol: p,
                    keep_picker: spec_picker_protocol_from_graphics(p) is Some,
                    set_protocol: spec_picker_protocol_from_graphics(p),
                },
                None => {
                    let p = spec_protocol_from_picker(answer);
                    ProbeOutcome { protocol: p, keep_picker: p != GraphicsProtocol::Off, set_protocol: None }
                },
            },
        }
    }
}

/// Decides a probe; see [`spec_probe_outcome`].  `answered` is the
/// terminal's answer, `None` when the query failed.
pub fn probe_outcome(disabled: bool, answered: Option<PickerProtocol>, forced: Option<GraphicsProtocol>) -> (r: ProbeOutcome)
    ensures
        r == spec_probe_outcome(disabled, answered, forced),
{
    if disabled {
        return ProbeOutcome { protocol: GraphicsProtocol::Off, keep_picker: false, set_protocol: None };
    }
    match answered {
        None => ProbeOutcome { protocol: GraphicsProtocol::Off, keep_picker: false, set_protocol: None },
        Some(answer) => match forced {
            Some(p) => {
                let set = picker_protocol_from_graphics(p);
                ProbeOutcome { protocol: p, keep_picker: set.is_some(), set_protocol: set }
            },
            None => {
                let p = protocol_from_picker(answer);
                ProbeOutcome { protocol: p, keep_picker: p.is_pixels(), set_protocol: None }
            },
        },
    }
}

/// The picker is kept exactly when charts draw pixels.
pub proof fn law_picker_kept_iff_pixels(
    disabled: bool,
    answered: Option<PickerProtocol>,
    forced: Option<GraphicsProtocol>,
)
    ensures
        spec_probe_outcome(disabled, answered, forced).keep_picker == (spec_probe_outcome(
            disabled,
            answered,
            forced,
        ).protocol != GraphicsProtocol::Off),
{
}

/// The two protocol mappings undo each other on pixel protocols.
pub proof fn law_protocol_mappings_round_trip(g: GraphicsProtocol, p: PickerProtocol)
    ensures
        g != GraphicsProtocol::Off ==> (spec_picker_protocol_from_graphics(g) matches Some(q)
            && spec_protocol_from_picker(q) == g),
        p != PickerProtocol::Halfblocks ==> spec_picker_protocol_from_graphics(
            spec_protocol_from_picker(p),
        ) == Some(p),
{
}

} // verus!
