//! Redraw readiness decisions for the TUI event loop, and the terminal's
//! synchronized-update switch.

use vstd::prelude::*;

use crate::render_caps::{env_get, env_has};

verus! {

/// Whether a frame is drawn; see [`should_draw_with_graphics_ready`].
pub open spec fn spec_should_draw(needs_redraw: bool, effects_active: bool, graphics_ready: bool) -> bool {
    needs_redraw || effects_active || graphics_ready
}

/// A frame is drawn when a redraw was requested, an effect is running, or a
/// pixel chart finished encoding.
pub fn should_draw_with_graphics_ready(
    needs_redraw: bool,
    effects_active: bool,
    graphics_ready: bool,
) -> (r: bool)
    ensures
        r == spec_should_draw(needs_redraw, effects_active, graphics_ready),
{
    needs_redraw || effects_active || graphics_ready
}

/// Synchronized terminal updates are on unless `UNIFLY_NO_SYNC` is set.
pub fn sync_updates_enabled_with(env: &[(String, String)]) -> (r: bool)
    ensures
        r == !env_has(env@, "UNIFLY_NO_SYNC"@),
{
    env_get(env, "UNIFLY_NO_SYNC").is_none()
}

/// Any one reason to draw is enough, and a clean, still frame is not drawn
/// again.
pub proof fn law_draw_only_when_something_changed(a: bool, b: bool, c: bool)
    ensures
        a ==> spec_should_draw(a, b, c),
        b ==> spec_should_draw(a, b, c),
        c ==> spec_should_draw(a, b, c),
        !spec_should_draw(false, false, false),
{
}

} // verus!
