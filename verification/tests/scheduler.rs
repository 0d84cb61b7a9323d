use unifly::scheduler::{should_draw_with_graphics_ready, sync_updates_enabled_with};

#[test]
fn static_clean_frame_does_not_draw() {
    assert!(!should_draw_with_graphics_ready(false, false, false));
}

#[test]
fn redraw_request_draws() {
    assert!(should_draw_with_graphics_ready(true, false, false));
}

#[test]
fn active_effect_draws() {
    assert!(should_draw_with_graphics_ready(false, true, false));
}

#[test]
fn ready_graphics_draws() {
    assert!(should_draw_with_graphics_ready(false, false, true));
}

#[test]
fn sync_updates_default_on() {
    assert!(sync_updates_enabled_with(&[]));
}

#[test]
fn sync_updates_can_be_disabled() {
    assert!(!sync_updates_enabled_with(&[("UNIFLY_NO_SYNC".to_string(), "1".to_string())]));
}
