use unifly::events::{
    event_punchcard, event_time, hints_line, MAX_EVENT_TIMESTAMP, MIN_EVENT_TIMESTAMP, message_width, punchcard_glyph, punchcard_level, show_punchcard, Action,
    Event, EventSeverity, EventsScreen, KeyCode, KeyInput,
};
use unifly::style::ThemeRole;

fn key(c: char) -> KeyInput {
    KeyInput { code: KeyCode::Char(c), ctrl: false }
}

fn event(timestamp: i64, message: &str) -> Event {
    Event {
        timestamp,
        category: "Wlan".into(),
        severity: EventSeverity::Warning,
        message: message.into(),
    }
}

fn screen_with(n: i64) -> EventsScreen {
    let mut screen = EventsScreen::new();
    for i in 0..n {
        screen.update(Action::EventReceived(event(1_700_000_000 + i * 60, "client joined")));
    }
    screen
}

#[test]
fn space_toggles_pause_and_resume_snaps_to_bottom() {
    let mut screen = screen_with(30);
    assert!(matches!(screen.handle_key_event(key(' ')), Some(Action::ToggleEventPause)));
    screen.handle_key_event(key('k'));
    screen.handle_key_event(key('k'));
    assert_eq!(screen.visible_range(5), (23, 28));
    screen.handle_key_event(key(' '));
    assert_eq!(screen.visible_range(5), (25, 30));
}

#[test]
fn scrolling_keys_do_nothing_while_live() {
    let mut screen = screen_with(30);
    assert!(screen.handle_key_event(key('k')).is_none());
    assert!(screen.handle_key_event(key('g')).is_none());
    assert_eq!(screen.visible_range(5), (25, 30));
}

#[test]
fn paging_is_clamped_to_the_log() {
    let mut screen = screen_with(12);
    screen.handle_key_event(key(' '));
    let page_up = KeyInput { code: KeyCode::Char('u'), ctrl: true };
    assert!(matches!(screen.handle_key_event(page_up), Some(Action::PageUp)));
    assert!(matches!(screen.handle_key_event(page_up), Some(Action::PageUp)));
    assert_eq!(screen.visible_range(100), (0, 1));
    assert!(matches!(screen.handle_key_event(key('G')), Some(Action::ScrollToBottom)));
    assert_eq!(screen.visible_range(100), (0, 12));
}

#[test]
fn event_list_lines_show_time_category_and_message() {
    let mut screen = EventsScreen::new();
    screen.update(Action::EventReceived(event(3_600 * 5 + 62, "a long message that gets cut")));
    let lines = screen.event_list_lines(35, 10);
    assert_eq!(lines.len(), 3);
    assert_eq!(lines[0][0].text, "  Time      ");
    assert_eq!(lines[1][0].text, "  05:01:02    ");
    assert_eq!(lines[1][1].text, "Wlan       ");
    assert_eq!(lines[1][2].text, "a long mes");
    assert_eq!(lines[1][2].role, Some(ThemeRole::Warning));
    assert_eq!(lines[2][0].text, "  ↓ auto-scrolling");
}

#[test]
fn empty_log_says_it_is_waiting() {
    let screen = EventsScreen::new();
    let lines = screen.event_list_lines(80, 10);
    assert_eq!(lines.len(), 2);
    assert_eq!(lines[1][0].text, "  Waiting for events...");
    let status = screen.status_line();
    assert_eq!(status[5].text, "● LIVE");
    assert_eq!(hints_line()[0].text, "  Space ");
}

#[test]
fn punchcard_counts_by_weekday_and_hour() {
    // 1970-01-05 was a Monday.
    let monday_9 = 4 * 86_400 + 9 * 3_600;
    let events = vec![event(monday_9, "a"), event(monday_9 + 60, "b"), event(monday_9 + 86_400, "c")];
    let card = event_punchcard(&events);
    assert_eq!(card.len(), 7);
    assert_eq!(card[0][9], 2);
    assert_eq!(card[1][9], 1);
    assert_eq!(card[0].iter().sum::<usize>() + card[1].iter().sum::<usize>(), 3);
}

#[test]
fn punchcard_lines_scale_to_the_busiest_cell() {
    let monday_9 = 4 * 86_400 + 9 * 3_600;
    let mut screen = EventsScreen::new();
    for i in 0..3 {
        screen.update(Action::EventReceived(event(monday_9 + i, "x")));
    }
    screen.update(Action::EventReceived(event(monday_9 + 3_600, "y")));
    let lines = screen.punchcard_lines();
    assert_eq!(lines.len(), 8);
    assert_eq!(lines[1][0].text, "  Mon ");
    assert_eq!(lines[1].len(), 25);
    assert_eq!(lines[1][10].text, "█");
    assert_eq!(lines[1][11].text, "▒");
    assert_eq!(lines[1][1].text, "░");
}

#[test]
fn punchcard_levels_and_layout() {
    assert_eq!(punchcard_level(0, 9), 0);
    assert_eq!(punchcard_level(3, 9), 1);
    assert_eq!(punchcard_level(6, 9), 2);
    assert_eq!(punchcard_level(7, 9), 3);
    assert_eq!(punchcard_level(1, 1), 1);
    assert_eq!(punchcard_glyph(2), "▓");
    assert!(show_punchcard(48, 15));
    assert!(!show_punchcard(47, 15));
    assert_eq!(message_width(100), 75);
    assert_eq!(message_width(20), 10);
}

#[test]
fn screen_accessors_report_its_state() {
    let mut screen = screen_with(3);
    assert_eq!(screen.event_count(), 3);
    assert_eq!(screen.visible_count(10), 9);
    assert_eq!(screen.visible_count(0), 0);
    assert_eq!(screen.id(), "Events");
    assert!(!screen.focused());
    screen.set_focused(true);
    assert!(screen.focused());
    assert_eq!(screen.live_indicator(), "● LIVE");
    assert!(screen.auto_scrolling());
    screen.handle_key_event(key(' '));
    assert_eq!(screen.live_indicator(), "PAUSED");
    assert!(!screen.auto_scrolling());
}

#[test]
fn the_log_drops_its_oldest_events_at_capacity() {
    let mut screen = EventsScreen::new();
    for i in 0..10_001i64 {
        screen.update(Action::EventReceived(event(i, "e")));
    }
    assert_eq!(screen.event_count(), 10_000);
}

#[test]
fn the_title_counts_the_events() {
    assert_eq!(EventsScreen::new().title(), " Events (0) ");
    assert_eq!(screen_with(12).title(), " Events (12) ");
}

#[test]
fn event_times_span_the_whole_calendar_range() {
    assert_eq!(event_time(&event(MAX_EVENT_TIMESTAMP, "last")), "23:59:59");
    assert_eq!(event_time(&event(MIN_EVENT_TIMESTAMP, "first")), "00:00:00");
    // 1 January of year -262143 is a Thursday; 31 December 262142 a Monday.
    let card = event_punchcard(&vec![event(MIN_EVENT_TIMESTAMP, "first"), event(MAX_EVENT_TIMESTAMP, "last")]);
    assert_eq!(card[3][0], 1);
    assert_eq!(card[0][23], 1);
}

#[test]
fn the_border_is_highlighted_while_focused() {
    let mut screen = EventsScreen::new();
    assert_eq!(screen.border_role(), ThemeRole::BorderDefault);
    screen.set_focused(true);
    assert_eq!(screen.border_role(), ThemeRole::BorderFocused);
}

#[test]
fn punchcard_cells_sum_to_the_event_count() {
    let events: Vec<Event> = (0..50i64).map(|i| event(1_700_000_000 + i * 7_919, "tick")).collect();
    let card = event_punchcard(&events);
    let total: usize = card.iter().map(|row| row.iter().sum::<usize>()).sum();
    assert_eq!(total, events.len());
}
