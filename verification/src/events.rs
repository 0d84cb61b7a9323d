//! Events screen state: a bounded live event log with pause and scrolling,
//! and the by-weekday/by-hour punchcard of event times.

use chrono::{Datelike, Timelike};
use vstd::prelude::*;

use crate::style::{line_views, span_views, styled, SpanView, StyledSpan, ThemeRole};
use crate::text::{chars_of, concat3, owned, pad_left_align, push_char, spec_decimal, spec_left, string_of};

verus! {

/// Events shown before the oldest are dropped.
pub const EVENTS_CAPACITY: usize = 10_000;

/// Earliest timestamp (Unix seconds, UTC) an event may carry: the start of
/// 1 January of year -262143, the first instant a `chrono::DateTime<Utc>`
/// represents.
pub const MIN_EVENT_TIMESTAMP: i64 = -8_334_601_228_800;

/// Latest timestamp (Unix seconds, UTC) an event may carry: the last whole
/// second of 31 December 262142, the last one a `chrono::DateTime<Utc>`
/// represents.
pub const MAX_EVENT_TIMESTAMP: i64 = 8_210_266_876_799;

pub open spec fn valid_timestamp(t: i64) -> bool {
    MIN_EVENT_TIMESTAMP <= t <= MAX_EVENT_TIMESTAMP
}

/// Day of the week of a Unix time, Monday = 0 (1970-01-01 was a Thursday).
pub open spec fn spec_weekday(t: int) -> int {
    (t / 86400 + 3) % 7
}

/// Hour of the day (UTC) of a Unix time.
pub open spec fn spec_hour(t: int) -> int {
    (t % 86400) / 3600
}

/// Minute of the hour of a Unix time.
pub open spec fn spec_minute(t: int) -> int {
    (t % 3600) / 60
}

/// Second of the minute of a Unix time.
pub open spec fn spec_second(t: int) -> int {
    t % 60
}

/// Weekday (Monday = 0), hour, minute and second of a Unix time in UTC, as
/// `chrono` computes them; `None` outside the dates `chrono` represents.
///
/// Calls `chrono::DateTime::<Utc>::from_timestamp` and reads the weekday
/// (`num_days_from_monday`), hour, minute and second of the result. The
/// contract claims the proleptic Gregorian UTC calendar for every time that
/// `chrono` accepts, and acceptance on the whole event range, which is the
/// range of whole seconds that `chrono::DateTime<Utc>` represents.
#[verifier::external_body]
fn utc_clock(secs: i64) -> (r: Option<(u32, u32, u32, u32)>)
    ensures
        r matches Some(c) ==> c.0 == spec_weekday(secs as int) && c.1 == spec_hour(secs as int)
            && c.2 == spec_minute(secs as int) && c.3 == spec_second(secs as int),
        valid_timestamp(secs) ==> r is Some,
{
    match chrono::DateTime::from_timestamp(secs, 0) {
        Some(d) => Some((d.weekday().num_days_from_monday(), d.hour(), d.minute(), d.second())),
        None => None,
    }
}

/// Severity of a controller event.
#[derive(Debug, Clone, Copy, PartialEq, Eq, Structural)]
pub enum EventSeverity {
    Info,
    Warning,
    Error,
    Critical,
    Unknown,
}

/// A controller event as the events screen shows it.
#[derive(Debug, Clone)]
pub struct Event {
    /// Unix seconds, UTC.
    pub timestamp: i64,
    pub category: String,
    pub severity: EventSeverity,
    pub message: String,
}

/// Keys the events screen reacts to.
#[derive(Debug, Clone, Copy, PartialEq, Eq, Structural)]
pub enum KeyCode {
    Char(char),
    Up,
    Down,
    Other,
}

/// A key press: its code and whether Control was held.
#[derive(Debug, Clone, Copy, PartialEq, Eq, Structural)]
pub struct KeyInput {
    pub code: KeyCode,
    pub ctrl: bool,
}

/// Actions the events screen emits or receives.
#[derive(Debug)]
pub enum Action {
    ToggleEventPause,
    ScrollToTop,
    ScrollToBottom,
    PageDown,
    PageUp,
    EventReceived(Event),
}

/// Kind of an emitted action (events screen actions carry no data).
#[derive(Debug, Clone, Copy, PartialEq, Eq, Structural)]
pub enum ActionKind {
    ToggleEventPause,
    ScrollToTop,
    ScrollToBottom,
    PageDown,
    PageUp,
}

pub open spec fn kind_of(a: Option<Action>) -> Option<ActionKind> {
    match a {
        Some(Action::ToggleEventPause) => Some(ActionKind::ToggleEventPause),
        Some(Action::ScrollToTop) => Some(ActionKind::ScrollToTop),
        Some(Action::ScrollToBottom) => Some(ActionKind::ScrollToBottom),
        Some(Action::PageDown) => Some(ActionKind::PageDown),
        Some(Action::PageUp) => Some(ActionKind::PageUp),
        _ => None,
    }
}

/// Abstract state of the events screen.
pub struct EventsModel {
    pub focused: bool,
    pub events: Seq<Event>,
    pub paused: bool,
    pub scroll_offset: nat,
    pub capacity: nat,
}

pub open spec fn sat_pred(n: nat) -> nat {
    if n == 0 {
        0
    } else {
        (n - 1) as nat
    }
}

pub open spec fn min_nat(a: nat, b: nat) -> nat {
    if a <= b {
        a
    } else {
        b
    }
}

pub open spec fn is_char(key: KeyInput, c: char) -> bool {
    key.code == KeyCode::Char(c)
}

/// New pause flag, scroll offset and emitted action for a key press.
pub open spec fn spec_handle_key(paused: bool, offset: nat, len: nat, key: KeyInput) -> (
    bool,
    nat,
    Option<ActionKind>,
) {
    let top = sat_pred(len);
    if is_char(key, ' ') {
        (!paused, if paused { 0 } else { offset }, Some(ActionKind::ToggleEventPause))
    } else if (is_char(key, 'j') || key.code == KeyCode::Down) && paused {
        (paused, sat_pred(offset), None)
    } else if (is_char(key, 'k') || key.code == KeyCode::Up) && paused {
        (paused, min_nat(offset + 1, top), None)
    } else if is_char(key, 'g') && paused {
        (paused, top, Some(ActionKind::ScrollToTop))
    } else if is_char(key, 'G') && paused {
        (paused, 0, Some(ActionKind::ScrollToBottom))
    } else if is_char(key, 'd') && key.ctrl && paused {
        (paused, if offset >= 10 { (offset - 10) as nat } else { 0 }, Some(ActionKind::PageDown))
    } else if is_char(key, 'u') && key.ctrl && paused {
        (paused, min_nat(offset + 10, top), Some(ActionKind::PageUp))
    } else {
        (paused, offset, None)
    }
}

/// The log after an event arrives: appended, and the oldest dropped when
/// that would exceed the capacity.
pub open spec fn spec_receive(events: Seq<Event>, e: Event, capacity: nat) -> Seq<Event> {
    let grown = events.push(e);
    if grown.len() > capacity {
        grown.drop_first()
    } else {
        grown
    }
}

/// The live event log screen.
pub struct EventsScreen {
    focused: bool,
    events: Vec<Event>,
    paused: bool,
    scroll_offset: usize,
    capacity: usize,
}

impl View for EventsScreen {
    type V = EventsModel;

    closed spec fn view(&self) -> EventsModel {
        EventsModel {
            focused: self.focused,
            events: self.events@,
            paused: self.paused,
            scroll_offset: self.scroll_offset as nat,
            capacity: self.capacity as nat,
        }
    }
}

impl EventsScreen {
    /// The screen's invariant: at most `capacity` events, all with valid
    /// timestamps; the scroll offset stays within the log and is zero while
    /// the log is live.
    pub closed spec fn wf(&self) -> bool {
        &&& self.capacity == EVENTS_CAPACITY
        &&& self.events.len() <= self.capacity
        &&& forall|i: int| 0 <= i < self.events.len() ==> valid_timestamp(
            #[trigger] self.events@[i].timestamp,
        )
        &&& self.scroll_offset <= sat_pred(self.events.len() as nat)
        &&& !self.paused ==> self.scroll_offset == 0
    }

    /// An empty, live, unfocused screen.
    pub fn new() -> (r: Self)
        ensures
            r.wf(),
            r@.events.len() == 0,
            !r@.paused,
            !r@.focused,
            r@.scroll_offset == 0,
            r@.capacity == EVENTS_CAPACITY,
    {
        EventsScreen {
            focused: false,
            events: Vec::new(),
            paused: false,
            scroll_offset: 0,
            capacity: EVENTS_CAPACITY,
        }
    }

    pub proof fn lemma_wf(&self)
        requires
            self.wf(),
        ensures
            self@.events.len() <= self@.capacity,
            self@.capacity == EVENTS_CAPACITY,
            self@.scroll_offset <= sat_pred(self@.events.len()),
            !self@.paused ==> self@.scroll_offset == 0,
            forall|i: int| 0 <= i < self@.events.len() ==> valid_timestamp(
                #[trigger] self@.events[i].timestamp,
            ),
    {
    }

    /// Rows of events that fit under the header line.
    pub fn visible_count(&self, area_height: u16) -> (r: usize)
        ensures
            r == sat_pred(area_height as nat),
    {
        if area_height == 0 {
            0
        } else {
            (area_height - 1) as usize
        }
    }

    /// Number of events held.
    pub fn event_count(&self) -> (r: usize)
        ensures
            r == self@.events.len(),
    {
        self.events.len()
    }

    /// Pauses/resumes the live log and scrolls it while paused.
    pub fn handle_key_event(&mut self, key: KeyInput) -> (r: Option<Action>)
        requires
            old(self).wf(),
        ensures
            final(self).wf(),
            ({
                let (paused, offset, action) = spec_handle_key(
                    old(self)@.paused,
                    old(self)@.scroll_offset,
                    old(self)@.events.len(),
                    key,
                );
                &&& final(self)@.paused == paused
                &&& final(self)@.scroll_offset == offset
                &&& kind_of(r) == action
                &&& !(r matches Some(Action::EventReceived(_)))
            }),
            final(self)@.events == old(self)@.events,
            final(self)@.focused == old(self)@.focused,
            final(self)@.capacity == old(self)@.capacity,
    {
        let top = if self.events.len() == 0 {
            0
        } else {
            self.events.len() - 1
        };
        let code = key.code;
        if code == KeyCode::Char(' ') {
            self.paused = !self.paused;
            if !self.paused {
                self.scroll_offset = 0;
            }
            Some(Action::ToggleEventPause)
        } else if (code == KeyCode::Char('j') || code == KeyCode::Down) && self.paused {
            if self.scroll_offset > 0 {
                self.scroll_offset = self.scroll_offset - 1;
            }
            None
        } else if (code == KeyCode::Char('k') || code == KeyCode::Up) && self.paused {
            let next = self.scroll_offset + 1;
            self.scroll_offset = if next < top {
                next
            } else {
                top
            };
            None
        } else if code == KeyCode::Char('g') && self.paused {
            self.scroll_offset = top;
            Some(Action::ScrollToTop)
        } else if code == KeyCode::Char('G') && self.paused {
            self.scroll_offset = 0;
            Some(Action::ScrollToBottom)
        } else if code == KeyCode::Char('d') && key.ctrl && self.paused {
            self.scroll_offset = if self.scroll_offset >= 10 {
                self.scroll_offset - 10
            } else {
                0
            };
            Some(Action::PageDown)
        } else if code == KeyCode::Char('u') && key.ctrl && self.paused {
            let next = self.scroll_offset + 10;
            self.scroll_offset = if next < top {
                next
            } else {
                top
            };
            Some(Action::PageUp)
        } else {
            None
        }
    }

    /// Appends a received event, dropping the oldest beyond the capacity.
    /// Other actions are ignored.
    pub fn update(&mut self, action: Action) -> (r: Option<Action>)
        requires
            old(self).wf(),
            action matches Action::EventReceived(e) ==> valid_timestamp(e.timestamp),
        ensures
            final(self).wf(),
            r is None,
            match action {
                Action::EventReceived(e) => final(self)@.events == spec_receive(
                    old(self)@.events,
                    e,
                    old(self)@.capacity,
                ),
                _ => final(self)@.events == old(self)@.events,
            },
            final(self)@.paused == old(self)@.paused,
            final(self)@.scroll_offset == old(self)@.scroll_offset,
            final(self)@.focused == old(self)@.focused,
            final(self)@.capacity == old(self)@.capacity,
    {
        if let Action::EventReceived(event) = action {
            let ghost grown = self.events@.push(event);
            self.events.push(event);
            if self.events.len() > self.capacity {
                self.events.remove(0);
                assert(self.events@ =~= grown.drop_first());
            }
            assert forall|i: int| 0 <= i < self.events.len() implies valid_timestamp(
                #[trigger] self.events@[i].timestamp,
            ) by {
                if grown.len() > self.capacity {
                    assert(self.events@[i] == grown[i + 1]);
                } else {
                    assert(self.events@[i] == grown[i]);
                }
            }
        }
        None
    }

    pub fn focused(&self) -> (r: bool)
        ensures
            r == self@.focused,
    {
        self.focused
    }

    pub fn set_focused(&mut self, focused: bool)
        requires
            old(self).wf(),
        ensures
            final(self).wf(),
            final(self)@ == (EventsModel { focused, ..old(self)@ }),
    {
        self.focused = focused;
    }

    /// The colour of the panel border: highlighted while the screen has
    /// focus.
    pub fn border_role(&self) -> (r: ThemeRole)
        ensures
            r == if self@.focused {
                ThemeRole::BorderFocused
            } else {
                ThemeRole::BorderDefault
            },
    {
        if self.focused {
            ThemeRole::BorderFocused
        } else {
            ThemeRole::BorderDefault
        }
    }

    /// The component's identifier.
    pub fn id(&self) -> (r: &'static str)
        ensures
            r@ == "Events"@,
    {
        "Events"
    }

    /// The live/paused indicator of the status line.
    pub fn live_indicator(&self) -> (r: &'static str)
        ensures
            r@ == if self@.paused {
                "PAUSED"@
            } else {
                "\u{25cf} LIVE"@
            },
    {
        if self.paused {
            "PAUSED"
        } else {
            "\u{25cf} LIVE"
        }
    }

    /// The events visible in a list of `height` rows: indices
    /// `start..end`, ending `scroll_offset` events before the newest.
    pub fn visible_range(&self, height: usize) -> (r: (usize, usize))
        ensures
            r.1 == if self@.scroll_offset <= self@.events.len() {
                (self@.events.len() - self@.scroll_offset) as nat
            } else {
                0
            },
            r.0 == if height <= r.1 {
                (r.1 - height) as nat
            } else {
                0
            },
            r.0 <= r.1 <= self@.events.len(),
    {
        let end = if self.scroll_offset <= self.events.len() {
            self.events.len() - self.scroll_offset
        } else {
            0
        };
        let start = if height <= end {
            end - height
        } else {
            0
        };
        (start, end)
    }

    /// Whether an auto-scroll hint is shown under the list.
    pub fn auto_scrolling(&self) -> (r: bool)
        ensures
            r == (!self@.paused && self@.events.len() > 0),
    {
        !self.paused && self.events.len() > 0
    }

    /// The punchcard of the held events.
    pub fn punchcard(&self) -> (r: Vec<Vec<usize>>)
        requires
            self.wf(),
        ensures
            punchcard_of(r@, self@.events),
    {
        event_punchcard(&self.events)
    }
}

// ── Layout ────────────────────────────────────────────────────────────

/// The punchcard is drawn when the inner area is at least 48 × 15.
pub fn show_punchcard(inner_width: u16, inner_height: u16) -> (r: bool)
    ensures
        r == (inner_height >= 15 && inner_width >= 48),
{
    inner_height >= 15 && inner_width >= 48
}

/// Width of the message column: what remains after indent, time and
/// category (25 cells), at least 10.
pub fn message_width(area_width: u16) -> (r: usize)
    ensures
        r == if area_width >= 35 {
            (area_width - 25) as nat
        } else {
            10
        },
{
    let rest: u16 = if area_width >= 25 {
        area_width - 25
    } else {
        0
    };
    if rest >= 10 {
        rest as usize
    } else {
        10
    }
}

/// Two-digit zero-padded decimal.
pub open spec fn spec_two_digits(n: nat) -> Seq<char> {
    if n < 10 {
        seq!['0'] + spec_decimal(n)
    } else {
        spec_decimal(n)
    }
}

/// `HH:MM:SS` of a Unix time in UTC.
pub open spec fn spec_clock(t: int) -> Seq<char> {
    spec_two_digits(spec_hour(t) as nat) + seq![':'] + spec_two_digits(spec_minute(t) as nat)
        + seq![':'] + spec_two_digits(spec_second(t) as nat)
}

fn push_two_digits(v: &mut Vec<char>, n: u32)
    requires
        n < 100,
    ensures
        final(v)@ == old(v)@ + spec_two_digits(n as nat),
{
    let d = crate::text::decimal_chars(n as u64);
    let ghost start = v@;
    if n < 10 {
        v.push('0');
    }
    let ghost mid = v@;
    let mut i: usize = 0;
    while i < d.len()
        invariant
            i <= d.len(),
            v@ =~= mid + d@.take(i as int),
        decreases d.len() - i,
    {
        v.push(d[i]);
        i = i + 1;
    }
    assert(d@.take(d.len() as int) =~= d@);
}

/// The time column text of an event: `HH:MM:SS`.
pub fn event_time(event: &Event) -> (r: String)
    requires
        valid_timestamp(event.timestamp),
    ensures
        r@ == spec_clock(event.timestamp as int),
{
    let c = utc_clock(event.timestamp);
    let (_, h, m, s) = c.unwrap();
    let mut v: Vec<char> = Vec::new();
    push_two_digits(&mut v, h);
    v.push(':');
    push_two_digits(&mut v, m);
    v.push(':');
    push_two_digits(&mut v, s);
    string_of(&v)
}

/// The first `n` characters of a text.
pub fn take_chars(s: &String, n: usize) -> (r: String)
    ensures
        r@ == if n <= s@.len() {
            s@.take(n as int)
        } else {
            s@
        },
{
    let v = chars_of(s.as_str());
    let mut out = String::new();
    let mut i: usize = 0;
    while i < n && i < v.len()
        invariant
            i <= v.len(),
            i <= n,
            v@ == s@,
            out@ == v@.take(i as int),
        decreases v.len() - i,
    {
        push_char(&mut out, v[i]);
        assert(v@.take(i as int).push(v@[i as int]) =~= v@.take(i + 1));
        i = i + 1;
    }
    if i == v.len() {
        assert(v@.take(i as int) =~= v@);
    }
    out
}

/// One row of the event list: time, category and the message cut to the
/// message column.
pub struct EventRow {
    pub time: String,
    pub category: String,
    pub message: String,
    pub severity: EventSeverity,
}

/// Builds the text of one event row.
pub fn event_row(event: &Event, msg_width: usize) -> (r: EventRow)
    requires
        valid_timestamp(event.timestamp),
    ensures
        r.time@ == "  "@ + spec_left(spec_clock(event.timestamp as int), 12),
        r.category@ == spec_left(event.category@, 11),
        r.message@ == if msg_width <= event.message@.len() {
            event.message@.take(msg_width as int)
        } else {
            event.message@
        },
        r.severity == event.severity,
{
    let clock = event_time(event);
    let mut time = owned("  ");
    let padded = pad_left_align(&clock, 12);
    time.append(padded.as_str());
    EventRow {
        time,
        category: pad_left_align(&event.category, 11),
        message: take_chars(&event.message, msg_width),
        severity: event.severity,
    }
}

// ── Styled lines ──────────────────────────────────────────────────────

/// The colour of an event's message by its severity.
pub open spec fn spec_severity_role(severity: EventSeverity) -> ThemeRole {
    match severity {
        EventSeverity::Error | EventSeverity::Critical => ThemeRole::Error,
        EventSeverity::Warning => ThemeRole::Warning,
        EventSeverity::Info => ThemeRole::AccentSecondary,
        EventSeverity::Unknown => ThemeRole::TextSecondary,
    }
}

/// The colour of an event's message; see [`spec_severity_role`].
pub fn severity_role(severity: EventSeverity) -> (r: ThemeRole)
    ensures
        r == spec_severity_role(severity),
{
    match severity {
        EventSeverity::Error | EventSeverity::Critical => ThemeRole::Error,
        EventSeverity::Warning => ThemeRole::Warning,
        EventSeverity::Info => ThemeRole::AccentSecondary,
        EventSeverity::Unknown => ThemeRole::TextSecondary,
    }
}

/// The spans of one event row: time, category, message.
pub open spec fn spec_event_spans(event: Event, msg_width: nat) -> Seq<SpanView> {
    seq![
        ("  "@ + spec_left(spec_clock(event.timestamp as int), 12), Some(ThemeRole::Warning), false),
        (spec_left(event.category@, 11), Some(ThemeRole::TextSecondary), false),
        (
            if msg_width <= event.message@.len() {
                event.message@.take(msg_width as int)
            } else {
                event.message@
            },
            Some(spec_severity_role(event.severity)),
            false,
        ),
    ]
}

/// The header line of the event list.
pub open spec fn spec_event_header() -> Seq<SpanView> {
    seq![
        ("  Time      "@, Some(ThemeRole::TableHeader), false),
        ("Category   "@, Some(ThemeRole::TableHeader), false),
        ("Message"@, Some(ThemeRole::TableHeader), false),
    ]
}

/// The event list drawn in an area `width` × `height`: the header, the
/// visible events (the last `height` of those up to the scroll position),
/// a waiting note when there are none, and an auto-scroll note while live.
pub open spec fn spec_event_list(m: EventsModel, width: u16, height: u16) -> Seq<Seq<SpanView>> {
    let end: int = if m.scroll_offset <= m.events.len() {
        m.events.len() - m.scroll_offset
    } else {
        0
    };
    let start: int = if height <= end {
        end - height
    } else {
        0
    };
    let msg_width: nat = if width >= 35 {
        (width - 25) as nat
    } else {
        10
    };
    let rows = Seq::new(
        (end - start) as nat,
        |k: int| spec_event_spans(m.events[start + k], msg_width),
    );
    let waiting: Seq<Seq<SpanView>> = if m.events.len() == 0 {
        seq![seq![("  Waiting for events..."@, Some(ThemeRole::BorderUnfocused), false)]]
    } else {
        seq![]
    };
    let scrolling: Seq<Seq<SpanView>> = if !m.paused && m.events.len() > 0 {
        seq![seq![("  ↓ auto-scrolling"@, Some(ThemeRole::BorderUnfocused), false)]]
    } else {
        seq![]
    };
    seq![spec_event_header()] + rows + waiting + scrolling
}

/// The spans of the status line: filters and the live/paused indicator.
pub open spec fn spec_status_line(paused: bool) -> Seq<SpanView> {
    seq![
        ("  Filter: "@, Some(ThemeRole::TextSecondary), false),
        ("[all]"@, Some(ThemeRole::AccentSecondary), false),
        ("  Type: "@, Some(ThemeRole::TextSecondary), false),
        ("[all]"@, Some(ThemeRole::AccentSecondary), false),
        ("  "@, None, false),
        if paused {
            ("PAUSED"@, Some(ThemeRole::Warning), false)
        } else {
            ("● LIVE"@, Some(ThemeRole::Success), false)
        },
    ]
}

/// The key hints under the event list.
pub open spec fn spec_hints_line() -> Seq<SpanView> {
    seq![
        ("  Space "@, Some(ThemeRole::KeyHintKey), false),
        ("pause/resume  "@, Some(ThemeRole::KeyHint), false),
        ("j/k "@, Some(ThemeRole::KeyHintKey), false),
        ("scroll (paused)  "@, Some(ThemeRole::KeyHint), false),
        ("/ "@, Some(ThemeRole::KeyHintKey), false),
        ("search"@, Some(ThemeRole::KeyHint), false),
    ]
}

/// The key hints line; see [`spec_hints_line`].
pub fn hints_line() -> (r: Vec<StyledSpan>)
    ensures
        span_views(r@) == spec_hints_line(),
{
    let mut spans: Vec<StyledSpan> = Vec::new();
    spans.push(styled(owned("  Space "), ThemeRole::KeyHintKey));
    spans.push(styled(owned("pause/resume  "), ThemeRole::KeyHint));
    spans.push(styled(owned("j/k "), ThemeRole::KeyHintKey));
    spans.push(styled(owned("scroll (paused)  "), ThemeRole::KeyHint));
    spans.push(styled(owned("/ "), ThemeRole::KeyHintKey));
    spans.push(styled(owned("search"), ThemeRole::KeyHint));
    assert(span_views(spans@) =~= spec_hints_line());
    spans
}

/// The colour of a punchcard cell at a density level.
pub open spec fn spec_level_role(level: u8) -> ThemeRole {
    if level == 0 {
        ThemeRole::TextMuted
    } else if level == 1 {
        ThemeRole::EventDensityLow
    } else if level == 2 {
        ThemeRole::EventDensityMid
    } else {
        ThemeRole::EventDensityHigh
    }
}

fn level_role(level: u8) -> (r: ThemeRole)
    ensures
        r == spec_level_role(level),
{
    if level == 0 {
        ThemeRole::TextMuted
    } else if level == 1 {
        ThemeRole::EventDensityLow
    } else if level == 2 {
        ThemeRole::EventDensityMid
    } else {
        ThemeRole::EventDensityHigh
    }
}

/// Largest of a list of counts, zero for none.
pub open spec fn spec_max_count(s: Seq<usize>) -> nat
    decreases s.len(),
{
    if s.len() == 0 {
        0
    } else {
        let rest = spec_max_count(s.drop_last());
        if s.last() > rest {
            s.last() as nat
        } else {
            rest
        }
    }
}

/// Largest cell of a punchcard, zero for none.
pub open spec fn spec_card_max(card: Seq<Seq<usize>>) -> nat
    decreases card.len(),
{
    if card.len() == 0 {
        0
    } else {
        let rest = spec_card_max(card.drop_last());
        let here = spec_max_count(card.last());
        if here > rest {
            here
        } else {
            rest
        }
    }
}

/// The rows of a punchcard as plain sequences.
pub open spec fn card_rows(card: Seq<Vec<usize>>) -> Seq<Seq<usize>> {
    card.map_values(|row: Vec<usize>| row@)
}

/// The weekday names, Monday first.
pub open spec fn spec_day_name(d: int) -> Seq<char> {
    if d == 0 {
        "Mon"@
    } else if d == 1 {
        "Tue"@
    } else if d == 2 {
        "Wed"@
    } else if d == 3 {
        "Thu"@
    } else if d == 4 {
        "Fri"@
    } else if d == 5 {
        "Sat"@
    } else {
        "Sun"@
    }
}

fn day_name(d: usize) -> (r: &'static str)
    ensures
        r@ == spec_day_name(d as int),
{
    if d == 0 {
        "Mon"
    } else if d == 1 {
        "Tue"
    } else if d == 2 {
        "Wed"
    } else if d == 3 {
        "Thu"
    } else if d == 4 {
        "Fri"
    } else if d == 5 {
        "Sat"
    } else {
        "Sun"
    }
}

/// The punchcard cell for `count` events, scaled to the busiest cell.
pub open spec fn spec_punchcard_cell(count: usize, max_count: usize) -> SpanView {
    let level = spec_punchcard_level(count, max_count);
    (spec_punchcard_glyph(level), Some(spec_level_role(level)), false)
}

/// The punchcard drawn as lines: a header with the hour scale, then one
/// line per weekday with its name and a cell per hour.
pub open spec fn spec_punchcard_lines(card: Seq<Seq<usize>>) -> Seq<Seq<SpanView>> {
    let max_count: usize = if spec_card_max(card) > 1 {
        spec_card_max(card) as usize
    } else {
        1
    };
    seq![
        seq![
            ("  Events by hour  "@, Some(ThemeRole::TableHeader), false),
            ("00      06      12      18"@, Some(ThemeRole::TextMuted), false),
        ],
    ] + Seq::new(
        7,
        |d: int|
            seq![("  "@ + spec_day_name(d) + " "@, Some(ThemeRole::TextSecondary), false)] + Seq::new(
                card[d].len(),
                |h: int| spec_punchcard_cell(card[d][h], max_count),
            ),
    )
}

/// The spans of one event row; see [`spec_event_spans`].
fn event_spans(event: &Event, msg_width: usize) -> (r: Vec<StyledSpan>)
    requires
        valid_timestamp(event.timestamp),
    ensures
        span_views(r@) == spec_event_spans(*event, msg_width as nat),
{
    let row = event_row(event, msg_width);
    let mut spans: Vec<StyledSpan> = Vec::new();
    spans.push(styled(row.time, ThemeRole::Warning));
    spans.push(styled(row.category, ThemeRole::TextSecondary));
    spans.push(styled(row.message, severity_role(row.severity)));
    assert(span_views(spans@) =~= spec_event_spans(*event, msg_width as nat));
    spans
}

fn max_in_card(card: &Vec<Vec<usize>>) -> (r: usize)
    ensures
        r == spec_card_max(card_rows(card@)),
{
    let ghost rows = card_rows(card@);
    let mut best: usize = 0;
    let mut d: usize = 0;
    while d < card.len()
        invariant
            d <= card@.len(),
            rows == card_rows(card@),
            best == spec_card_max(rows.take(d as int)),
        decreases card@.len() - d,
    {
        let row = &card[d];
        let mut row_best: usize = 0;
        let mut h: usize = 0;
        while h < row.len()
            invariant
                h <= row@.len(),
                row_best == spec_max_count(row@.take(h as int)),
            decreases row@.len() - h,
        {
            assert(row@.take(h + 1).drop_last() =~= row@.take(h as int));
            if row[h] > row_best {
                row_best = row[h];
            }
            h = h + 1;
        }
        assert(row@.take(row@.len() as int) =~= row@);
        assert(rows.take(d + 1).drop_last() =~= rows.take(d as int));
        assert(rows.take(d + 1).last() == row@);
        if row_best > best {
            best = row_best;
        }
        d = d + 1;
    }
    assert(rows.take(card@.len() as int) =~= rows);
    best
}

impl EventsScreen {
    /// The panel title: the screen's name and how many events it holds.
    pub fn title(&self) -> (r: String)
        ensures
            r@ == " Events ("@ + spec_decimal(self@.events.len() as nat) + ") "@,
    {
        let count = crate::text::fmt_u64(self.events.len() as u64);
        concat3(" Events (", count.as_str(), ") ")
    }

    /// The status line; see [`spec_status_line`].
    pub fn status_line(&self) -> (r: Vec<StyledSpan>)
        ensures
            span_views(r@) == spec_status_line(self@.paused),
    {
        let mut spans: Vec<StyledSpan> = Vec::new();
        spans.push(styled(owned("  Filter: "), ThemeRole::TextSecondary));
        spans.push(styled(owned("[all]"), ThemeRole::AccentSecondary));
        spans.push(styled(owned("  Type: "), ThemeRole::TextSecondary));
        spans.push(styled(owned("[all]"), ThemeRole::AccentSecondary));
        spans.push(crate::style::raw(owned("  ")));
        if self.paused {
            spans.push(styled(owned("PAUSED"), ThemeRole::Warning));
        } else {
            spans.push(styled(owned("● LIVE"), ThemeRole::Success));
        }
        assert(span_views(spans@) =~= spec_status_line(self@.paused));
        spans
    }

    /// The event list in an area `width` × `height`; see [`spec_event_list`].
    pub fn event_list_lines(&self, width: u16, height: u16) -> (r: Vec<Vec<StyledSpan>>)
        requires
            self.wf(),
        ensures
            line_views(r@) == spec_event_list(self@, width, height),
    {
        proof {
            self.lemma_wf();
        }
        let (start, end) = self.visible_range(height as usize);
        let msg_width = message_width(width);
        let mut lines: Vec<Vec<StyledSpan>> = Vec::new();
        let mut header: Vec<StyledSpan> = Vec::new();
        header.push(styled(owned("  Time      "), ThemeRole::TableHeader));
        header.push(styled(owned("Category   "), ThemeRole::TableHeader));
        header.push(styled(owned("Message"), ThemeRole::TableHeader));
        assert(span_views(header@) =~= spec_event_header());
        lines.push(header);
        let ghost events = self@.events;
        let mut i = start;
        while i < end
            invariant
                start <= i <= end <= events.len(),
                events == self@.events,
                forall|k: int| 0 <= k < events.len() ==> valid_timestamp(#[trigger] events[k].timestamp),
                line_views(lines@) == seq![spec_event_header()] + Seq::new(
                    (i - start) as nat,
                    |k: int| spec_event_spans(events[start + k], msg_width as nat),
                ),
            decreases end - i,
        {
            let row = event_spans(&self.events[i], msg_width);
            let ghost before = line_views(lines@);
            lines.push(row);
            proof {
                assert(line_views(lines@) =~= before.push(span_views(row@)));
                assert(line_views(lines@) =~= seq![spec_event_header()] + Seq::new(
                    (i + 1 - start) as nat,
                    |k: int| spec_event_spans(events[start + k], msg_width as nat),
                ));
            }
            i = i + 1;
        }
        if self.events.len() == 0 {
            let mut only: Vec<StyledSpan> = Vec::new();
            only.push(styled(owned("  Waiting for events..."), ThemeRole::BorderUnfocused));
            let ghost before = line_views(lines@);
            lines.push(only);
            proof {
                assert(line_views(lines@) =~= before.push(span_views(only@)));
                assert(span_views(only@) =~= seq![("  Waiting for events..."@, Some(ThemeRole::BorderUnfocused), false)]);
            }
        }
        if !self.paused && self.events.len() > 0 {
            let mut only: Vec<StyledSpan> = Vec::new();
            only.push(styled(owned("  ↓ auto-scrolling"), ThemeRole::BorderUnfocused));
            let ghost before = line_views(lines@);
            lines.push(only);
            proof {
                assert(line_views(lines@) =~= before.push(span_views(only@)));
                assert(span_views(only@) =~= seq![("  ↓ auto-scrolling"@, Some(ThemeRole::BorderUnfocused), false)]);
            }
        }
        proof {
            assert(line_views(lines@) =~= spec_event_list(self@, width, height));
        }
        lines
    }

    /// The punchcard as lines; see [`spec_punchcard_lines`].
    pub fn punchcard_lines(&self) -> (r: Vec<Vec<StyledSpan>>)
        requires
            self.wf(),
        ensures
            exists|card: Seq<Vec<usize>>| punchcard_of(card, self@.events) && line_views(r@)
                == spec_punchcard_lines(#[trigger] card_rows(card)),
    {
        let card = self.punchcard();
        let ghost rows = card_rows(card@);
        let top = max_in_card(&card);
        let max_count = if top > 1 {
            top
        } else {
            1
        };
        let mut lines: Vec<Vec<StyledSpan>> = Vec::new();
        let mut header: Vec<StyledSpan> = Vec::new();
        header.push(styled(owned("  Events by hour  "), ThemeRole::TableHeader));
        header.push(styled(owned("00      06      12      18"), ThemeRole::TextMuted));
        let ghost head_view = span_views(header@);
        lines.push(header);
        assert(line_views(lines@) =~= seq![head_view]);
        proof {
            assert(max_count == (if spec_card_max(rows) > 1 { spec_card_max(rows) as usize } else { 1usize }));
        }
        let mut d: usize = 0;
        while d < 7
            invariant
                d <= 7,
                punchcard_of(card@, self@.events),
                rows == card_rows(card@),
                line_views(lines@) == seq![head_view] + Seq::new(
                    d as nat,
                    |k: int|
                        seq![("  "@ + spec_day_name(k) + " "@, Some(ThemeRole::TextSecondary), false)]
                            + Seq::new(rows[k].len(), |h: int| spec_punchcard_cell(rows[k][h], max_count)),
                ),
            decreases 7 - d,
        {
            let mut spans: Vec<StyledSpan> = Vec::new();
            spans.push(styled(concat3("  ", day_name(d), " "), ThemeRole::TextSecondary));
            let row = &card[d];
            let ghost first = ("  "@ + spec_day_name(d as int) + " "@, Some(ThemeRole::TextSecondary), false);
            let mut h: usize = 0;
            while h < row.len()
                invariant
                    h <= row@.len(),
                    first == ("  "@ + spec_day_name(d as int) + " "@, Some(ThemeRole::TextSecondary), false),
                    span_views(spans@) == seq![first] + Seq::new(h as nat, |j: int| spec_punchcard_cell(row@[j], max_count)),
                decreases row@.len() - h,
            {
                let level = punchcard_level(row[h], max_count);
                let ghost before = span_views(spans@);
                let cell = styled(owned(punchcard_glyph(level)), level_role(level));
                spans.push(cell);
                proof {
                    assert(span_views(spans@) =~= before.push(cell@));
                    assert(span_views(spans@) =~= seq![first] + Seq::new((h + 1) as nat, |j: int| spec_punchcard_cell(row@[j], max_count)));
                }
                h = h + 1;
            }
            proof {
                assert(rows[d as int] == row@);
            }
            let ghost before = line_views(lines@);
            let ghost added = span_views(spans@);
            lines.push(spans);
            proof {
                assert(line_views(lines@) =~= before.push(added));
                assert(line_views(lines@) =~= seq![head_view] + Seq::new(
                    (d + 1) as nat,
                    |k: int|
                        seq![("  "@ + spec_day_name(k) + " "@, Some(ThemeRole::TextSecondary), false)]
                            + Seq::new(rows[k].len(), |h: int| spec_punchcard_cell(rows[k][h], max_count)),
                ));
            }
            d = d + 1;
        }
        proof {
            assert(head_view =~= seq![
                ("  Events by hour  "@, Some(ThemeRole::TableHeader), false),
                ("00      06      12      18"@, Some(ThemeRole::TextMuted), false),
            ]);
            assert(line_views(lines@) =~= spec_punchcard_lines(rows));
        }
        lines
    }
}

// ── Punchcard ─────────────────────────────────────────────────────────

/// Number of events at weekday `d` and hour `h`.
pub open spec fn spec_count_at(events: Seq<Event>, d: int, h: int) -> nat
    decreases events.len(),
{
    if events.len() == 0 {
        0
    } else {
        let e = events.last();
        let here: nat = if spec_weekday(e.timestamp as int) == d && spec_hour(e.timestamp as int) == h {
            1
        } else {
            0
        };
        spec_count_at(events.drop_last(), d, h) + here
    }
}

/// `card` is the 7 × 24 punchcard of `events`: cell `[d][h]` counts the
/// events on weekday `d` (Monday first) at hour `h` (UTC).
pub open spec fn punchcard_of(card: Seq<Vec<usize>>, events: Seq<Event>) -> bool {
    &&& card.len() == 7
    &&& forall|d: int| 0 <= d < 7 ==> (#[trigger] card[d])@.len() == 24
    &&& forall|d: int, h: int|
        0 <= d < 7 && 0 <= h < 24 ==> (#[trigger] card[d]@[h]) == spec_count_at(events, d, h)
}

proof fn lemma_count_bounded(events: Seq<Event>, d: int, h: int)
    ensures
        spec_count_at(events, d, h) <= events.len(),
    decreases events.len(),
{
    if events.len() > 0 {
        lemma_count_bounded(events.drop_last(), d, h);
    }
}

/// Counts events by weekday and hour.
pub fn event_punchcard(events: &Vec<Event>) -> (r: Vec<Vec<usize>>)
    requires
        forall|i: int| 0 <= i < events.len() ==> valid_timestamp(#[trigger] events@[i].timestamp),
    ensures
        punchcard_of(r@, events@),
{
    let mut card: Vec<Vec<usize>> = Vec::new();
    let mut d: usize = 0;
    while d < 7
        invariant
            d <= 7,
            card.len() == d,
            forall|k: int| 0 <= k < d ==> (#[trigger] card@[k])@.len() == 24,
            forall|k: int, h: int| 0 <= k < d && 0 <= h < 24 ==> (#[trigger] card@[k]@[h]) == 0,
        decreases 7 - d,
    {
        let mut row: Vec<usize> = Vec::new();
        let mut h: usize = 0;
        while h < 24
            invariant
                h <= 24,
                row.len() == h,
                forall|j: int| 0 <= j < h ==> row@[j] == 0,
            decreases 24 - h,
        {
            row.push(0);
            h = h + 1;
        }
        card.push(row);
        d = d + 1;
    }
    let mut i: usize = 0;
    while i < events.len()
        invariant
            i <= events.len(),
            forall|k: int| 0 <= k < events.len() ==> valid_timestamp(#[trigger] events@[k].timestamp),
            punchcard_of(card@, events@.take(i as int)),
        decreases events.len() - i,
    {
        let c = utc_clock(events[i].timestamp);
        let (day, hour, _, _) = c.unwrap();
        let day = day as usize;
        let hour = hour as usize;
        let ghost before = card@;
        let ghost prefix = events@.take(i as int);
        let ghost next = events@.take(i + 1);
        assert(next.drop_last() =~= prefix);
        assert(next.last() == events@[i as int]);
        proof {
            lemma_count_bounded(prefix, day as int, hour as int);
        }
        let mut row = card.remove(day);
        let old_count = row[hour];
        let bumped = if old_count < usize::MAX {
            old_count + 1
        } else {
            old_count
        };
        row.set(hour, bumped);
        card.insert(day, row);
        assert forall|k: int, hh: int| 0 <= k < 7 && 0 <= hh < 24 implies (#[trigger] card@[k]@[hh])
            == spec_count_at(next, k, hh) by {
            if k == day as int {
                assert(card@[k] == row);
            } else {
                assert(card@[k] == before[k]);
            }
        }
        assert forall|k: int| 0 <= k < 7 implies (#[trigger] card@[k])@.len() == 24 by {
            if k == day as int {
                assert(card@[k] == row);
            } else {
                assert(card@[k] == before[k]);
            }
        }
        i = i + 1;
    }
    assert(events@.take(events.len() as int) =~= events@);
    card
}

/// `usize::saturating_mul`.
pub open spec fn sat_mul(a: int, b: int) -> int {
    if a * b > usize::MAX {
        usize::MAX as int
    } else {
        a * b
    }
}

fn saturating_mul(a: usize, b: usize) -> (r: usize)
    requires
        b <= 3,
    ensures
        r == sat_mul(a as int, b as int),
{
    assert((a as u128) * (b as u128) <= 3 * (usize::MAX as u128)) by (nonlinear_arith)
        requires
            b <= 3,
            a <= usize::MAX,
    ;
    let wide: u128 = (a as u128) * (b as u128);
    if wide > usize::MAX as u128 {
        usize::MAX
    } else {
        wide as usize
    }
}

/// Density level of a punchcard cell: 0 for no events, else 1 to 3 by the
/// share of the busiest cell (up to a third, up to two thirds, above).
pub open spec fn spec_punchcard_level(count: usize, max_count: usize) -> u8 {
    if count == 0 {
        0u8
    } else {
        let m = if max_count == 0 {
            1
        } else {
            max_count as int
        };
        if m <= 1 || sat_mul(count as int, 3) <= m {
            1u8
        } else if sat_mul(count as int, 3) <= sat_mul(m, 2) {
            2u8
        } else {
            3u8
        }
    }
}

/// Density level of a punchcard cell; see [`spec_punchcard_level`].
pub fn punchcard_level(count: usize, max_count: usize) -> (r: u8)
    ensures
        r == spec_punchcard_level(count, max_count),
{
    if count == 0 {
        return 0;
    }
    let m = if max_count == 0 {
        1
    } else {
        max_count
    };
    let tripled = saturating_mul(count, 3);
    if m <= 1 || tripled <= m {
        1
    } else if tripled <= saturating_mul(m, 2) {
        2
    } else {
        3
    }
}

/// The glyph of a punchcard level: light to full shade.
pub open spec fn spec_punchcard_glyph(level: u8) -> Seq<char> {
    if level == 0 {
        "\u{2591}"@
    } else if level == 1 {
        "\u{2592}"@
    } else if level == 2 {
        "\u{2593}"@
    } else {
        "\u{2588}"@
    }
}

/// The glyph of a punchcard level; see [`spec_punchcard_glyph`].
pub fn punchcard_glyph(level: u8) -> (r: &'static str)
    ensures
        r@ == spec_punchcard_glyph(level),
{
    if level == 0 {
        "\u{2591}"
    } else if level == 1 {
        "\u{2592}"
    } else if level == 2 {
        "\u{2593}"
    } else {
        "\u{2588}"
    }
}

// ── Laws ──────────────────────────────────────────────────────────────

/// Resuming the live log always snaps it back to the newest event.
pub proof fn law_resume_snaps_to_bottom(offset: nat, len: nat, ctrl: bool)
    ensures
        ({
            let (paused, off, action) = spec_handle_key(
                true,
                offset,
                len,
                KeyInput { code: KeyCode::Char(' '), ctrl },
            );
            !paused && off == 0 && action == Some(ActionKind::ToggleEventPause)
        }),
{
}

/// While the log is live, scrolling keys do nothing.
pub proof fn law_live_log_ignores_scrolling(offset: nat, len: nat, key: KeyInput)
    requires
        !is_char(key, ' '),
    ensures
        spec_handle_key(false, offset, len, key) == (false, offset, None::<ActionKind>),
{
}

/// While paused, `j` or Down steps one line back toward the newest event
/// (stopping at the newest), stays paused and emits nothing.
pub proof fn law_down_steps_toward_newest(offset: nat, len: nat, key: KeyInput)
    requires
        is_char(key, 'j') || key.code == KeyCode::Down,
    ensures
        ({
            let (paused, off, action) = spec_handle_key(true, offset, len, key);
            &&& paused
            &&& off == (if offset > 0 {
                offset - 1
            } else {
                0int
            })
            &&& action is None
        }),
{
}

/// While paused, `k` or Up steps one line toward older events, stopping at
/// the oldest; it stays paused and emits nothing.
pub proof fn law_up_steps_toward_oldest(offset: nat, len: nat, key: KeyInput)
    requires
        is_char(key, 'k') || key.code == KeyCode::Up,
        offset < len || offset == 0,
    ensures
        ({
            let (paused, off, action) = spec_handle_key(true, offset, len, key);
            &&& paused
            &&& off == (if offset + 1 < len {
                offset + 1 as int
            } else {
                offset as int
            })
            &&& action is None
        }),
{
}

/// While paused, a step up followed by a step down returns to where the
/// view was, whenever there was an older event to step to.
pub proof fn law_down_undoes_up(offset: nat, len: nat, up: KeyInput, down: KeyInput)
    requires
        is_char(up, 'k') || up.code == KeyCode::Up,
        is_char(down, 'j') || down.code == KeyCode::Down,
        offset + 1 < len,
    ensures
        ({
            let (p1, o1, a1) = spec_handle_key(true, offset, len, up);
            let (p2, o2, a2) = spec_handle_key(p1, o1, len, down);
            p2 && o2 == offset
        }),
{
}

/// While paused, `g` jumps to the oldest event and `G` to the newest;
/// Control-d pages ten lines toward the newest and Control-u ten toward
/// the oldest, each stopping at the end of the log.
pub proof fn law_jumps_and_pages(offset: nat, len: nat)
    requires
        offset < len || offset == 0,
    ensures
        spec_handle_key(true, offset, len, KeyInput { code: KeyCode::Char('g'), ctrl: false }).1 == (if len
            > 0 {
            len - 1
        } else {
            0
        }),
        spec_handle_key(true, offset, len, KeyInput { code: KeyCode::Char('G'), ctrl: false }).1 == 0,
        spec_handle_key(true, offset, len, KeyInput { code: KeyCode::Char('d'), ctrl: true }).1 == (if offset
            >= 10 {
            offset - 10
        } else {
            0
        }),
        spec_handle_key(true, offset, len, KeyInput { code: KeyCode::Char('u'), ctrl: true }).1 == (if offset
            + 10 < len {
            offset + 10 as int
        } else if len > 0 {
            len - 1
        } else {
            0
        }),
{
}

/// A received event always becomes the newest entry of the log; the log
/// never exceeds its capacity, and it is the newest events, in arrival
/// order, that are kept: the log is the tail of the old log followed by the
/// new event, as long as the capacity allows.
pub proof fn law_receive_keeps_the_newest(events: Seq<Event>, e: Event, capacity: nat)
    requires
        1 <= capacity,
        events.len() <= capacity,
    ensures
        ({
            let r = spec_receive(events, e, capacity);
            let n: int = events.len() as int + 1;
            &&& r.len() == (if n <= capacity {
                n
            } else {
                capacity as int
            })
            &&& r.last() == e
            &&& r == events.push(e).subrange(n - r.len(), n)
        }),
{
    let r = spec_receive(events, e, capacity);
    let n: int = events.len() as int + 1;
    assert(r =~= events.push(e).subrange(n - r.len(), n));
}

/// A punchcard cell is blank exactly when it counts no event; otherwise
/// its level is 1 to 3, a busier cell is never shown lighter than a quieter
/// one, and a cell counting at most a third of the busiest is at level 1
/// while the busiest cell itself (of several events) is at level 3.
pub proof fn law_punchcard_levels_grow_with_the_count(c1: usize, c2: usize, max_count: usize)
    requires
        c1 <= c2,
    ensures
        (spec_punchcard_level(c1, max_count) == 0) <==> c1 == 0,
        c1 > 0 ==> 1 <= spec_punchcard_level(c1, max_count) <= 3,
        spec_punchcard_level(c1, max_count) <= spec_punchcard_level(c2, max_count),
        c1 > 0 && 3 * c1 <= max_count ==> spec_punchcard_level(c1, max_count) == 1,
        max_count >= 2 && 3 * max_count <= usize::MAX ==> spec_punchcard_level(max_count, max_count)
            == 3,
{
    assert(c1 * 3 <= c2 * 3) by (nonlinear_arith)
        requires
            c1 <= c2,
    ;
}

/// The sum of the first `n` punchcard cells, read row by row (weekday by
/// weekday, each hour in turn).
pub open spec fn spec_cells_sum(events: Seq<Event>, n: nat) -> nat
    decreases n,
{
    if n == 0 {
        0
    } else {
        spec_cells_sum(events, (n - 1) as nat) + spec_count_at(events, (n - 1) / 24, (n - 1) % 24)
    }
}

/// The cell an event's time falls in, counted row by row.
pub open spec fn spec_cell_index(e: Event) -> int {
    spec_weekday(e.timestamp as int) * 24 + spec_hour(e.timestamp as int)
}

proof fn lemma_cells_sum_empty(events: Seq<Event>, n: nat)
    requires
        events.len() == 0,
    ensures
        spec_cells_sum(events, n) == 0,
    decreases n,
{
    if n > 0 {
        lemma_cells_sum_empty(events, (n - 1) as nat);
    }
}

proof fn lemma_cells_sum_last(events: Seq<Event>, n: nat)
    requires
        events.len() > 0,
    ensures
        spec_cells_sum(events, n) == spec_cells_sum(events.drop_last(), n) + (if spec_cell_index(
            events.last(),
        ) < n {
            1nat
        } else {
            0nat
        }),
    decreases n,
{
    if n > 0 {
        lemma_cells_sum_last(events, (n - 1) as nat);
        let t = events.last().timestamp as int;
        let wd = spec_weekday(t);
        let hr = spec_hour(t);
        let c = (n - 1) as int;
        assert(0 <= hr < 24) by {
            assert(0 <= t % 86400 < 86400);
        }
        assert(0 <= wd < 7);
        assert((wd == c / 24 && hr == c % 24) <==> wd * 24 + hr == c) by {
            if wd * 24 + hr == c {
                assert(c / 24 == wd && c % 24 == hr) by (nonlinear_arith)
                    requires
                        c == wd * 24 + hr,
                        0 <= hr < 24,
                        0 <= wd,
                ;
            }
            if wd == c / 24 && hr == c % 24 {
                assert(c == (c / 24) * 24 + c % 24) by (nonlinear_arith)
                    requires
                        c >= 0,
                ;
            }
        }
    }
}

/// The 7 × 24 punchcard cells sum to the number of events, for any log.
pub proof fn law_punchcard_cells_sum_to_event_count(events: Seq<Event>)
    ensures
        spec_cells_sum(events, 7 * 24) == events.len(),
    decreases events.len(),
{
    if events.len() == 0 {
        lemma_cells_sum_empty(events, 7 * 24);
    } else {
        law_punchcard_cells_sum_to_event_count(events.drop_last());
        lemma_cells_sum_last(events, 7 * 24);
        let t = events.last().timestamp as int;
        assert(0 <= spec_hour(t) < 24) by {
            assert(0 <= t % 86400 < 86400);
        }
        assert(0 <= spec_weekday(t) < 7);
    }
}

/// Every event counts in exactly one punchcard cell: its own weekday and
/// hour are a cell of the card, that cell counts it, and the 7 × 24 cells
/// sum to the number of events.
pub proof fn law_punchcard_counts_each_event_once(events: Seq<Event>, k: int)
    requires
        0 <= k < events.len(),
    ensures
        spec_count_at(events, spec_weekday(events[k].timestamp as int), spec_hour(
            events[k].timestamp as int,
        )) >= 1,
        0 <= spec_weekday(events[k].timestamp as int) < 7,
        0 <= spec_hour(events[k].timestamp as int) < 24,
        spec_cells_sum(events, 7 * 24) == events.len(),
    decreases events.len(),
{
    if k < events.len() - 1 {
        law_punchcard_counts_each_event_once(events.drop_last(), k);
        assert(events.drop_last()[k] == events[k]);
    }
    law_punchcard_cells_sum_to_event_count(events);
}

} // verus!
