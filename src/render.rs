use vstd::prelude::*;
use crate::log_store::window_of;
use crate::shared_log::SharedLog;
use tui::layout::{Constraint, Direction, Layout, Rect};

verus! {

/// Blank rows kept around the whole drawable area, on every side.
pub const LAYOUT_MARGIN: u16 = 2;

/// Share of the inner height given to the log panel, in percent.
pub const LOG_PERCENT: u16 = 80;

/// Share of the inner height given to the stats panel, in percent.
pub const STATS_PERCENT: u16 = 20;

/// Least time between the starts of two render cycles, in milliseconds, so
/// that the loop does not spin on a full core.
pub const FRAME_INTERVAL_MS: u64 = 50;

/// Rows of a bordered panel taken by its top and bottom border.
pub const BORDER_ROWS: u16 = 2;

/// One key press, as far as the render loop tells keys apart.
#[derive(Clone, Copy, PartialEq, Eq, Debug, Structural)]
pub enum KeyEvent {
    /// A plain character key.
    Char(char),
    /// A character typed with the control key held.
    Ctrl(char),
    /// Any other key.
    Other,
}

/// Whether the render loop goes on drawing.
#[derive(Clone, Copy, PartialEq, Eq, Debug, Structural)]
pub enum LoopState {
    Running,
    Terminated,
}

/// A rectangle of terminal cells.
#[derive(Clone, Copy, PartialEq, Eq, Debug, Structural)]
pub struct Area {
    pub x: u16,
    pub y: u16,
    pub width: u16,
    pub height: u16,
}

/// The quit character and the interrupt combination.
pub open spec fn is_quit(k: KeyEvent) -> bool {
    k == KeyEvent::Char('q') || k == KeyEvent::Ctrl('c')
}

/// The state after one poll of the event channel, which gave `polled`.
pub open spec fn next_state(s: LoopState, polled: Option<KeyEvent>) -> LoopState {
    match polled {
        Some(k) => if is_quit(k) {
            LoopState::Terminated
        } else {
            s
        },
        None => s,
    }
}

/// The state after polling each of `events` in turn, starting from `s`.
pub open spec fn after_polls(s: LoopState, events: Seq<Option<KeyEvent>>) -> LoopState
    decreases events.len(),
{
    if events.len() == 0 {
        s
    } else {
        next_state(after_polls(s, events.drop_last()), events.last())
    }
}

/// Rows of a bordered panel of this height left for text.
pub open spec fn usable_rows_of(panel: Area) -> nat {
    if panel.height >= BORDER_ROWS {
        (panel.height - BORDER_ROWS) as nat
    } else {
        0
    }
}

/// Areas on which the layout can be computed without overflowing a cell
/// coordinate.
pub open spec fn layout_fits(area: Area) -> bool {
    &&& area.height as int * LOG_PERCENT as int <= u16::MAX as int
    &&& area.height as int * STATS_PERCENT as int <= u16::MAX as int
    &&& area.x as int + area.width as int <= u16::MAX as int
    &&& area.y as int + area.height as int <= u16::MAX as int
    &&& area.x as int + LAYOUT_MARGIN as int <= u16::MAX as int
    &&& area.y as int + LAYOUT_MARGIN as int <= u16::MAX as int
}

/// What tui's vertical `Layout::split` yields for two percentage rows.
pub uninterp spec fn vertical_split_of(area: Area, margin: u16, top: u16, bottom: u16) -> (Area, Area);

/// Relies on tui's `Layout::split` (vertical, with a margin, two percentage
/// constraints): the two areas it solves for, which depend on its arguments
/// alone. It overflows a `u16` where a percentage times the height, the margin
/// doubled, or a corner plus the margin does not fit, and its solver fails
/// where the far edge of the area lies beyond the last cell coordinate. When
/// the margin leaves room, the last area is stretched to end exactly at the
/// inner bottom edge.
#[verifier::external_body]
fn split_vertical(area: Area, margin: u16, top: u16, bottom: u16) -> (r: (Area, Area))
    requires
        area.height as int * top as int <= u16::MAX as int,
        area.height as int * bottom as int <= u16::MAX as int,
        2 * margin as int <= u16::MAX as int,
        area.x as int + margin as int <= u16::MAX as int,
        area.y as int + margin as int <= u16::MAX as int,
        area.x as int + area.width as int <= u16::MAX as int,
        area.y as int + area.height as int <= u16::MAX as int,
    ensures
        r == vertical_split_of(area, margin, top, bottom),
        area.width as int >= 2 * margin as int && area.height as int >= 2 * margin as int
            && area.width as int * area.height as int <= u16::MAX as int
            ==> r.1.y as int + r.1.height as int == area.y as int + area.height as int
            - margin as int,
{
    let c = Layout::default().direction(Direction::Vertical).margin(margin)
        .constraints([Constraint::Percentage(top), Constraint::Percentage(bottom)].as_ref())
        .split(Rect::new(area.x, area.y, area.width, area.height));
    (
        Area { x: c[0].x, y: c[0].y, width: c[0].width, height: c[0].height },
        Area { x: c[1].x, y: c[1].y, width: c[1].width, height: c[1].height },
    )
}

/// The log panel and the stats panel of a drawable area.
pub fn panel_layout(area: Area) -> (r: (Area, Area))
    requires
        layout_fits(area),
    ensures
        r == vertical_split_of(area, LAYOUT_MARGIN, LOG_PERCENT, STATS_PERCENT),
        area.width >= 2 * LAYOUT_MARGIN && area.height >= 2 * LAYOUT_MARGIN
            && area.width as int * area.height as int <= u16::MAX as int
            ==> r.1.y as int + r.1.height as int == area.y as int + area.height as int
            - LAYOUT_MARGIN as int,
{
    split_vertical(area, LAYOUT_MARGIN, LOG_PERCENT, STATS_PERCENT)
}

/// Rows of a bordered panel left for text.
pub fn usable_rows(panel: Area) -> (r: usize)
    ensures
        r == usable_rows_of(panel),
{
    if panel.height >= BORDER_ROWS {
        (panel.height - BORDER_ROWS) as usize
    } else {
        0
    }
}

/// Whether `k` ends the render loop.
pub fn is_quit_key(k: KeyEvent) -> (r: bool)
    ensures
        r == is_quit(k),
{
    match k {
        KeyEvent::Char(c) => c == 'q',
        KeyEvent::Ctrl(c) => c == 'c',
        KeyEvent::Other => false,
    }
}

/// The stats line shown under the log. Nothing changes it once it is set.
pub struct DashboardState {
    stats: String,
}

impl DashboardState {
    /// A dashboard showing `stats`.
    pub fn new(stats: String) -> (r: DashboardState)
        ensures
            r.stats_view() == stats@,
    {
        DashboardState { stats }
    }

    /// The stats text, as a sequence of characters.
    pub closed spec fn stats_view(&self) -> Seq<char> {
        self.stats@
    }

    /// A copy of the stats text.
    pub fn stats(&self) -> (r: String)
        ensures
            r@ == self.stats_view(),
    {
        self.stats.clone()
    }
}

/// What one render cycle draws: where each panel goes, the log lines shown
/// oldest first, and the stats text.
pub struct Frame {
    pub log_area: Area,
    pub stats_area: Area,
    pub log_lines: Vec<String>,
    pub stats: String,
}

/// The foreground loop: it draws a frame per cycle while running, and stops
/// for good on the quit character or the interrupt combination.
pub struct RenderLoop {
    state: LoopState,
    dashboard: DashboardState,
}

impl RenderLoop {
    /// A running loop that shows `dashboard` under the log.
    pub fn new(dashboard: DashboardState) -> (r: RenderLoop)
        ensures
            r.state_view() == LoopState::Running,
            r.dashboard_view() == dashboard.stats_view(),
    {
        RenderLoop { state: LoopState::Running, dashboard }
    }

    /// The loop's state.
    pub closed spec fn state_view(&self) -> LoopState {
        self.state
    }

    /// The stats text the loop shows.
    pub closed spec fn dashboard_view(&self) -> Seq<char> {
        self.dashboard.stats_view()
    }

    /// The current state.
    pub fn state(&self) -> (r: LoopState)
        ensures
            r == self.state_view(),
    {
        self.state
    }

    /// Whether another cycle is drawn.
    pub fn is_running(&self) -> (r: bool)
        ensures
            r == (self.state_view() == LoopState::Running),
    {
        self.state == LoopState::Running
    }

    /// The frame of one cycle on a drawable `area`: the panel layout, then a
    /// single window query sized to the log panel's rows inside its border.
    /// A terminated loop draws nothing.
    pub fn plan_frame(&self, log: &SharedLog, area: Area) -> (r: Option<Frame>)
        requires
            layout_fits(area),
        ensures
            r.is_none() == (self.state_view() == LoopState::Terminated),
            r matches Some(f) ==> {
                &&& (f.log_area, f.stats_area) == vertical_split_of(
                    area,
                    LAYOUT_MARGIN,
                    LOG_PERCENT,
                    STATS_PERCENT,
                )
                &&& f.log_lines@.len() <= usable_rows_of(f.log_area)
                &&& exists|entries: Seq<Seq<char>>|
                    f.log_lines@.map_values(|s: String| s@) == window_of(
                        entries,
                        usable_rows_of(f.log_area),
                    ) && #[trigger] window_of(entries, usable_rows_of(f.log_area)).len()
                        <= entries.len() && entries.len() >= log.seed().len() && entries.subrange(
                        0,
                        log.seed().len() as int,
                    ) == log.seed()
                &&& f.stats@ == self.dashboard_view()
            },
    {
        if self.state == LoopState::Terminated {
            return None;
        }
        let (log_area, stats_area) = panel_layout(area);
        let rows = usable_rows(log_area);
        let log_lines = log.visible_window(rows);
        let stats = self.dashboard.stats();
        Some(Frame { log_area, stats_area, log_lines, stats })
    }

    /// Takes the result of one non-blocking poll of the event channel.
    pub fn handle_poll(&mut self, polled: Option<KeyEvent>)
        ensures
            final(self).state_view() == next_state(old(self).state_view(), polled),
            final(self).dashboard_view() == old(self).dashboard_view(),
    {
        if let Some(k) = polled {
            if is_quit_key(k) {
                self.state = LoopState::Terminated;
            }
        }
    }
}

/// Once the loop has terminated it stays terminated, whatever is polled
/// afterwards, so no further frame is ever drawn.
pub proof fn lemma_terminated_is_final(events: Seq<Option<KeyEvent>>)
    ensures
        after_polls(LoopState::Terminated, events) == LoopState::Terminated,
    decreases events.len(),
{
    if events.len() > 0 {
        lemma_terminated_is_final(events.drop_last());
    }
}

/// Polls that bring no key, or any key other than `q` and Ctrl+C, leave a
/// running loop running.
pub proof fn lemma_other_keys_ignored(events: Seq<Option<KeyEvent>>)
    requires
        forall|i: int| 0 <= i < events.len() ==> !(#[trigger] events[i] matches Some(k) && is_quit(k)),
    ensures
        after_polls(LoopState::Running, events) == LoopState::Running,
    decreases events.len(),
{
    if events.len() > 0 {
        let init = events.drop_last();
        assert forall|i: int| 0 <= i < init.len() implies !(#[trigger] init[i] matches Some(k) && is_quit(k)) by {
            assert(init[i] == events[i]);
        }
        lemma_other_keys_ignored(init);
        assert(events.last() == events[events.len() - 1]);
    }
}

/// A quit key polled by a running loop ends it at once: at most the cycle that
/// polled it has been drawn.
pub proof fn lemma_quit_ends_loop(k: KeyEvent)
    requires
        is_quit(k),
    ensures
        next_state(LoopState::Running, Some(k)) == LoopState::Terminated,
{
}

} // verus!
