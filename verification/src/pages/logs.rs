//! A live log page: a capped buffer of log entries, a case-insensitive
//! text filter over them, and a selection within the filtered view.

use vstd::prelude::*;
use crate::cell::Entity;
use crate::component::Component;
use crate::component::Context;
use crate::component::EventContext;
use crate::component::Surface;
use crate::event::Action;
use crate::event::Event;
use crate::event::KeyCode;
use crate::text::contains_seq;
use crate::text::dec_string;
use crate::text::lower_of;
use crate::text::str_contains;
use crate::text::string_pop;
use crate::text::string_push;
use crate::text::to_lowercase;
use crate::tracker::TaskHandle;
use crate::tracker::TaskTracker;

verus! {

/// The severity of one log entry.
#[derive(Clone, Copy, Debug, PartialEq, Eq, Structural)]
pub enum LogLevel {
    Info,
    Warn,
    Error,
    Debug,
    Trace,
}

impl LogLevel {
    /// The four-column tag of the level.
    pub fn as_str(&self) -> (r: &'static str)
        ensures
            match *self {
                LogLevel::Info => r@ == "INFO"@,
                LogLevel::Warn => r@ == "WARN"@,
                LogLevel::Error => r@ == "ERR "@,
                LogLevel::Debug => r@ == "DBUG"@,
                LogLevel::Trace => r@ == "TRCE"@,
            },
    {
        match self {
            LogLevel::Info => "INFO",
            LogLevel::Warn => "WARN",
            LogLevel::Error => "ERR ",
            LogLevel::Debug => "DBUG",
            LogLevel::Trace => "TRCE",
        }
    }
}

/// The severity the stream's generator assigns to one random draw: sixty
/// in a hundred are info, twenty-five warnings, ten errors, five debug.
/// The draw itself comes from wherever the generator gets its randomness;
/// the decision here holds for every value of it.
pub fn level_for_draw(draw: u64) -> (r: LogLevel)
    ensures
        ({
            let d = draw % 100;
            if d < 60 {
                r == LogLevel::Info
            } else if d < 85 {
                r == LogLevel::Warn
            } else if d < 95 {
                r == LogLevel::Error
            } else {
                r == LogLevel::Debug
            }
        }),
{
    let d = draw % 100;
    if d < 60 {
        LogLevel::Info
    } else if d < 85 {
        LogLevel::Warn
    } else if d < 95 {
        LogLevel::Error
    } else {
        LogLevel::Debug
    }
}

/// One log entry.
#[derive(Clone, Debug)]
pub struct LogEntry {
    pub id: u64,
    /// Milliseconds since the stream started.
    pub timestamp_ms: u64,
    pub level: LogLevel,
    pub service: String,
    pub message: String,
    pub details: String,
}

/// Whether an entry matches the filter: an empty filter matches everything,
/// a non-empty one matches case-insensitively against the message or the
/// service name.
pub open spec fn entry_matches(e: LogEntry, filter: Seq<char>) -> bool {
    ||| filter.len() == 0
    ||| contains_seq(lower_of(e.message@), lower_of(filter))
    ||| contains_seq(lower_of(e.service@), lower_of(filter))
}

/// The indices of the matching entries among the first `n`, in increasing
/// order.
pub open spec fn matching_up_to(logs: Seq<LogEntry>, filter: Seq<char>, n: int) -> Seq<usize>
    decreases n,
{
    if n <= 0 {
        Seq::empty()
    } else if entry_matches(logs[n - 1], filter) {
        matching_up_to(logs, filter, n - 1).push((n - 1) as usize)
    } else {
        matching_up_to(logs, filter, n - 1)
    }
}

/// The indices of the matching entries, in increasing order.
pub open spec fn matching_indices(logs: Seq<LogEntry>, filter: Seq<char>) -> Seq<usize> {
    matching_up_to(logs, filter, logs.len() as int)
}

/// Matching indices over a prefix do not depend on what comes after it.
proof fn lemma_matching_prefix(logs: Seq<LogEntry>, appended: LogEntry, filter: Seq<char>, n: int)
    requires
        0 <= n <= logs.len(),
    ensures
        matching_up_to(logs.push(appended), filter, n) == matching_up_to(logs, filter, n),
    decreases n,
{
    if n > 0 {
        lemma_matching_prefix(logs, appended, filter, n - 1);
        assert(logs.push(appended)[n - 1] == logs[n - 1]);
    }
}

/// A saturating counter step.
pub open spec fn sat_inc(n: usize) -> usize {
    if n == usize::MAX {
        n
    } else {
        (n + 1) as usize
    }
}

/// The per-level counters after one more entry of the given level; only
/// info, warnings and errors are counted.
pub open spec fn bumped_stats(stats: (usize, usize, usize), level: LogLevel) -> (
    usize,
    usize,
    usize,
) {
    match level {
        LogLevel::Info => (sat_inc(stats.0), stats.1, stats.2),
        LogLevel::Warn => (stats.0, sat_inc(stats.1), stats.2),
        LogLevel::Error => (stats.0, stats.1, sat_inc(stats.2)),
        _ => stats,
    }
}

/// The state of the log page: the entries, the filter, the filtered view
/// and the selection within it, and the stream's mode flags.
pub struct LogState {
    pub logs: Vec<LogEntry>,
    pub filter: String,
    pub is_typing: bool,
    pub paused: bool,
    pub auto_scroll: bool,
    /// The selection, as an index into `filtered_indices`.
    pub selected_index: usize,
    /// The indices of the entries that match the filter, increasing.
    pub filtered_indices: Vec<usize>,
    /// How many info, warning and error entries were ever added.
    pub stats: (usize, usize, usize),
}

impl LogState {
    /// The filtered view is exactly the set of matching indices, in order.
    pub open spec fn filter_consistent(&self) -> bool {
        self.filtered_indices@ == matching_indices(self.logs@, self.filter@)
    }

    /// Recompute the filtered view from the entries and the filter, and
    /// clamp the selection into it.
    pub fn recalc_filter(&mut self)
        ensures
            final(self).filtered_indices@ == matching_indices(old(self).logs@, old(self).filter@),
            final(self).selected_index == if old(self).selected_index < final(self).filtered_indices@.len() {
                old(self).selected_index as int
            } else if final(self).filtered_indices@.len() > 0 {
                final(self).filtered_indices@.len() - 1
            } else {
                0
            },
            final(self).logs@ == old(self).logs@,
            final(self).filter@ == old(self).filter@,
            final(self).is_typing == old(self).is_typing,
            final(self).paused == old(self).paused,
            final(self).auto_scroll == old(self).auto_scroll,
            final(self).stats == old(self).stats,
    {
        let query = to_lowercase(self.filter.as_str());
        let mut indices: Vec<usize> = Vec::new();
        let mut i: usize = 0;
        while i < self.logs.len()
            invariant
                i <= self.logs@.len(),
                indices@ == matching_up_to(self.logs@, self.filter@, i as int),
                query@ == lower_of(self.filter@),
            decreases self.logs@.len() - i,
        {
            let entry = &self.logs[i];
            let matched = self.filter.as_str().is_empty() || str_contains(
                to_lowercase(entry.message.as_str()).as_str(),
                query.as_str(),
            ) || str_contains(to_lowercase(entry.service.as_str()).as_str(), query.as_str());
            assert(matched == entry_matches(self.logs@[i as int], self.filter@));
            if matched {
                indices.push(i);
            }
            i = i + 1;
        }
        self.filtered_indices = indices;
        let len = self.filtered_indices.len();
        if self.selected_index >= len {
            self.selected_index = if len > 0 {
                len - 1
            } else {
                0
            };
        }
    }

    /// Add one entry: count it in the stats, append it, cap the buffer at a
    /// thousand entries — recomputing the filtered view when the cap trims
    /// the oldest entry, extending it in place otherwise — and follow the
    /// tail when auto-scroll is on. A filtered view that was consistent
    /// stays consistent.
    pub fn add_log(&mut self, log: LogEntry)
        ensures
            final(self).stats == bumped_stats(old(self).stats, log.level),
            ({
                let grown = old(self).logs@.push(log);
                final(self).logs@ == if grown.len() > 1000 {
                    grown.subrange(1, grown.len() as int)
                } else {
                    grown
                }
            }),
            old(self).filter_consistent() || old(self).logs@.len() >= 1000 ==> final(self).filter_consistent(),
            final(self).filter@ == old(self).filter@,
            final(self).is_typing == old(self).is_typing,
            final(self).paused == old(self).paused,
            final(self).auto_scroll == old(self).auto_scroll,
            old(self).auto_scroll && final(self).filtered_indices@.len() > 0 ==> final(self).selected_index == final(self).filtered_indices@.len() - 1,
    {
        self.stats = match log.level {
            LogLevel::Info => (
                if self.stats.0 < usize::MAX {
                    self.stats.0 + 1
                } else {
                    self.stats.0
                },
                self.stats.1,
                self.stats.2,
            ),
            LogLevel::Warn => (
                self.stats.0,
                if self.stats.1 < usize::MAX {
                    self.stats.1 + 1
                } else {
                    self.stats.1
                },
                self.stats.2,
            ),
            LogLevel::Error => (
                self.stats.0,
                self.stats.1,
                if self.stats.2 < usize::MAX {
                    self.stats.2 + 1
                } else {
                    self.stats.2
                },
            ),
            _ => self.stats,
        };
        let ghost pre = self.logs@;
        let matched = self.filter.as_str().is_empty() || str_contains(
            to_lowercase(log.message.as_str()).as_str(),
            to_lowercase(self.filter.as_str()).as_str(),
        ) || str_contains(to_lowercase(log.service.as_str()).as_str(), to_lowercase(self.filter.as_str()).as_str());
        proof {
            assert(matched == entry_matches(log, self.filter@));
        }
        self.logs.push(log);
        if self.logs.len() > 1000 {
            self.logs.remove(0);
            proof {
                let grown = pre.push(log);
                assert(self.logs@ =~= grown.subrange(1, grown.len() as int));
            }
            self.recalc_filter();
        } else {
            if matched {
                let last = self.logs.len() - 1;
                self.filtered_indices.push(last);
            }
            proof {
                let grown = pre.push(log);
                lemma_matching_prefix(pre, log, self.filter@, pre.len() as int);
                assert(grown[grown.len() - 1] == log);
            }
        }
        if self.auto_scroll && self.filtered_indices.len() > 0 {
            self.selected_index = self.filtered_indices.len() - 1;
        }
    }

    /// Leave or enter typing mode.
    pub fn set_typing(&mut self, typing: bool)
        ensures
            final(self).is_typing == typing,
            final(self).logs@ == old(self).logs@,
            final(self).filter@ == old(self).filter@,
            final(self).filtered_indices@ == old(self).filtered_indices@,
            final(self).selected_index == old(self).selected_index,
            final(self).paused == old(self).paused,
            final(self).auto_scroll == old(self).auto_scroll,
            final(self).stats == old(self).stats,
    {
        self.is_typing = typing;
    }

    /// Enter search mode: typing starts and auto-scroll stops.
    pub fn start_search(&mut self)
        ensures
            final(self).is_typing,
            !final(self).auto_scroll,
            final(self).logs@ == old(self).logs@,
            final(self).filter@ == old(self).filter@,
            final(self).filtered_indices@ == old(self).filtered_indices@,
            final(self).selected_index == old(self).selected_index,
            final(self).paused == old(self).paused,
            final(self).stats == old(self).stats,
    {
        self.is_typing = true;
        self.auto_scroll = false;
    }

    /// Append one character to the filter and recompute the filtered view.
    pub fn push_filter_char(&mut self, c: char)
        ensures
            final(self).filter@ == old(self).filter@.push(c),
            final(self).filtered_indices@ == matching_indices(old(self).logs@, final(self).filter@),
            final(self).logs@ == old(self).logs@,
    {
        string_push(&mut self.filter, c);
        self.recalc_filter();
    }

    /// Drop the last character of the filter, if any, and recompute the
    /// filtered view.
    pub fn pop_filter_char(&mut self)
        ensures
            final(self).filter@ == if old(self).filter@.len() > 0 {
                old(self).filter@.drop_last()
            } else {
                old(self).filter@
            },
            final(self).filtered_indices@ == matching_indices(old(self).logs@, final(self).filter@),
            final(self).logs@ == old(self).logs@,
    {
        let _ = string_pop(&mut self.filter);
        self.recalc_filter();
    }

    /// Pause or resume the stream.
    pub fn toggle_pause(&mut self)
        ensures
            final(self).paused == !old(self).paused,
            final(self).logs@ == old(self).logs@,
            final(self).filtered_indices@ == old(self).filtered_indices@,
            final(self).selected_index == old(self).selected_index,
    {
        self.paused = !self.paused;
    }

    /// Toggle auto-scroll; turning it on jumps the selection to the tail of
    /// the filtered view.
    pub fn toggle_auto_scroll(&mut self)
        ensures
            final(self).auto_scroll == !old(self).auto_scroll,
            final(self).logs@ == old(self).logs@,
            final(self).filtered_indices@ == old(self).filtered_indices@,
            final(self).auto_scroll && old(self).filtered_indices@.len() > 0 ==> final(self).selected_index == old(self).filtered_indices@.len() - 1,
            !final(self).auto_scroll || old(self).filtered_indices@.len() == 0 ==> final(self).selected_index == old(self).selected_index,
    {
        self.auto_scroll = !self.auto_scroll;
        if self.auto_scroll && self.filtered_indices.len() > 0 {
            self.selected_index = self.filtered_indices.len() - 1;
        }
    }

    /// Clear everything: entries, filtered view, selection and stats.
    pub fn clear(&mut self)
        ensures
            final(self).logs@ == Seq::<LogEntry>::empty(),
            final(self).filtered_indices@ == Seq::<usize>::empty(),
            final(self).selected_index == 0,
            final(self).stats == (0usize, 0usize, 0usize),
            final(self).filter@ == old(self).filter@,
            final(self).filter_consistent(),
    {
        self.logs.clear();
        self.filtered_indices.clear();
        self.selected_index = 0;
        self.stats = (0, 0, 0);
    }

    /// Move the selection one step up in the filtered view; manual movement
    /// stops auto-scroll.
    pub fn select_up(&mut self)
        ensures
            !final(self).auto_scroll,
            final(self).selected_index == if old(self).selected_index > 0 {
                old(self).selected_index - 1
            } else {
                0
            },
            final(self).logs@ == old(self).logs@,
            final(self).filtered_indices@ == old(self).filtered_indices@,
    {
        self.auto_scroll = false;
        if self.selected_index > 0 {
            self.selected_index = self.selected_index - 1;
        }
    }

    /// Move the selection one step down in the filtered view, staying
    /// within it; manual movement stops auto-scroll.
    pub fn select_down(&mut self)
        ensures
            !final(self).auto_scroll,
            final(self).selected_index == if old(self).selected_index + 1 < old(self).filtered_indices@.len() {
                old(self).selected_index + 1
            } else {
                old(self).selected_index as int
            },
            final(self).logs@ == old(self).logs@,
            final(self).filtered_indices@ == old(self).filtered_indices@,
    {
        self.auto_scroll = false;
        let len = self.filtered_indices.len();
        if len > 0 && self.selected_index < len - 1 {
            self.selected_index = self.selected_index + 1;
        }
    }
}

impl Clone for LogState {
    /// A field-by-field copy of the page state.
    fn clone(&self) -> Self {
        LogState {
            logs: self.logs.clone(),
            filter: self.filter.clone(),
            is_typing: self.is_typing,
            paused: self.paused,
            auto_scroll: self.auto_scroll,
            selected_index: self.selected_index,
            filtered_indices: self.filtered_indices.clone(),
            stats: (self.stats.0, self.stats.1, self.stats.2),
        }
    }
}

impl Default for LogState {
    /// No entries, no filter, streaming with auto-scroll on.
    fn default() -> (r: LogState)
        ensures
            r.logs@ == Seq::<LogEntry>::empty(),
            r.filter@ == Seq::<char>::empty(),
            !r.is_typing,
            !r.paused,
            r.auto_scroll,
            r.selected_index == 0,
            r.filtered_indices@ == Seq::<usize>::empty(),
            r.stats == (0usize, 0usize, 0usize),
            r.filter_consistent(),
    {
        LogState {
            logs: Vec::new(),
            filter: String::new(),
            is_typing: false,
            paused: false,
            auto_scroll: true,
            selected_index: 0,
            filtered_indices: Vec::new(),
            stats: (0, 0, 0),
        }
    }
}

/// The action one key on the log page yields in navigation mode: the quit
/// key quits, the menu key navigates to the menu, and every other key —
/// search, pause, auto-scroll, clear and selection included, which only
/// adjust the state cell — yields none.
pub open spec fn log_nav_action(code: KeyCode, r: Option<Action>) -> bool {
    &&& code == KeyCode::Char('q') ==> r == Some(Action::Quit)
    &&& code == KeyCode::Char('m') ==> (r matches Some(Action::Navigate(s)) && s@ == "menu"@)
    &&& !(code == KeyCode::Char('q') || code == KeyCode::Char('m')) ==> r is None
}

/// The log page: its state cell and the tracker holding its background
/// generator.
pub struct LogPage {
    state: Entity<LogState>,
    tasks: TaskTracker,
}

impl LogPage {
    /// How many background tasks the page tracks.
    pub closed spec fn tracked_count(&self) -> nat {
        self.tasks.tracked_count()
    }

    /// A strong handle to the page's state cell, for the driver that runs
    /// the generator.
    pub fn state_handle(&self) -> Entity<LogState> {
        self.state.clone()
    }

    /// Track the generator the driver scheduled for this page, so that
    /// leaving the page cancels it.
    pub fn adopt_task(&mut self, handle: TaskHandle) {
        self.tasks.track(handle);
    }

    /// React to one key in typing mode: escape and enter leave typing,
    /// backspace shortens the filter, characters extend it; never an
    /// action.
    fn on_typing_key(&mut self, code: KeyCode) {
        match code {
            KeyCode::Esc | KeyCode::Enter => {
                match self.state.read() {
                    Ok(mut s) => {
                        s.set_typing(false);
                        let _ = self.state.update(s);
                    },
                    Err(_) => (),
                }
            },
            KeyCode::Backspace => {
                match self.state.read() {
                    Ok(mut s) => {
                        s.pop_filter_char();
                        let _ = self.state.update(s);
                    },
                    Err(_) => (),
                }
            },
            KeyCode::Char(c) => {
                match self.state.read() {
                    Ok(mut s) => {
                        s.push_filter_char(c);
                        let _ = self.state.update(s);
                    },
                    Err(_) => (),
                }
            },
            _ => (),
        }
    }

    /// React to one key in navigation mode, as [`log_nav_action`] states;
    /// the search, pause, auto-scroll, clear and selection keys adjust the
    /// state cell on the way.
    fn on_nav_key(&mut self, code: KeyCode) -> (r: Option<Action>)
        ensures
            log_nav_action(code, r),
    {
        match code {
            KeyCode::Char(c) => {
                if c == 'q' {
                    Some(Action::Quit)
                } else if c == 'm' {
                    Some(Action::Navigate(String::from_str("menu")))
                } else if c == '/' {
                    match self.state.read() {
                        Ok(mut s) => {
                            s.start_search();
                            let _ = self.state.update(s);
                        },
                        Err(_) => (),
                    }
                    None
                } else if c == ' ' {
                    match self.state.read() {
                        Ok(mut s) => {
                            s.toggle_pause();
                            let _ = self.state.update(s);
                        },
                        Err(_) => (),
                    }
                    None
                } else if c == 'a' {
                    match self.state.read() {
                        Ok(mut s) => {
                            s.toggle_auto_scroll();
                            let _ = self.state.update(s);
                        },
                        Err(_) => (),
                    }
                    None
                } else if c == 'c' {
                    match self.state.read() {
                        Ok(mut s) => {
                            s.clear();
                            let _ = self.state.update(s);
                        },
                        Err(_) => (),
                    }
                    None
                } else if c == 'k' {
                    match self.state.read() {
                        Ok(mut s) => {
                            s.select_up();
                            let _ = self.state.update(s);
                        },
                        Err(_) => (),
                    }
                    None
                } else if c == 'j' {
                    match self.state.read() {
                        Ok(mut s) => {
                            s.select_down();
                            let _ = self.state.update(s);
                        },
                        Err(_) => (),
                    }
                    None
                } else {
                    None
                }
            },
            KeyCode::Up => {
                match self.state.read() {
                    Ok(mut s) => {
                        s.select_up();
                        let _ = self.state.update(s);
                    },
                    Err(_) => (),
                }
                None
            },
            KeyCode::Down => {
                match self.state.read() {
                    Ok(mut s) => {
                        s.select_down();
                        let _ = self.state.update(s);
                    },
                    Err(_) => (),
                }
                None
            },
            _ => None,
        }
    }
}

impl Default for LogPage {
    /// A log page over a fresh state cell, tracking nothing yet.
    fn default() -> (r: LogPage)
        ensures
            r.tracked_count() == 0,
    {
        LogPage { state: Entity::new(LogState::default()), tasks: TaskTracker::new() }
    }
}

impl Component for LogPage {
    /// Leaving the page cancels its background generator.
    fn on_exit(&mut self, _cx: &mut Context<Self>) {
        self.tasks.abort_all();
    }

    /// Paint a summary — totals and the stream's mode — below whatever the
    /// surface already holds.
    fn render(&mut self, surface: &mut Surface, _cx: &mut Context<Self>)
        ensures
            final(surface).width == old(surface).width,
            final(surface).height == old(surface).height,
            final(surface).lines@.len() > old(surface).lines@.len(),
            forall|j: int|
                0 <= j < old(surface).lines@.len() ==> final(surface).lines@[j] == old(
                    surface,
                ).lines@[j],
    {
        match self.state.read() {
            Ok(s) => {
                let mut total = String::from_str("total: ");
                total.append(dec_string(s.logs.len() as u64).as_str());
                surface.push_line(total);
                let mut shown = String::from_str("shown: ");
                shown.append(dec_string(s.filtered_indices.len() as u64).as_str());
                surface.push_line(shown);
                surface.push_line(
                    String::from_str(
                        if s.paused {
                            "PAUSED"
                        } else {
                            "STREAMING"
                        },
                    ),
                );
            },
            Err(_) => {
                surface.push_line(String::from_str("state unavailable"));
            },
        }
    }

    /// In typing mode every key adjusts the filter and yields nothing; in
    /// navigation mode keys act as [`log_nav_action`] states. So whatever
    /// the mode, a returned action can only be quit from the quit key or
    /// navigation to the menu from the menu key; any other event does
    /// nothing.
    fn handle_event(&mut self, event: Event, _cx: &mut EventContext<Self>) -> (r: Option<Action>)
        ensures
            match event {
                Event::Key(k) => r is None || (k.code == KeyCode::Char('q') && r == Some(
                    Action::Quit,
                )) || (k.code == KeyCode::Char('m') && (r matches Some(Action::Navigate(s)) && s@
                    == "menu"@)),
                _ => r is None,
            },
    {
        let typing = match self.state.read() {
            Ok(s) => s.is_typing,
            Err(_) => false,
        };
        match event {
            Event::Key(key) => {
                if typing {
                    self.on_typing_key(key.code);
                    None
                } else {
                    self.on_nav_key(key.code)
                }
            },
            _ => None,
        }
    }
}

} // verus!
