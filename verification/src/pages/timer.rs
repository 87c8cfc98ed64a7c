//! A stopwatch page: elapsed time, lap times, and a ticking background
//! task scoped to the page's lifetime.

use vstd::prelude::*;
use crate::cell::Entity;
use crate::component::Component;
use crate::component::Context;
use crate::component::EventContext;
use crate::component::Surface;
use crate::event::Action;
use crate::event::Event;
use crate::event::KeyCode;
use crate::text::dec_string;
use crate::text::pad2;
use crate::text::padded2;
use crate::tracker::TaskHandle;
use crate::tracker::TaskTracker;

verus! {

/// The elapsed milliseconds, in the form minutes, seconds and centiseconds,
/// each padded to two places.
pub open spec fn time_text(ms: nat) -> Seq<char> {
    padded2(ms / 60000) + seq![':'] + padded2((ms % 60000) / 1000) + seq!['.'] + padded2(
        (ms % 1000) / 10,
    )
}

/// Format elapsed milliseconds as minutes, seconds and centiseconds.
pub fn format_time(ms: u64) -> (r: String)
    ensures
        r@ == time_text(ms as nat),
{
    let mut s = pad2(ms / 60000);
    s.append(":");
    assert((ms % 60000) / 1000 < 60) by (nonlinear_arith);
    s.append(pad2((ms % 60000) / 1000).as_str());
    s.append(".");
    assert((ms % 1000) / 10 < 100) by (nonlinear_arith);
    s.append(pad2((ms % 1000) / 10).as_str());
    proof {
        reveal_strlit(":");
        reveal_strlit(".");
        assert(s@ =~= time_text(ms as nat));
    }
    s
}

/// The action one key on the stopwatch page yields: the quit key quits,
/// the menu key and escape navigate to the menu, and every other key —
/// start/stop, lap and reset included, which only adjust the state cell —
/// yields none.
pub open spec fn timer_key_action(code: KeyCode, r: Option<Action>) -> bool {
    &&& code == KeyCode::Char('q') ==> r == Some(Action::Quit)
    &&& code == KeyCode::Char('m') || code == KeyCode::Esc ==> (r matches Some(Action::Navigate(s))
        && s@ == "menu"@)
    &&& !(code == KeyCode::Char('q') || code == KeyCode::Char('m') || code == KeyCode::Esc) ==> r
        is None
}

/// The stopwatch's state: elapsed time, whether it is running, and the
/// recorded laps.
#[derive(Clone)]
pub struct TimerState {
    pub elapsed_ms: u64,
    pub running: bool,
    pub laps: Vec<u64>,
}

impl TimerState {
    /// One scheduling tick: a running stopwatch gains ten milliseconds; a
    /// stopped one is unchanged. Saturates at the counter's end.
    pub fn tick(&mut self)
        ensures
            final(self).elapsed_ms == if old(self).running && old(self).elapsed_ms <= u64::MAX
                - 10 {
                old(self).elapsed_ms + 10
            } else {
                old(self).elapsed_ms as int
            },
            final(self).running == old(self).running,
            final(self).laps@ == old(self).laps@,
    {
        if self.running && self.elapsed_ms <= u64::MAX - 10 {
            self.elapsed_ms = self.elapsed_ms + 10;
        }
    }

    /// Start a stopped stopwatch, stop a running one.
    pub fn toggle(&mut self)
        ensures
            final(self).running == !old(self).running,
            final(self).elapsed_ms == old(self).elapsed_ms,
            final(self).laps@ == old(self).laps@,
    {
        self.running = !self.running;
    }

    /// Record a lap at the current elapsed time — but only once the
    /// stopwatch has run at all.
    pub fn lap(&mut self)
        ensures
            final(self).laps@ == if old(self).running || old(self).elapsed_ms > 0 {
                old(self).laps@.push(old(self).elapsed_ms)
            } else {
                old(self).laps@
            },
            final(self).elapsed_ms == old(self).elapsed_ms,
            final(self).running == old(self).running,
    {
        if self.running || self.elapsed_ms > 0 {
            self.laps.push(self.elapsed_ms);
        }
    }

    /// Back to zero: stopped, no elapsed time, no laps.
    pub fn reset(&mut self)
        ensures
            final(self).elapsed_ms == 0,
            !final(self).running,
            final(self).laps@ == Seq::<u64>::empty(),
    {
        self.elapsed_ms = 0;
        self.running = false;
        self.laps.clear();
    }
}

impl Default for TimerState {
    /// Stopped at zero with no laps.
    fn default() -> (r: TimerState)
        ensures
            r.elapsed_ms == 0,
            !r.running,
            r.laps@ == Seq::<u64>::empty(),
    {
        TimerState { elapsed_ms: 0, running: false, laps: Vec::new() }
    }
}

/// The stopwatch page: its state cell and the tracker holding its
/// background ticker.
pub struct TimerPage {
    state: Entity<TimerState>,
    tasks: TaskTracker,
}

impl TimerPage {
    /// How many background tasks the page tracks.
    pub closed spec fn tracked_count(&self) -> nat {
        self.tasks.tracked_count()
    }

    /// A strong handle to the page's state cell, for the driver that runs
    /// the ticker.
    pub fn state_handle(&self) -> Entity<TimerState> {
        self.state.clone()
    }

    /// Track the ticker the driver scheduled for this page, so that leaving
    /// the page cancels it.
    pub fn adopt_task(&mut self, handle: TaskHandle) {
        self.tasks.track(handle);
    }

    /// The decision the background ticker makes each scheduling tick:
    /// advance the stopwatch when it is running. A poisoned cell stops
    /// nothing but this page's clock.
    pub fn tick(&self) {
        match self.state.read() {
            Ok(mut s) => {
                s.tick();
                let _ = self.state.update(s);
            },
            Err(_) => (),
        }
    }

    /// React to one key, as [`timer_key_action`] states; space, the lap key
    /// and the reset key adjust the stopwatch's cell on the way.
    pub fn on_key(&mut self, code: KeyCode) -> (r: Option<Action>)
        ensures
            timer_key_action(code, r),
    {
        match code {
            KeyCode::Char(c) => {
                if c == 'q' {
                    Some(Action::Quit)
                } else if c == 'm' {
                    Some(Action::Navigate(String::from_str("menu")))
                } else if c == ' ' {
                    match self.state.read() {
                        Ok(mut s) => {
                            s.toggle();
                            let _ = self.state.update(s);
                        },
                        Err(_) => (),
                    }
                    None
                } else if c == 'l' {
                    match self.state.read() {
                        Ok(mut s) => {
                            s.lap();
                            let _ = self.state.update(s);
                        },
                        Err(_) => (),
                    }
                    None
                } else if c == 'r' {
                    match self.state.read() {
                        Ok(mut s) => {
                            s.reset();
                            let _ = self.state.update(s);
                        },
                        Err(_) => (),
                    }
                    None
                } else {
                    None
                }
            },
            KeyCode::Esc => Some(Action::Navigate(String::from_str("menu"))),
            _ => None,
        }
    }
}

impl Default for TimerPage {
    /// A stopwatch page over a fresh state cell, tracking nothing yet.
    fn default() -> (r: TimerPage)
        ensures
            r.tracked_count() == 0,
    {
        TimerPage { state: Entity::new(TimerState::default()), tasks: TaskTracker::new() }
    }
}

impl Component for TimerPage {
    /// Leaving the page cancels its background ticker, so no task keeps
    /// driving a torn-down view's state.
    fn on_exit(&mut self, _cx: &mut Context<Self>) {
        self.tasks.abort_all();
    }

    /// Paint the elapsed time, the run state, and the lap count, below
    /// whatever the surface already holds.
    fn render(&mut self, surface: &mut Surface, _cx: &mut Context<Self>)
        ensures
            final(surface).width == old(surface).width,
            final(surface).height == old(surface).height,
            final(surface).lines@.len() > old(surface).lines@.len(),
            forall|j: int|
                0 <= j < old(surface).lines@.len() ==> final(surface).lines@[j] == old(
                    surface,
                ).lines@[j],
    {
        match self.state.read() {
            Ok(s) => {
                surface.push_line(format_time(s.elapsed_ms));
                surface.push_line(
                    String::from_str(
                        if s.running {
                            "RUNNING"
                        } else {
                            "STOPPED"
                        },
                    ),
                );
                let mut laps_line = String::from_str("laps: ");
                laps_line.append(dec_string(s.laps.len() as u64).as_str());
                surface.push_line(laps_line);
            },
            Err(_) => {
                surface.push_line(String::from_str("state unavailable"));
            },
        }
    }

    /// Delegates every key to [`TimerPage::on_key`]; any other event does
    /// nothing.
    fn handle_event(&mut self, event: Event, _cx: &mut EventContext<Self>) -> (r: Option<Action>)
        ensures
            match event {
                Event::Key(k) => timer_key_action(k.code, r),
                _ => r is None,
            },
    {
        match event {
            Event::Key(key) => self.on_key(key.code),
            _ => None,
        }
    }
}

} // verus!
