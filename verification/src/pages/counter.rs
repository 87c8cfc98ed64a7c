//! A counter page: shares one application-state cell with its sibling page
//! and keeps an independent local-state cell of its own.

use vstd::prelude::*;
use std::sync::Mutex;
use crate::cell::Entity;
use crate::cell::Versioned;
use crate::cell::next_version;
use crate::errors::Error;
use crate::component::Component;
use crate::component::Context;
use crate::component::EventContext;
use crate::component::Surface;
use crate::event::Action;
use crate::event::Event;
use crate::event::KeyCode;
use crate::model::AppState;
use crate::model::LocalState;
use crate::model::progress_stepped;
use crate::text::dec_string;
use crate::tracker::TaskHandle;
use crate::tracker::TaskTracker;

verus! {

/// The action one key on a counter page yields: the menu key navigates to
/// the menu, escape goes back, the quit key quits, and every other key —
/// the layout, work, clear and counter keys included, which only adjust the
/// page's cells — yields none.
pub open spec fn counter_key_action(code: KeyCode, r: Option<Action>) -> bool {
    &&& code == KeyCode::Char('m') ==> (r matches Some(Action::Navigate(s)) && s@ == "menu"@)
    &&& code == KeyCode::Esc ==> r == Some(Action::Back)
    &&& code == KeyCode::Char('q') ==> r == Some(Action::Quit)
    &&& !(code == KeyCode::Char('m') || code == KeyCode::Esc || code == KeyCode::Char('q'))
        ==> r is None
}

impl Versioned<LocalState> {
    /// One committed background-job step on the guarded local state: the
    /// state advances as [`progress_stepped`] says, and exactly one change
    /// notification is published when it was working — none when it was
    /// idle and nothing moved. Returns whether it was working.
    pub fn commit_progress_step(&mut self) -> (moved: bool)
        ensures
            moved == old(self).value.is_working,
            progress_stepped(old(self).value, final(self).value),
            final(self).version == if moved {
                next_version(old(self).version) as int
            } else {
                old(self).version as int
            },
    {
        let moved = self.value.is_working;
        self.value.advance_progress();
        if moved {
            self.version = if self.version == u64::MAX {
                0
            } else {
                self.version + 1
            };
        }
        moved
    }
}

/// Relies on std::sync::Mutex::lock: commits one background-job step to the
/// guarded local state as a single critical section, so no other committed
/// update can interleave inside the step. The step and its notification are
/// the verified `commit_progress_step`; the only failure is a poisoned
/// lock.
#[verifier::external_body]
fn lock_progress_step(m: &Mutex<Versioned<LocalState>>) -> (r: Result<bool, Error>)
    ensures
        r matches Err(e) ==> e == Error::LockPoisoned,
{
    match m.lock() {
        Ok(mut guard) => Ok(guard.commit_progress_step()),
        Err(_) => Err(Error::LockPoisoned),
    }
}

/// One background-job step on a counter page's local cell, committed as a
/// single critical section; returns whether the job was working, so a
/// driver knows to request a redraw. Fails only on a poisoned lock.
pub fn progress_step_on(local: &Entity<LocalState>) -> (r: Result<bool, Error>)
    ensures
        r matches Err(e) ==> e == Error::LockPoisoned,
{
    lock_progress_step(local.storage())
}

/// A counter page. Two instances share the application-state cell, so a
/// counter change on one page is seen by the other; each keeps its own
/// local-state cell for layout, logs and progress.
pub struct CounterPage {
    title: &'static str,
    state: Entity<AppState>,
    local: Entity<LocalState>,
    tasks: TaskTracker,
}

impl CounterPage {
    /// A page with the given title over the given cells.
    pub fn new(title: &'static str, state: Entity<AppState>, local: Entity<LocalState>) -> (r:
        CounterPage)
        ensures
            r.title_spec()@ == title@,
    {
        CounterPage { title, state, local, tasks: TaskTracker::new() }
    }

    /// The page's title.
    pub closed spec fn title_spec(&self) -> &'static str {
        self.title
    }

    /// A strong handle to the page's local-state cell, for the driver that
    /// runs its background work.
    pub fn local_handle(&self) -> Entity<LocalState> {
        self.local.clone()
    }

    /// A strong handle to the shared application-state cell.
    pub fn state_handle(&self) -> Entity<AppState> {
        self.state.clone()
    }

    /// Track background work the driver scheduled for this page, so that
    /// leaving the page cancels it.
    pub fn adopt_task(&mut self, handle: TaskHandle) {
        self.tasks.track(handle);
    }

    /// Append one line to this page's event log, keeping the ten most
    /// recent. A poisoned local cell loses the line, nothing more.
    pub fn log(&self, msg: String) {
        match self.local.read() {
            Ok(mut s) => {
                s.push_log(msg);
                let _ = self.local.update(s);
            },
            Err(_) => (),
        }
    }

    /// Move the shared counter by `delta` through the cell; the step itself
    /// is the contracted `AppState::step_counter`.
    fn move_counter(&self, delta: i32) {
        match self.state.read() {
            Ok(mut s) => {
                s.step_counter(delta);
                let _ = self.state.update(s);
            },
            Err(_) => (),
        }
    }

    /// Begin the demonstration background job: mark the local state as
    /// working, with progress reset. The driver advances it from there.
    pub fn begin_work(&self) {
        match self.local.read() {
            Ok(mut s) => {
                s.is_working = true;
                s.progress = 0;
                let _ = self.local.update(s);
            },
            Err(_) => (),
        }
    }

    /// The decision the background job makes each of its steps: advance the
    /// local progress while the page is working, committed as a single
    /// critical section so that no key handler's update can interleave
    /// inside the step.
    pub fn progress_step(&self) {
        let _ = lock_progress_step(self.local.storage());
    }

    /// React to one key, as [`counter_key_action`] states; the layout,
    /// work, clear and counter keys adjust this page's cells on the way.
    pub fn on_key(&mut self, code: KeyCode) -> (r: Option<Action>)
        ensures
            counter_key_action(code, r),
    {
        match code {
            KeyCode::Char(c) => {
                if c == 'l' {
                    match self.local.read() {
                        Ok(mut s) => {
                            s.layout_horizontal = !s.layout_horizontal;
                            let _ = self.local.update(s);
                        },
                        Err(_) => (),
                    }
                    self.log(String::from_str("Layout Toggled"));
                    None
                } else if c == 'w' {
                    let working = match self.local.read() {
                        Ok(s) => s.is_working,
                        Err(_) => true,
                    };
                    if !working {
                        self.log(String::from_str("Async Task Started"));
                        self.begin_work();
                    }
                    None
                } else if c == 'c' {
                    match self.local.read() {
                        Ok(mut s) => {
                            s.logs = Vec::new();
                            let _ = self.local.update(s);
                        },
                        Err(_) => (),
                    }
                    None
                } else if c == 'j' {
                    self.move_counter(1);
                    self.log(String::from_str("Counter ++"));
                    None
                } else if c == 'k' {
                    self.move_counter(-1);
                    self.log(String::from_str("Counter --"));
                    None
                } else if c == 'm' {
                    Some(Action::Navigate(String::from_str("menu")))
                } else if c == 'q' {
                    Some(Action::Quit)
                } else {
                    None
                }
            },
            KeyCode::Esc => Some(Action::Back),
            _ => None,
        }
    }
}

impl Component for CounterPage {
    /// Leaving the page cancels its background work.
    fn on_exit(&mut self, _cx: &mut Context<Self>) {
        self.tasks.abort_all();
    }

    /// Paint the title, the shared counter, and this page's recent log
    /// lines, below whatever the surface already holds.
    fn render(&mut self, surface: &mut Surface, _cx: &mut Context<Self>)
        ensures
            final(surface).width == old(surface).width,
            final(surface).height == old(surface).height,
            final(surface).lines@.len() > old(surface).lines@.len(),
            forall|j: int|
                0 <= j < old(surface).lines@.len() ==> final(surface).lines@[j] == old(
                    surface,
                ).lines@[j],
    {
        match self.state.read() {
            Ok(s) => {
                surface.push_line(String::from_str(self.title));
                let mut counter_line = String::from_str("Counter: ");
                if s.counter >= 0 {
                    counter_line.append(dec_string(s.counter as u64).as_str());
                } else {
                    counter_line.append("-");
                    let magnitude = (-(s.counter as i64)) as u64;
                    counter_line.append(dec_string(magnitude).as_str());
                }
                surface.push_line(counter_line);
            },
            Err(_) => {
                surface.push_line(String::from_str("state unavailable"));
            },
        }
        match self.local.read() {
            Ok(local) => {
                let mut i: usize = 0;
                while i < local.logs.len()
                    invariant
                        i <= local.logs@.len(),
                        surface.width == old(surface).width,
                        surface.height == old(surface).height,
                        surface.lines@.len() > old(surface).lines@.len(),
                        forall|j: int|
                            0 <= j < old(surface).lines@.len() ==> surface.lines@[j] == old(
                                surface,
                            ).lines@[j],
                    decreases local.logs@.len() - i,
                {
                    surface.push_line(local.logs[i].clone());
                    i = i + 1;
                }
            },
            Err(_) => (),
        }
    }

    /// Delegates every key to [`CounterPage::on_key`]; any other event does
    /// nothing.
    fn handle_event(&mut self, event: Event, _cx: &mut EventContext<Self>) -> (r: Option<Action>)
        ensures
            match event {
                Event::Key(k) => counter_key_action(k.code, r),
                _ => r is None,
            },
    {
        match event {
            Event::Key(key) => self.on_key(key.code),
            _ => None,
        }
    }
}

} // verus!
