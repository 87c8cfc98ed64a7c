//! Application state models kept in shared state cells.

use vstd::prelude::*;

verus! {

/// Theme configuration for the application.
#[derive(Clone, Copy, Debug, PartialEq, Eq, Structural)]
pub enum Theme {
    Cyan,
    Green,
    Magenta,
    Yellow,
}

impl Theme {
    /// The next theme in the fixed cycle Cyan, Green, Magenta, Yellow.
    pub fn next(&self) -> (r: Theme)
        ensures
            r == match *self {
                Theme::Cyan => Theme::Green,
                Theme::Green => Theme::Magenta,
                Theme::Magenta => Theme::Yellow,
                Theme::Yellow => Theme::Cyan,
            },
    {
        match self {
            Theme::Cyan => Theme::Green,
            Theme::Green => Theme::Magenta,
            Theme::Magenta => Theme::Yellow,
            Theme::Yellow => Theme::Cyan,
        }
    }

    /// The theme's display name.
    pub fn name(&self) -> (r: &'static str)
        ensures
            match *self {
                Theme::Cyan => r@ == "Cyan"@,
                Theme::Green => r@ == "Green"@,
                Theme::Magenta => r@ == "Magenta"@,
                Theme::Yellow => r@ == "Yellow"@,
            },
    {
        match self {
            Theme::Cyan => "Cyan",
            Theme::Green => "Green",
            Theme::Magenta => "Magenta",
            Theme::Yellow => "Yellow",
        }
    }
}

impl Default for Theme {
    /// The cycle starts at Cyan.
    fn default() -> (r: Theme)
        ensures
            r == Theme::Cyan,
    {
        Theme::Cyan
    }
}

/// Global application state shared across all pages. Changes to a cell
/// holding it notify every subscribed component.
#[derive(Clone)]
pub struct AppState {
    pub counter: i32,
    pub history: Vec<i64>,
    pub min_value: i32,
    pub max_value: i32,
    pub step: i32,
    pub theme: Theme,
}

impl AppState {
    /// Move the counter by `delta`: by exactly that step when it fits the
    /// counter's type, and not at all at its bounds. Nothing else changes.
    pub fn step_counter(&mut self, delta: i32)
        ensures
            final(self).counter == if i32::MIN <= old(self).counter + delta <= i32::MAX {
                old(self).counter + delta
            } else {
                old(self).counter as int
            },
            final(self).history@ == old(self).history@,
            final(self).min_value == old(self).min_value,
            final(self).max_value == old(self).max_value,
            final(self).step == old(self).step,
            final(self).theme == old(self).theme,
    {
        match self.counter.checked_add(delta) {
            Some(moved) => {
                self.counter = moved;
            },
            None => (),
        }
    }
}

impl Default for AppState {
    /// Counter at zero, fifty zeroed history slots, unit step, default
    /// theme.
    fn default() -> (r: AppState)
        ensures
            r.counter == 0,
            r.history@.len() == 50,
            forall|i: int| 0 <= i < r.history@.len() ==> r.history@[i] == 0,
            r.min_value == 0,
            r.max_value == 0,
            r.step == 1,
            r.theme == Theme::Cyan,
    {
        let mut history: Vec<i64> = Vec::new();
        while history.len() < 50
            invariant
                history@.len() <= 50,
                forall|i: int| 0 <= i < history@.len() ==> history@[i] == 0,
            decreases 50 - history.len(),
        {
            history.push(0);
        }
        AppState {
            counter: 0,
            history,
            min_value: 0,
            max_value: 0,
            step: 1,
            theme: Theme::Cyan,
        }
    }
}

/// Local state for one counter page; each page has its own independent
/// cell of it.
#[derive(Clone)]
pub struct LocalState {
    pub layout_horizontal: bool,
    pub logs: Vec<String>,
    pub progress: u16,
    pub is_working: bool,
    pub current_time: String,
    pub system_load: Vec<u64>,
    pub pulse_inc: u8,
    pub pulse_dec: u8,
}

/// What one background-job step does to the local state: idle state is
/// untouched; while working, progress moves ten points towards one hundred,
/// and reaching one hundred ends the job.
pub open spec fn progress_stepped(pre: LocalState, post: LocalState) -> bool {
    &&& !pre.is_working ==> post == pre
    &&& pre.is_working ==> {
        &&& post.progress == if pre.progress <= 90 {
            pre.progress + 10
        } else {
            pre.progress as int
        }
        &&& post.is_working == (post.progress < 100)
        &&& post.layout_horizontal == pre.layout_horizontal
    }
}

impl LocalState {
    /// Append a log line, keeping only the ten most recent.
    pub fn push_log(&mut self, msg: String)
        ensures
            ({
                let grown = old(self).logs@.push(msg);
                final(self).logs@ == if grown.len() > 10 {
                    grown.subrange(1, grown.len() as int)
                } else {
                    grown
                }
            }),
            final(self).layout_horizontal == old(self).layout_horizontal,
            final(self).progress == old(self).progress,
            final(self).is_working == old(self).is_working,
    {
        self.logs.push(msg);
        if self.logs.len() > 10 {
            self.logs.remove(0);
            proof {
                let grown = old(self).logs@.push(msg);
                assert(self.logs@ =~= grown.subrange(1, grown.len() as int));
            }
        }
    }

    /// One step of the page's background job, as [`progress_stepped`]
    /// states: while working, progress moves ten points towards one hundred;
    /// reaching it ends the job and logs its completion. Idle state is
    /// untouched.
    pub fn advance_progress(&mut self)
        ensures
            progress_stepped(*old(self), *final(self)),
    {
        if self.is_working {
            if self.progress <= 90 {
                self.progress = self.progress + 10;
            }
            if self.progress >= 100 {
                self.is_working = false;
                self.push_log(String::from_str("Task Complete"));
            }
        }
    }
}

impl Default for LocalState {
    /// One greeting log line, idle progress, a placeholder clock, twenty
    /// zeroed load slots.
    fn default() -> (r: LocalState)
        ensures
            r.logs@.len() == 1,
            r.logs@[0]@ == "System initialized"@,
            !r.layout_horizontal,
            r.progress == 0,
            !r.is_working,
            r.current_time@ == "--:--:--"@,
            r.system_load@.len() == 20,
            forall|i: int| 0 <= i < r.system_load@.len() ==> r.system_load@[i] == 0,
            r.pulse_inc == 0,
            r.pulse_dec == 0,
    {
        let mut logs: Vec<String> = Vec::new();
        logs.push(String::from_str("System initialized"));
        let mut system_load: Vec<u64> = Vec::new();
        while system_load.len() < 20
            invariant
                system_load@.len() <= 20,
                forall|i: int| 0 <= i < system_load@.len() ==> system_load@[i] == 0,
            decreases 20 - system_load.len(),
        {
            system_load.push(0);
        }
        LocalState {
            layout_horizontal: false,
            logs,
            progress: 0,
            is_working: false,
            current_time: String::from_str("--:--:--"),
            system_load,
            pulse_inc: 0,
            pulse_dec: 0,
        }
    }
}

} // verus!
