//! The decision core of the event loop.
//!
//! The coordinating loop waits on two sources with strict priority: buffered
//! input events first, then a coalesced redraw flag. Input is dispatched in
//! arrival order, each event fully processed before the next; a frame is
//! produced only when no input is pending, and at most one frame per
//! wakeup, no matter how many redraw requests accumulated. After every
//! dispatched event one redraw is requested unconditionally, so the screen
//! always reflects the latest input outcome; a `Quit` action moves the loop
//! to its draining phase, where the shutdown hook runs once before the loop
//! stops.
//!
//! The blocking OS input poll and the drawing itself live outside this
//! core, which only decides: the driver feeds events in with
//! [`Scheduler::offer_input`], asks [`Scheduler::next_work`] what to do,
//! performs it, and reports dispatch outcomes back.

use vstd::prelude::*;
use crate::event::Action;
use crate::event::Event;
use crate::event::admit_input;
use crate::event::admitted;

verus! {

/// The phase of the coordinating loop.
#[derive(Clone, Copy, Debug, PartialEq, Eq, Structural)]
pub enum LoopPhase {
    /// Dispatching input and producing frames.
    Running,
    /// Quit was requested; the shutdown hook is executing.
    Draining,
    /// The loop has stopped.
    Stopped,
}

/// One unit of work selected by the loop.
#[derive(Clone, Debug, PartialEq, Eq)]
pub enum Work {
    /// Dispatch this input event to the active component.
    Input(Event),
    /// Produce one frame.
    Draw,
    /// Nothing is pending: wait for new input or a redraw request.
    Idle,
}

/// A frame counter advanced by one, saturating at its maximum.
pub open spec fn counted_frame(frames: u64) -> u64 {
    if frames == u64::MAX {
        frames
    } else {
        (frames + 1) as u64
    }
}

/// The work a running loop selects from its buffered inputs and redraw
/// flag: the oldest input if any is pending, else one frame if a redraw is
/// pending, else nothing.
pub open spec fn selected_work(inputs: Seq<Event>, redraw: bool) -> Work {
    if inputs.len() > 0 {
        Work::Input(inputs[0])
    } else if redraw {
        Work::Draw
    } else {
        Work::Idle
    }
}

/// The buffered inputs and redraw flag after one selection.
pub open spec fn after_selection(inputs: Seq<Event>, redraw: bool) -> (Seq<Event>, bool) {
    if inputs.len() > 0 {
        (inputs.drop_first(), redraw)
    } else {
        (inputs, false)
    }
}

/// Every work item a running loop yields from its current buffer, in
/// order, selecting repeatedly until it would be idle.
pub open spec fn work_sequence(inputs: Seq<Event>, redraw: bool) -> Seq<Work>
    decreases inputs.len(), (if redraw {
        1int
    } else {
        0int
    }),
{
    if inputs.len() > 0 {
        seq![Work::Input(inputs[0])] + work_sequence(inputs.drop_first(), redraw)
    } else if redraw {
        seq![Work::Draw] + work_sequence(inputs, false)
    } else {
        Seq::empty()
    }
}

/// The same, stated directly: all buffered inputs in arrival order,
/// followed by at most one frame.
pub open spec fn planned_work(inputs: Seq<Event>, redraw: bool) -> Seq<Work> {
    inputs.map_values(|e: Event| Work::Input(e)) + if redraw {
        seq![Work::Draw]
    } else {
        Seq::empty()
    }
}

/// Buffered input drains before any frame: from a buffer of input events
/// and a pending redraw flag, the loop dispatches every event, in arrival
/// order, before producing a frame, and produces exactly one frame when a
/// redraw was pending — however many redraw signals were coalesced into it.
pub proof fn lemma_inputs_dispatch_before_one_frame(inputs: Seq<Event>, redraw: bool)
    ensures
        work_sequence(inputs, redraw) == planned_work(inputs, redraw),
    decreases inputs.len(),
{
    if inputs.len() == 0 {
        assert(work_sequence(inputs, false) =~= Seq::<Work>::empty());
        assert(inputs.map_values(|e: Event| Work::Input(e)) =~= Seq::<Work>::empty());
        assert(work_sequence(inputs, redraw) =~= planned_work(inputs, redraw));
    } else {
        lemma_inputs_dispatch_before_one_frame(inputs.drop_first(), redraw);
        assert(work_sequence(inputs, redraw) =~= planned_work(inputs, redraw));
    }
}

/// The decision core of the event loop: its phase, the buffered input
/// events in arrival order, the coalesced redraw flag, and how many frames
/// it has produced.
pub struct Scheduler {
    phase: LoopPhase,
    inputs: Vec<Event>,
    redraw: bool,
    frames: u64,
}

impl Scheduler {
    /// The loop's phase.
    pub closed spec fn phase_spec(&self) -> LoopPhase {
        self.phase
    }

    /// The buffered input events, in arrival order.
    pub closed spec fn inputs_spec(&self) -> Seq<Event> {
        self.inputs@
    }

    /// Whether a redraw is pending. A single flag: any number of requests
    /// between two wakeups coalesce into one pending frame.
    pub closed spec fn redraw_spec(&self) -> bool {
        self.redraw
    }

    /// How many frames have been produced.
    pub closed spec fn frames_spec(&self) -> u64 {
        self.frames
    }

    /// A fresh loop: running, no buffered input, nothing to draw yet.
    pub fn new() -> (s: Scheduler)
        ensures
            s.phase_spec() == LoopPhase::Running,
            s.inputs_spec() == Seq::<Event>::empty(),
            !s.redraw_spec(),
            s.frames_spec() == 0,
    {
        Scheduler { phase: LoopPhase::Running, inputs: Vec::new(), redraw: false, frames: 0 }
    }

    /// The loop's phase.
    pub fn phase(&self) -> (r: LoopPhase)
        ensures
            r == self.phase_spec(),
    {
        self.phase
    }

    /// How many input events are buffered.
    pub fn pending_inputs(&self) -> (r: usize)
        ensures
            r == self.inputs_spec().len(),
    {
        self.inputs.len()
    }

    /// Whether a redraw is pending.
    pub fn redraw_pending(&self) -> (r: bool)
        ensures
            r == self.redraw_spec(),
    {
        self.redraw
    }

    /// How many frames have been produced.
    pub fn frames_produced(&self) -> (r: u64)
        ensures
            r == self.frames_spec(),
    {
        self.frames
    }

    /// Accept one event from the OS boundary: it is buffered in arrival
    /// order if the boundary filter admits it (key input only as presses)
    /// and dropped otherwise.
    pub fn offer_input(&mut self, e: Event)
        ensures
            final(self).inputs_spec() == if admitted(e) {
                old(self).inputs_spec().push(e)
            } else {
                old(self).inputs_spec()
            },
            final(self).phase_spec() == old(self).phase_spec(),
            final(self).redraw_spec() == old(self).redraw_spec(),
            final(self).frames_spec() == old(self).frames_spec(),
    {
        match admit_input(e) {
            Some(event) => self.inputs.push(event),
            None => (),
        }
    }

    /// Request one redraw. Requests coalesce: however many arrive before
    /// the next wakeup, at most one frame is produced for them.
    pub fn request_redraw(&mut self)
        ensures
            final(self).redraw_spec(),
            final(self).phase_spec() == old(self).phase_spec(),
            final(self).inputs_spec() == old(self).inputs_spec(),
            final(self).frames_spec() == old(self).frames_spec(),
    {
        self.redraw = true;
    }

    /// Select the next unit of work, with strict priority: buffered input
    /// first — user-perceived input latency is never delayed behind a
    /// pending frame — then at most one frame for all pending redraw
    /// requests. A loop that is not running selects nothing.
    pub fn next_work(&mut self) -> (w: Work)
        ensures
            old(self).phase_spec() == LoopPhase::Running ==> {
                &&& w == selected_work(old(self).inputs_spec(), old(self).redraw_spec())
                &&& (final(self).inputs_spec(), final(self).redraw_spec()) == after_selection(
                    old(self).inputs_spec(),
                    old(self).redraw_spec(),
                )
                &&& final(self).frames_spec() == if w == Work::Draw {
                    counted_frame(old(self).frames_spec())
                } else {
                    old(self).frames_spec()
                }
            },
            old(self).phase_spec() != LoopPhase::Running ==> {
                &&& w == Work::Idle
                &&& final(self).inputs_spec() == old(self).inputs_spec()
                &&& final(self).redraw_spec() == old(self).redraw_spec()
                &&& final(self).frames_spec() == old(self).frames_spec()
            },
            final(self).phase_spec() == old(self).phase_spec(),
    {
        if self.phase != LoopPhase::Running {
            Work::Idle
        } else if self.inputs.len() > 0 {
            let e = self.inputs.remove(0);
            Work::Input(e)
        } else if self.redraw {
            self.redraw = false;
            if self.frames < u64::MAX {
                self.frames = self.frames + 1;
            }
            Work::Draw
        } else {
            Work::Idle
        }
    }

    /// Record the outcome of dispatching one input event: one redraw is
    /// requested unconditionally, so the screen reflects the latest input
    /// outcome even without an explicit state mutation, and a `Quit` action
    /// moves the loop into its draining phase.
    pub fn after_dispatch(&mut self, action: &Option<Action>)
        ensures
            final(self).redraw_spec(),
            final(self).phase_spec() == if action matches Some(Action::Quit) {
                LoopPhase::Draining
            } else {
                old(self).phase_spec()
            },
            final(self).inputs_spec() == old(self).inputs_spec(),
            final(self).frames_spec() == old(self).frames_spec(),
    {
        self.redraw = true;
        match action {
            Some(Action::Quit) => {
                self.phase = LoopPhase::Draining;
            },
            _ => (),
        }
    }

    /// Record that the shutdown hook has run, once, while draining: the
    /// loop stops.
    pub fn finish_shutdown(&mut self)
        requires
            old(self).phase_spec() == LoopPhase::Draining,
        ensures
            final(self).phase_spec() == LoopPhase::Stopped,
            final(self).inputs_spec() == old(self).inputs_spec(),
            final(self).redraw_spec() == old(self).redraw_spec(),
            final(self).frames_spec() == old(self).frames_spec(),
    {
        self.phase = LoopPhase::Stopped;
    }
}

} // verus!
