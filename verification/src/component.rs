//! The component capability interface and its contexts.
//!
//! A [`Component`] is anything the dispatcher can drive: it is mounted once
//! when it first becomes reachable, entered and exited on every navigation
//! into and out of its view, shut down once before the process exits,
//! rendered once per produced frame, and handed one input event at a time.
//! Render and event handling run under exclusive access to the component
//! tree for the duration of that single call and must not block or suspend.
//!
//! A [`Context`] accompanies every call: it carries the application-wide
//! context and, optionally, a weak handle to the component's own cell.
//! Retargeting it to a child capability type keeps the application-wide
//! part and drops the parent's state binding.

use vstd::prelude::*;
use crate::cell::Entity;
use crate::cell::Subscriber;
use crate::cell::WeakEntity;
use crate::errors::Error;
use crate::event::Action;
use crate::event::Event;

verus! {

/// The application-wide context: creates state cells and carries the
/// redraw-request signal that the loop driver waits on.
pub struct AppContext {
    redraw: Entity<u8>,
}

impl AppContext {
    /// The identity of the redraw-request cell: cloned and retargeted
    /// contexts all feed the same signal.
    pub closed spec fn signal_id(&self) -> u64 {
        self.redraw.id_spec()
    }

    /// A fresh application context with its own redraw signal.
    pub fn new() -> AppContext {
        AppContext { redraw: Entity::new(0) }
    }

    /// Create a new state cell holding `value`. Always succeeds; the
    /// identity is drawn at random, as [`Entity::new`] explains.
    pub fn new_entity<T>(&self, value: T) -> Entity<T> {
        Entity::new(value)
    }

    /// Request a redraw. Requests coalesce on the signal's version: any
    /// number of them before the driver next polls are observed as one
    /// wakeup. A poisoned signal is ignored, as a lost redraw request is
    /// harmless: the next one repaints the same current state.
    pub fn refresh(&self) {
        let _ = self.redraw.update(0);
    }

    /// Subscribe to the redraw-request signal; the loop driver polls the
    /// subscriber and produces one frame per wakeup.
    pub fn redraw_signal(&self) -> (r: Result<Subscriber<u8>, Error>)
        ensures
            r matches Err(e) ==> e == Error::LockPoisoned,
    {
        self.redraw.subscribe()
    }
}

impl Clone for AppContext {
    /// Another handle to the same application context: it feeds the same
    /// redraw signal.
    fn clone(&self) -> (r: Self)
        ensures
            r.signal_id() == self.signal_id(),
    {
        AppContext { redraw: self.redraw.clone() }
    }
}

/// The context passed to one component's methods: the application-wide
/// context plus, optionally, a weak handle to the component's own cell.
#[verifier::reject_recursive_types(V)]
pub struct Context<V> {
    app: AppContext,
    handle: Option<WeakEntity<V>>,
}

/// The context passed to event handling; the same capability set.
pub type EventContext<V> = Context<V>;

impl<V> Context<V> {
    /// The identity of the redraw signal this context feeds.
    pub closed spec fn signal_id(&self) -> u64 {
        self.app.signal_id()
    }

    /// The weak self-handle this context was created with, if any.
    pub closed spec fn handle_spec(&self) -> Option<WeakEntity<V>> {
        self.handle
    }

    /// A context not bound to any component.
    pub fn new(app: AppContext) -> (r: Context<V>)
        ensures
            r.signal_id() == app.signal_id(),
            r.handle_spec() is None,
    {
        Context { app, handle: None }
    }

    /// A context bound to the component living in the cell behind `handle`.
    pub fn with_handle(app: AppContext, handle: WeakEntity<V>) -> (r: Context<V>)
        ensures
            r.signal_id() == app.signal_id(),
            r.handle_spec() == Some(handle),
    {
        Context { app, handle: Some(handle) }
    }

    /// The application-wide context.
    pub fn app(&self) -> &AppContext {
        &self.app
    }

    /// Subscribe to a state cell's coalesced change signal.
    pub fn subscribe<T>(&self, entity: &Entity<T>) -> (r: Result<Subscriber<T>, Error>)
        ensures
            r matches Err(e) ==> e == Error::LockPoisoned,
    {
        entity.subscribe()
    }

    /// Subscribe to a cell's changes and read its current value, in one
    /// call. The subscription is taken first, so an update committed
    /// between the two steps is not lost: it wakes the subscriber's first
    /// poll.
    pub fn watch<T: Clone>(&self, entity: &Entity<T>) -> (r: Result<(T, Subscriber<T>), Error>)
        ensures
            r matches Err(e) ==> e == Error::LockPoisoned,
    {
        let sub = entity.subscribe()?;
        let value = entity.read()?;
        Ok((value, sub))
    }

    /// Retarget this context to a child capability type: the enclosing
    /// application-wide context is preserved, and the parent's specific
    /// state binding is dropped.
    pub fn cast<U>(&self) -> (r: Context<U>)
        ensures
            r.signal_id() == self.signal_id(),
            r.handle_spec() is None,
    {
        Context { app: self.app.clone(), handle: None }
    }

    /// The identity of the component this context is bound to, or nothing
    /// if the context was not created with a handle.
    pub fn entity_id(&self) -> (r: Option<u64>)
        ensures
            match self.handle_spec() {
                Some(h) => r == Some(h.id_spec()),
                None => r is None,
            },
    {
        match &self.handle {
            Some(h) => Some(h.entity_id()),
            None => None,
        }
    }

    /// A weak handle to the component this context is bound to, or nothing
    /// if the context was not created with one.
    pub fn weak_entity(&self) -> (r: Option<WeakEntity<V>>)
        ensures
            match self.handle_spec() {
                Some(h) => r matches Some(w) && w.id_spec() == h.id_spec(),
                None => r is None,
            },
    {
        match &self.handle {
            Some(h) => Some(h.clone()),
            None => None,
        }
    }

    /// A strong handle to the component this context is bound to: nothing
    /// if the context has no handle, or if the component's cell has already
    /// been destroyed.
    pub fn entity(&self) -> (r: Option<Entity<V>>)
        ensures
            r matches Some(e) ==> self.handle_spec() matches Some(h) && e.id_spec() == h.id_spec(),
    {
        match &self.handle {
            Some(h) => h.upgrade(),
            None => None,
        }
    }

    /// Explicitly request a redraw.
    pub fn notify(&self) {
        self.app.refresh();
    }
}

/// The drawing target handed to a component's render: the grid size and
/// the lines of text painted onto it, top to bottom.
pub struct Surface {
    pub width: u16,
    pub height: u16,
    pub lines: Vec<String>,
}

impl Surface {
    /// A blank surface of the given size.
    pub fn new(width: u16, height: u16) -> (r: Surface)
        ensures
            r.width == width,
            r.height == height,
            r.lines@ == Seq::<String>::empty(),
    {
        Surface { width, height, lines: Vec::new() }
    }

    /// Paint one more line at the bottom of what was painted so far.
    pub fn push_line(&mut self, line: String)
        ensures
            final(self).lines@ == old(self).lines@.push(line),
            final(self).width == old(self).width,
            final(self).height == old(self).height,
    {
        self.lines.push(line);
    }
}

/// The capability set a type must implement to participate in dispatch.
/// The type-erased variant that would let one cell hold arbitrary
/// components is foreclosed here: Verus takes no trait objects, so the
/// bound is `Sized` and a dispatcher such as the root holds and selects
/// its children statically.
pub trait Component: Sized {
    /// Fires exactly once, the first time the instance becomes reachable.
    fn on_mount(&mut self, cx: &mut Context<Self>) {
    }

    /// Fires every time navigation transitions into the view owning this
    /// instance. The departing view's exit hook has already fired.
    fn on_enter(&mut self, cx: &mut Context<Self>) {
    }

    /// Fires every time navigation transitions out of the view owning this
    /// instance, before the arriving view's enter hook.
    fn on_exit(&mut self, cx: &mut Context<Self>) {
    }

    /// Fires exactly once, before process exit, after the final `Quit`
    /// action was observed.
    fn on_shutdown(&mut self, cx: &mut Context<Self>) {
    }

    /// Invoked once per produced frame, with exclusive access to the tree
    /// for the duration of this single call; must not block or suspend.
    fn render(&mut self, surface: &mut Surface, cx: &mut Context<Self>);

    /// Invoked with exclusive access for exactly one input event; must not
    /// block or suspend. The returned action is the only way this component
    /// influences navigation or termination.
    fn handle_event(&mut self, event: Event, cx: &mut EventContext<Self>) -> Option<Action> {
        None
    }
}

} // verus!
