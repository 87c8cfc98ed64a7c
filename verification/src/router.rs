//! Route navigation with a back-stack.
//!
//! A [`Router`] holds the current logical route and a last-in-first-out
//! history of the routes that were left by navigation. Navigating to the
//! route that is already current is a no-op: no duplicate history entry is
//! pushed. Going back pops the most recent history entry into the current
//! route, and reports whether there was one.

use vstd::prelude::*;
use vstd::std_specs::cmp::PartialEqSpec;

verus! {

/// The current route after navigating from `current` to `route`.
pub open spec fn navigated_current<R: PartialEq>(current: R, route: R) -> R {
    if current.eq_spec(&route) {
        current
    } else {
        route
    }
}

/// The history after navigating from `current` (with history `history`)
/// to `route`: unchanged when the target equals the current route,
/// otherwise the departed route is pushed.
pub open spec fn navigated_history<R: PartialEq>(current: R, history: Seq<R>, route: R) -> Seq<
    R,
> {
    if current.eq_spec(&route) {
        history
    } else {
        history.push(current)
    }
}

/// A router that manages the current route and its navigation history.
pub struct Router<R> {
    current: R,
    history: Vec<R>,
}

impl<R: Copy + PartialEq> Router<R> {
    /// The current route, as seen by contracts.
    pub closed spec fn current_spec(&self) -> R {
        self.current
    }

    /// The navigation history, oldest first, as seen by contracts.
    pub closed spec fn history_spec(&self) -> Seq<R> {
        self.history@
    }

    /// Create a new router with the initial route and no history.
    pub fn new(initial: R) -> (r: Router<R>)
        ensures
            r.current_spec() == initial,
            r.history_spec() == Seq::<R>::empty(),
    {
        Router { current: initial, history: Vec::new() }
    }

    /// Get the current route.
    pub fn current(&self) -> (r: &R)
        ensures
            *r == self.current_spec(),
    {
        &self.current
    }

    /// Navigate to a new route. If the target equals the current route this
    /// is a no-op; otherwise the current route is pushed to history.
    pub fn navigate(&mut self, route: R)
        ensures
            R::obeys_eq_spec() ==> {
                &&& final(self).current_spec() == navigated_current(
                    old(self).current_spec(),
                    route,
                )
                &&& final(self).history_spec() == navigated_history(
                    old(self).current_spec(),
                    old(self).history_spec(),
                    route,
                )
            },
            final(self).current_spec() == old(self).current_spec() || final(self).current_spec()
                == route,
            final(self).history_spec() == old(self).history_spec() || final(self).history_spec()
                == old(self).history_spec().push(old(self).current_spec()),
    {
        if self.current != route {
            let prev = self.current;
            self.history.push(prev);
            self.current = route;
        }
    }

    /// Go back to the previous route. Returns true if there was one; on an
    /// empty history the current route is left unchanged and false is
    /// returned.
    pub fn go_back(&mut self) -> (went: bool)
        ensures
            old(self).history_spec().len() == 0 ==> !went && final(self).current_spec() == old(
                self,
            ).current_spec() && final(self).history_spec() == old(self).history_spec(),
            old(self).history_spec().len() > 0 ==> went && final(self).current_spec() == old(
                self,
            ).history_spec().last() && final(self).history_spec() == old(
                self,
            ).history_spec().drop_last(),
    {
        if let Some(prev) = self.history.pop() {
            self.current = prev;
            true
        } else {
            false
        }
    }

    /// Check if there is history to go back to.
    pub fn can_go_back(&self) -> (r: bool)
        ensures
            r == (self.history_spec().len() > 0),
    {
        self.history.len() > 0
    }

    /// Get the history length.
    pub fn history_len(&self) -> (r: usize)
        ensures
            r == self.history_spec().len(),
    {
        self.history.len()
    }

    /// Clear the navigation history, keeping the current route.
    pub fn clear_history(&mut self)
        ensures
            final(self).current_spec() == old(self).current_spec(),
            final(self).history_spec() == Seq::<R>::empty(),
    {
        self.history.clear();
    }
}

/// Navigating twice to the same route leaves the history exactly as the
/// first navigation left it: the second navigation pushes no duplicate
/// entry and does not move the current route.
pub proof fn lemma_navigate_twice_no_duplicate<R: Copy + PartialEq>(
    current: R,
    history: Seq<R>,
    route: R,
)
    requires
        route.eq_spec(&route),
    ensures
        ({
            let c1 = navigated_current(current, route);
            let h1 = navigated_history(current, history, route);
            &&& navigated_current(c1, route) == c1
            &&& navigated_history(c1, h1, route) == h1
        }),
{
}

} // verus!
