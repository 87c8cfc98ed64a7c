//! Lifecycle sequencing around navigation.
//!
//! The dispatcher wrapping a router sequences lifecycle calls around every
//! transition: the departing view's exit hook fires first, then the router
//! moves, then the arriving view's enter hook fires — exit always precedes
//! enter. These functions move the router and hand the caller a
//! [`Transition`] naming, in that order, the route whose view to exit and
//! the route whose view to enter.

use vstd::prelude::*;
use vstd::std_specs::cmp::PartialEqSpec;
use crate::router::Router;
use crate::router::navigated_current;
use crate::router::navigated_history;

verus! {

/// The lifecycle calls one navigation transition requires. The exit hook
/// of the view owning `exit_from` fires first; the enter hook of the view
/// owning `enter_to` fires after the router has moved — or no enter hook at
/// all, when going back found no history.
pub struct Transition<R> {
    pub exit_from: R,
    pub enter_to: Option<R>,
}

/// Navigate the router to `to`, sequencing lifecycle hooks around the
/// transition: exit the route that was current, move, then enter the route
/// that is current afterwards.
pub fn navigate_with_lifecycle<R: Copy + PartialEq>(router: &mut Router<R>, to: R) -> (t:
    Transition<R>)
    ensures
        t.exit_from == old(router).current_spec(),
        t.enter_to == Some(final(router).current_spec()),
        R::obeys_eq_spec() ==> {
            &&& final(router).current_spec() == navigated_current(old(router).current_spec(), to)
            &&& final(router).history_spec() == navigated_history(
                old(router).current_spec(),
                old(router).history_spec(),
                to,
            )
        },
{
    let exit_from = *router.current();
    router.navigate(to);
    let enter_to = Some(*router.current());
    Transition { exit_from, enter_to }
}

/// Go back one step, sequencing lifecycle hooks around the transition: exit
/// the route that was current; when there was history to pop, enter the
/// route it led back to, and when there was none, enter nothing — the
/// router stays where it was.
pub fn back_with_lifecycle<R: Copy + PartialEq>(router: &mut Router<R>) -> (t: Transition<R>)
    ensures
        t.exit_from == old(router).current_spec(),
        old(router).history_spec().len() == 0 ==> {
            &&& t.enter_to is None
            &&& final(router).current_spec() == old(router).current_spec()
            &&& final(router).history_spec() == old(router).history_spec()
        },
        old(router).history_spec().len() > 0 ==> {
            &&& t.enter_to == Some(old(router).history_spec().last())
            &&& final(router).current_spec() == old(router).history_spec().last()
            &&& final(router).history_spec() == old(router).history_spec().drop_last()
        },
{
    let exit_from = *router.current();
    let went = router.go_back();
    let enter_to = if went {
        Some(*router.current())
    } else {
        None
    };
    Transition { exit_from, enter_to }
}

} // verus!
