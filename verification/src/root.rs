//! The root component: it owns the heterogeneous set of views, routes
//! between them, and interprets the actions they return.
//!
//! The root is the single place that mutates navigation state: children
//! only return actions. A navigation action moves the route (pushing the
//! departed route onto the history unless the target is already current), a
//! back action pops the history, and only a quit action escapes to the
//! loop. Around every transition the root sequences the lifecycle calls:
//! the departing view's exit hook fires first, then the route moves, then
//! the arriving view's enter hook fires — exit always precedes enter.

use vstd::prelude::*;
use crate::cell::Entity;
use crate::component::AppContext;
use crate::component::Component;
use crate::component::Context;
use crate::component::EventContext;
use crate::component::Surface;
use crate::event::Action;
use crate::event::Event;
use crate::event::KeyCode;
use crate::event::Route;
use crate::model::AppState;
use crate::model::LocalState;
use crate::pages::counter::CounterPage;
use crate::pages::menu::Menu;
use crate::pages::menu::menu_line;
use crate::text::str_eq;
use crate::tracker::TaskHandle;

verus! {

/// The navigation state after moving to `route`: unchanged when the target
/// is already current, otherwise the departed route is pushed onto the
/// history.
pub open spec fn navigated_route(current: Seq<char>, history: Seq<Seq<char>>, route: Seq<char>) -> (
    Seq<char>,
    Seq<Seq<char>>,
) {
    if current == route {
        (current, history)
    } else {
        (route, history.push(current))
    }
}

/// The navigation state after going back one step: unchanged on an empty
/// history, otherwise the most recent entry is popped into the current
/// route.
pub open spec fn backed_route(current: Seq<char>, history: Seq<Seq<char>>) -> (
    Seq<char>,
    Seq<Seq<char>>,
) {
    if history.len() == 0 {
        (current, history)
    } else {
        (history.last(), history.drop_last())
    }
}

/// The root of the component tree: the menu and two counter pages sharing
/// one application-state cell, plus the current route and its history.
pub struct Root {
    current: Route,
    history: Vec<Route>,
    menu: Menu,
    page_a: CounterPage,
    page_b: CounterPage,
}

impl Root {
    /// The current route.
    pub closed spec fn current_spec(&self) -> Seq<char> {
        self.current@
    }

    /// The route history, oldest first.
    pub closed spec fn history_spec(&self) -> Seq<Seq<char>> {
        self.history@.map_values(|r: Route| r@)
    }

    /// The menu child, as contracts see it.
    pub closed spec fn menu_spec(&self) -> Menu {
        self.menu
    }

    /// Whether the current route selects the first counter page.
    pub open spec fn selects_page_a(&self) -> bool {
        self.current_spec() == "page_a"@
    }

    /// Whether the current route selects the second counter page.
    pub open spec fn selects_page_b(&self) -> bool {
        self.current_spec() == "page_b"@
    }

    /// Whether the current route selects the menu: every route that names
    /// no page falls back to it.
    pub open spec fn selects_menu(&self) -> bool {
        !self.selects_page_a() && !self.selects_page_b()
    }

    /// A root starting at the menu, with both counter pages sharing
    /// `shared_state` and each holding a fresh local-state cell.
    pub fn new(shared_state: Entity<AppState>, cx: &AppContext) -> (r: Root)
        ensures
            r.current_spec() == "menu"@,
            r.history_spec() == Seq::<Seq<char>>::empty(),
            r.menu_spec().selected_spec() == 0,
            r.menu_spec().options_spec().len() == 3,
            r.menu_spec().options_spec()[0].1@ == "page_a"@,
            r.menu_spec().options_spec()[1].1@ == "page_b"@,
            r.menu_spec().options_spec()[2].1@ == "exit"@,
    {
        let r = Root {
            current: String::from_str("menu"),
            history: Vec::new(),
            menu: Menu::new(),
            page_a: CounterPage::new(
                "Page A",
                shared_state.clone(),
                cx.new_entity(LocalState::default()),
            ),
            page_b: CounterPage::new("Page B", shared_state, cx.new_entity(LocalState::default())),
        };
        proof {
            assert(r.history@.map_values(|x: Route| x@) =~= Seq::<Seq<char>>::empty());
        }
        r
    }

    /// The local-state handle of the first counter page, for the driver
    /// that advances its background job.
    pub fn page_a_local(&self) -> Entity<LocalState> {
        self.page_a.local_handle()
    }

    /// The local-state handle of the second counter page.
    pub fn page_b_local(&self) -> Entity<LocalState> {
        self.page_b.local_handle()
    }

    /// Hand the first counter page background work to track; leaving the
    /// page cancels it.
    pub fn adopt_page_a_task(&mut self, handle: TaskHandle) {
        self.page_a.adopt_task(handle);
    }

    /// Hand the second counter page background work to track.
    pub fn adopt_page_b_task(&mut self, handle: TaskHandle) {
        self.page_b.adopt_task(handle);
    }

    /// The current route.
    pub fn current_route(&self) -> (r: &Route)
        ensures
            r@ == self.current_spec(),
    {
        &self.current
    }

    /// How many routes the history holds.
    pub fn history_len(&self) -> (r: usize)
        ensures
            r == self.history_spec().len(),
    {
        self.history.len()
    }

    /// Move to `route`: a no-op when it is already current, otherwise the
    /// departed route is pushed onto the history.
    pub fn navigate(&mut self, route: Route)
        ensures
            (final(self).current_spec(), final(self).history_spec()) == navigated_route(
                old(self).current_spec(),
                old(self).history_spec(),
                route@,
            ),
            final(self).menu_spec() == old(self).menu_spec(),
    {
        if !str_eq(self.current.as_str(), route.as_str()) {
            let ghost pre = self.history@;
            let prev = self.current.clone();
            self.history.push(prev);
            self.current = route;
            proof {
                assert(self.history@.map_values(|x: Route| x@) =~= pre.map_values(
                    |x: Route| x@,
                ).push(old(self).current@));
            }
        }
    }

    /// Pop the most recent history entry into the current route; on an
    /// empty history nothing moves and false is returned.
    pub fn go_back(&mut self) -> (went: bool)
        ensures
            went == (old(self).history_spec().len() > 0),
            (final(self).current_spec(), final(self).history_spec()) == backed_route(
                old(self).current_spec(),
                old(self).history_spec(),
            ),
            final(self).menu_spec() == old(self).menu_spec(),
    {
        let ghost pre = self.history@;
        match self.history.pop() {
            Some(prev) => {
                self.current = prev;
                proof {
                    assert(self.history@.map_values(|x: Route| x@) =~= pre.map_values(
                        |x: Route| x@,
                    ).drop_last());
                }
                true
            },
            None => false,
        }
    }

    /// Fire the exit hook of the view the current route selects. Touches
    /// nothing but that view.
    fn fire_exit_current(&mut self, cx: &mut Context<Root>)
        ensures
            final(self).current_spec() == old(self).current_spec(),
            final(self).history_spec() == old(self).history_spec(),
    {
        if str_eq(self.current.as_str(), "page_a") {
            let mut sub = cx.cast::<CounterPage>();
            self.page_a.on_exit(&mut sub);
        } else if str_eq(self.current.as_str(), "page_b") {
            let mut sub = cx.cast::<CounterPage>();
            self.page_b.on_exit(&mut sub);
        } else {
            let mut sub = cx.cast::<Menu>();
            self.menu.on_exit(&mut sub);
        }
    }

    /// Fire the enter hook of the view the current route selects. Touches
    /// nothing but that view.
    fn fire_enter_current(&mut self, cx: &mut Context<Root>)
        ensures
            final(self).current_spec() == old(self).current_spec(),
            final(self).history_spec() == old(self).history_spec(),
    {
        if str_eq(self.current.as_str(), "page_a") {
            let mut sub = cx.cast::<CounterPage>();
            self.page_a.on_enter(&mut sub);
        } else if str_eq(self.current.as_str(), "page_b") {
            let mut sub = cx.cast::<CounterPage>();
            self.page_b.on_enter(&mut sub);
        } else {
            let mut sub = cx.cast::<Menu>();
            self.menu.on_enter(&mut sub);
        }
    }

    /// Interpret the action one dispatch returned. A navigation action
    /// exits the departing view, moves the route, then enters the arriving
    /// view; a back action does the same around popping the history, with
    /// no enter hook when there was nothing to pop; nothing and noop are
    /// dropped; only quit escapes.
    fn interpret(&mut self, action: Option<Action>, cx: &mut EventContext<Root>) -> (r: Option<
        Action,
    >)
        ensures
            r matches Some(a) ==> a == Action::Quit,
            ({
                let pre_current = old(self).current_spec();
                let pre_history = old(self).history_spec();
                match action {
                    Some(Action::Navigate(route)) => r is None && (
                    final(self).current_spec(),
                    final(self).history_spec(),
                    ) == navigated_route(pre_current, pre_history, route@),
                    Some(Action::Back) => r is None && (
                    final(self).current_spec(),
                    final(self).history_spec(),
                    ) == backed_route(pre_current, pre_history),
                    Some(Action::Quit) => r == Some(Action::Quit) && final(self).current_spec()
                        == pre_current && final(self).history_spec() == pre_history,
                    Some(Action::Noop) => r is None && final(self).current_spec() == pre_current
                        && final(self).history_spec() == pre_history,
                    None => r is None && final(self).current_spec() == pre_current && final(self).history_spec() == pre_history,
                }
            }),
    {
        match action {
            Some(Action::Navigate(route)) => {
                self.fire_exit_current(cx);
                self.navigate(route);
                self.fire_enter_current(cx);
                None
            },
            Some(Action::Back) => {
                self.fire_exit_current(cx);
                let went = self.go_back();
                if went {
                    self.fire_enter_current(cx);
                }
                None
            },
            Some(Action::Quit) => Some(Action::Quit),
            Some(Action::Noop) => None,
            None => None,
        }
    }
}

impl Component for Root {
    /// Mounting the root mounts every child, exactly once each; navigation
    /// state is untouched.
    fn on_mount(&mut self, cx: &mut Context<Self>)
        ensures
            final(self).current_spec() == old(self).current_spec(),
            final(self).history_spec() == old(self).history_spec(),
    {
        let mut menu_cx = cx.cast::<Menu>();
        self.menu.on_mount(&mut menu_cx);
        let mut a_cx = cx.cast::<CounterPage>();
        self.page_a.on_mount(&mut a_cx);
        let mut b_cx = cx.cast::<CounterPage>();
        self.page_b.on_mount(&mut b_cx);
    }

    /// Entering the root enters the view the current route selects;
    /// navigation state is untouched.
    fn on_enter(&mut self, cx: &mut Context<Self>)
        ensures
            final(self).current_spec() == old(self).current_spec(),
            final(self).history_spec() == old(self).history_spec(),
    {
        self.fire_enter_current(cx);
    }

    /// Exiting the root exits the view the current route selects;
    /// navigation state is untouched.
    fn on_exit(&mut self, cx: &mut Context<Self>)
        ensures
            final(self).current_spec() == old(self).current_spec(),
            final(self).history_spec() == old(self).history_spec(),
    {
        self.fire_exit_current(cx);
    }

    /// Shutting down the root shuts down every child, exactly once each;
    /// navigation state is untouched.
    fn on_shutdown(&mut self, cx: &mut Context<Self>)
        ensures
            final(self).current_spec() == old(self).current_spec(),
            final(self).history_spec() == old(self).history_spec(),
    {
        let mut menu_cx = cx.cast::<Menu>();
        self.menu.on_shutdown(&mut menu_cx);
        let mut a_cx = cx.cast::<CounterPage>();
        self.page_a.on_shutdown(&mut a_cx);
        let mut b_cx = cx.cast::<CounterPage>();
        self.page_b.on_shutdown(&mut b_cx);
    }

    /// Render the view the current route selects, below whatever the
    /// surface already holds; when the route selects the menu, the appended
    /// lines are exactly the menu's.
    fn render(&mut self, surface: &mut Surface, cx: &mut Context<Self>)
        ensures
            final(surface).width == old(surface).width,
            final(surface).height == old(surface).height,
            final(surface).lines@.len() >= old(surface).lines@.len(),
            !old(self).selects_menu() ==> final(surface).lines@.len() > old(surface).lines@.len(),
            forall|j: int|
                0 <= j < old(surface).lines@.len() ==> final(surface).lines@[j] == old(
                    surface,
                ).lines@[j],
            old(self).selects_menu() ==> {
                &&& final(surface).lines@.len() == old(surface).lines@.len() + old(
                    self,
                ).menu_spec().options_spec().len()
                &&& forall|i: int|
                    0 <= i < old(self).menu_spec().options_spec().len() ==> (
                    #[trigger] final(surface).lines@[old(surface).lines@.len() + i])@ == menu_line(
                        i == old(self).menu_spec().selected_spec(),
                        old(self).menu_spec().options_spec()[i].0@,
                    )
            },
    {
        if str_eq(self.current.as_str(), "page_a") {
            let mut sub = cx.cast::<CounterPage>();
            self.page_a.render(surface, &mut sub);
        } else if str_eq(self.current.as_str(), "page_b") {
            let mut sub = cx.cast::<CounterPage>();
            self.page_b.render(surface, &mut sub);
        } else {
            let mut sub = cx.cast::<Menu>();
            self.menu.render(surface, &mut sub);
        }
    }

    /// Dispatch the event to the view the current route selects — the menu
    /// when no page is selected — then interpret the action it returned:
    /// the departing view's exit hook, the transition, then the arriving
    /// view's enter hook; only quit escapes. What each child yields for
    /// each key is fixed by its own contract, and the clauses below carry
    /// it through to the route and history.
    fn handle_event(&mut self, event: Event, cx: &mut EventContext<Self>) -> (r: Option<Action>)
        ensures
            r matches Some(a) ==> a == Action::Quit,
            ({
                let pre = *old(self);
                let post = *final(self);
                let unchanged_nav = post.current_spec() == pre.current_spec()
                    && post.history_spec() == pre.history_spec();
                match event {
                    Event::Key(k) => {
                        &&& !pre.selects_menu() ==> {
                            &&& k.code == KeyCode::Char('q') ==> r == Some(Action::Quit)
                                && unchanged_nav
                            &&& k.code == KeyCode::Char('m') ==> r is None && (
                            post.current_spec(),
                            post.history_spec(),
                            ) == navigated_route(pre.current_spec(), pre.history_spec(), "menu"@)
                            &&& k.code == KeyCode::Esc ==> r is None && (
                            post.current_spec(),
                            post.history_spec(),
                            ) == backed_route(pre.current_spec(), pre.history_spec())
                            &&& !(k.code == KeyCode::Char('q') || k.code == KeyCode::Char('m')
                                || k.code == KeyCode::Esc) ==> r is None && unchanged_nav
                        }
                        &&& pre.selects_menu() ==> {
                            &&& k.code == KeyCode::Char('q') ==> r == Some(Action::Quit)
                                && unchanged_nav
                            &&& k.code == KeyCode::Up || k.code == KeyCode::Down ==> r is None
                                && unchanged_nav
                            &&& k.code == KeyCode::Enter ==> {
                                let sel = pre.menu_spec().selected_spec();
                                let options = pre.menu_spec().options_spec();
                                &&& 0 <= sel < options.len() ==> {
                                    let route = options[sel].1@;
                                    if route == "exit"@ {
                                        r == Some(Action::Quit) && unchanged_nav
                                    } else {
                                        r is None && (post.current_spec(), post.history_spec())
                                            == navigated_route(
                                            pre.current_spec(),
                                            pre.history_spec(),
                                            route,
                                        )
                                    }
                                }
                                &&& sel >= options.len() ==> r is None && unchanged_nav
                            }
                        }
                    },
                    _ => r is None && post.current_spec() == pre.current_spec()
                        && post.history_spec() == pre.history_spec(),
                }
            }),
    {
        let action = if str_eq(self.current.as_str(), "page_a") {
            let mut sub = cx.cast::<CounterPage>();
            self.page_a.handle_event(event, &mut sub)
        } else if str_eq(self.current.as_str(), "page_b") {
            let mut sub = cx.cast::<CounterPage>();
            self.page_b.handle_event(event, &mut sub)
        } else {
            let mut sub = cx.cast::<Menu>();
            self.menu.handle_event(event, &mut sub)
        };
        self.interpret(action, cx)
    }
}

} // verus!
