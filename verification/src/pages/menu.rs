//! The main menu: a list of labelled routes, one of them selected.

use vstd::prelude::*;
use crate::component::Component;
use crate::component::Context;
use crate::component::EventContext;
use crate::component::Surface;
use crate::event::Action;
use crate::event::Event;
use crate::event::KeyCode;
use crate::event::Route;
use crate::text::str_eq;

verus! {

/// The main menu. Up and down move the selection within bounds; enter
/// follows the selected route, or quits on the exit entry; the quit key
/// quits from anywhere.
pub struct Menu {
    selected: usize,
    options: Vec<(&'static str, Route)>,
}

/// What one key does to the menu: up and down move the selection, staying
/// within the options; enter yields quit on the exit route and navigation
/// to any other; the quit key yields quit; everything else does nothing.
pub open spec fn menu_key_outcome(pre: Menu, post: Menu, code: KeyCode, r: Option<Action>) -> bool {
    &&& post.options_spec() == pre.options_spec()
    &&& code == KeyCode::Up ==> {
        &&& post.selected_spec() == if pre.selected_spec() > 0 {
            pre.selected_spec() - 1
        } else {
            0
        }
        &&& r is None
    }
    &&& code == KeyCode::Down ==> {
        &&& post.selected_spec() == if pre.selected_spec() + 1 < pre.options_spec().len() {
            pre.selected_spec() + 1
        } else {
            pre.selected_spec()
        }
        &&& r is None
    }
    &&& code == KeyCode::Enter ==> {
        &&& post.selected_spec() == pre.selected_spec()
        &&& pre.selected_spec() < pre.options_spec().len() ==> {
            let route = pre.options_spec()[pre.selected_spec()].1;
            if route@ == "exit"@ {
                r == Some(Action::Quit)
            } else {
                r matches Some(Action::Navigate(s)) && s@ == route@
            }
        }
        &&& pre.selected_spec() >= pre.options_spec().len() ==> r is None
    }
    &&& code == KeyCode::Char('q') ==> r == Some(Action::Quit) && post.selected_spec()
        == pre.selected_spec()
    &&& !(code == KeyCode::Up || code == KeyCode::Down || code == KeyCode::Enter || code
        == KeyCode::Char('q')) ==> r is None && post.selected_spec() == pre.selected_spec()
}

/// The text of one menu line: the selection marker, then the label.
pub open spec fn menu_line(selected: bool, label: Seq<char>) -> Seq<char> {
    (if selected {
        "> "@
    } else {
        "  "@
    }) + label
}

impl Menu {
    /// The index of the selected option.
    pub closed spec fn selected_spec(&self) -> int {
        self.selected as int
    }

    /// The labelled routes on offer.
    pub closed spec fn options_spec(&self) -> Seq<(&'static str, Route)> {
        self.options@
    }

    /// The menu over the two counter pages and an exit entry, with the
    /// first entry selected.
    pub fn new() -> (m: Menu)
        ensures
            m.selected_spec() == 0,
            m.options_spec().len() == 3,
            m.options_spec()[0].0@ == "Counter Page A"@ && m.options_spec()[0].1@ == "page_a"@,
            m.options_spec()[1].0@ == "Counter Page B"@ && m.options_spec()[1].1@ == "page_b"@,
            m.options_spec()[2].0@ == "Exit"@ && m.options_spec()[2].1@ == "exit"@,
    {
        let mut options: Vec<(&'static str, Route)> = Vec::new();
        options.push(("Counter Page A", String::from_str("page_a")));
        options.push(("Counter Page B", String::from_str("page_b")));
        options.push(("Exit", String::from_str("exit")));
        Menu { selected: 0, options }
    }

    /// React to one key, as [`menu_key_outcome`] states.
    pub fn on_key(&mut self, code: KeyCode) -> (r: Option<Action>)
        ensures
            menu_key_outcome(*old(self), *final(self), code, r),
    {
        match code {
            KeyCode::Up => {
                if self.selected > 0 {
                    self.selected = self.selected - 1;
                }
                None
            },
            KeyCode::Down => {
                let len = self.options.len();
                if len > 0 && self.selected < len - 1 {
                    self.selected = self.selected + 1;
                }
                None
            },
            KeyCode::Enter => {
                if self.selected < self.options.len() {
                    let route = &self.options[self.selected].1;
                    if str_eq(route.as_str(), "exit") {
                        Some(Action::Quit)
                    } else {
                        Some(Action::Navigate(route.clone()))
                    }
                } else {
                    None
                }
            },
            KeyCode::Char(c) => {
                if c == 'q' {
                    Some(Action::Quit)
                } else {
                    None
                }
            },
            _ => None,
        }
    }
}

impl Component for Menu {
    /// Paint one line per option, in order, below whatever the surface
    /// already holds: each line is the selection marker followed by the
    /// option's label.
    fn render(&mut self, surface: &mut Surface, _cx: &mut Context<Self>)
        ensures
            final(surface).width == old(surface).width,
            final(surface).height == old(surface).height,
            final(surface).lines@.len() == old(surface).lines@.len() + old(self).options_spec().len(),
            forall|j: int|
                0 <= j < old(surface).lines@.len() ==> final(surface).lines@[j] == old(
                    surface,
                ).lines@[j],
            forall|i: int|
                0 <= i < old(self).options_spec().len() ==> (
                #[trigger] final(surface).lines@[old(surface).lines@.len() + i])@ == menu_line(
                    i == old(self).selected_spec(),
                    old(self).options_spec()[i].0@,
                ),
    {
        let mut i: usize = 0;
        while i < self.options.len()
            invariant
                i <= self.options@.len(),
                surface.lines@.len() == old(surface).lines@.len() + i,
                surface.width == old(surface).width,
                surface.height == old(surface).height,
                forall|j: int|
                    0 <= j < i ==> (#[trigger] surface.lines@[old(surface).lines@.len() + j])@
                        == menu_line(
                        j == old(self).selected_spec(),
                        old(self).options_spec()[j].0@,
                    ),
                forall|j: int|
                    0 <= j < old(surface).lines@.len() ==> surface.lines@[j] == old(
                        surface,
                    ).lines@[j],
                self == old(self),
            decreases self.options@.len() - i,
        {
            let mut line = String::from_str(
                if i == self.selected {
                    "> "
                } else {
                    "  "
                },
            );
            line.append(self.options[i].0);
            surface.push_line(line);
            i = i + 1;
        }
    }

    /// Delegates every key to [`Menu::on_key`]; any other event does
    /// nothing.
    fn handle_event(&mut self, event: Event, _cx: &mut EventContext<Self>) -> (r: Option<Action>)
        ensures
            match event {
                Event::Key(k) => menu_key_outcome(*old(self), *final(self), k.code, r),
                _ => r is None && *final(self) == *old(self),
            },
    {
        match event {
            Event::Key(key) => self.on_key(key.code),
            _ => None,
        }
    }
}

} // verus!
