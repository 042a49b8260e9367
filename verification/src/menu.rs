//! The menu's state and the operations that move its highlight.

use crate::keys::Event;
use crate::style::MenuOptions;
use vstd::prelude::*;

verus! {

/// A list of options with one of them highlighted and a scrolled window on it.
pub struct Menu {
    /// The options, in the order they are shown.
    pub options: Vec<String>,
    /// The styles the rows are drawn with.
    pub settings: MenuOptions,
    /// Index of the highlighted option; 0 when there is none.
    pub selected: usize,
    /// Index of the first option in the window.
    pub scroll: usize,
}

/// The mathematical value of a [`Menu`].
pub struct MenuView {
    pub options: Seq<Seq<char>>,
    pub settings: MenuOptions,
    pub selected: nat,
    pub scroll: nat,
}

impl View for Menu {
    type V = MenuView;

    open spec fn view(&self) -> MenuView {
        MenuView {
            options: self.options.deep_view(),
            settings: self.settings,
            selected: self.selected as nat,
            scroll: self.scroll as nat,
        }
    }
}

impl MenuView {
    /// The highlight is on an option.
    pub open spec fn in_range(self) -> bool {
        self.selected < self.options.len()
    }

    /// The highlight is on an option inside a window of `rows` rows, and the
    /// window does not reach past the end of a list that could fill it.
    pub open spec fn windowed(self, rows: nat) -> bool {
        &&& self.in_range()
        &&& self.scroll <= self.selected < self.scroll + rows
        &&& self.scroll <= if self.options.len() >= rows {
            self.options.len() - rows
        } else {
            0
        }
    }

    /// The highlight brought back onto the list: onto the last option when it
    /// lies past the end, to 0 when the list is empty.
    pub open spec fn clamp(self) -> MenuView {
        MenuView {
            selected: if self.options.len() == 0 {
                0
            } else if self.selected >= self.options.len() {
                (self.options.len() - 1) as nat
            } else {
                self.selected
            },
            ..self
        }
    }

    /// The list with `text` added at its end.
    pub open spec fn push(self, text: Seq<char>) -> MenuView {
        MenuView { options: self.options.push(text), ..self }
    }

    /// The list without the highlighted option; unchanged when the highlight
    /// is on none.
    pub open spec fn remove_selected(self) -> MenuView {
        if self.in_range() {
            MenuView { options: self.options.remove(self.selected as int), ..self }
        } else {
            self
        }
    }

    /// One step up: the highlight moves unless it is on the first option, and
    /// the window follows it when it leaves through the top.
    pub open spec fn scroll_up(self) -> MenuView {
        if self.selected > 0 {
            let selected = (self.selected - 1) as nat;
            MenuView {
                selected,
                scroll: if selected < self.scroll {
                    (self.scroll - 1) as nat
                } else {
                    self.scroll
                },
                ..self
            }
        } else {
            self
        }
    }

    /// One step down: the highlight moves unless it is on the last option,
    /// and the window follows it when it leaves through the bottom.
    pub open spec fn scroll_down(self, rows: nat) -> MenuView {
        if self.selected + 1 < self.options.len() {
            let selected = self.selected + 1;
            MenuView {
                selected,
                scroll: if selected >= self.scroll + rows {
                    self.scroll + 1
                } else {
                    self.scroll
                },
                ..self
            }
        } else {
            self
        }
    }
}

impl Menu {
    /// A menu on `options` with the first one highlighted and the window at
    /// the top.
    pub fn new(options: Vec<String>, settings: MenuOptions) -> (menu: Menu)
        ensures
            menu@ == (MenuView {
                options: options.deep_view(),
                settings,
                selected: 0,
                scroll: 0,
            }),
    {
        Menu { options, settings, selected: 0, scroll: 0 }
    }

    /// Brings the highlight back onto the list after options were removed.
    pub fn clamp_selected(&mut self)
        ensures
            final(self)@ == old(self)@.clamp(),
    {
        let count: usize = self.options.len();
        if count == 0 {
            self.selected = 0;
        } else if self.selected >= count {
            self.selected = count - 1;
        }
    }

    /// Adds `text` as the last option. The event to hand to the menu
    /// afterwards is `Noop`: draw again and wait for the next key.
    pub fn add_option(&mut self, text: String) -> (event: Event)
        ensures
            final(self)@ == old(self)@.push(text@),
            event == Event::Noop,
    {
        self.options.push(text);
        assert(self.options.deep_view() =~= old(self).options.deep_view().push(text@));
        Event::Noop
    }

    /// Removes the highlighted option, if the highlight is on one. The
    /// highlight keeps its index, which may then lie past the end. The event
    /// to hand to the menu afterwards is `Noop`, which brings the highlight
    /// back onto the list.
    pub fn remove_selected(&mut self) -> (event: Event)
        ensures
            final(self)@ == old(self)@.remove_selected(),
            event == Event::Noop,
    {
        if self.selected < self.options.len() {
            self.options.remove(self.selected);
            assert(self.options.deep_view() =~= old(self).options.deep_view().remove(
                self.selected as int,
            ));
        }
        Event::Noop
    }

    /// Moves the highlight one option up.
    pub fn scroll_up(&mut self)
        ensures
            final(self)@ == old(self)@.scroll_up(),
    {
        if self.selected > 0 {
            self.selected -= 1;
            if self.selected < self.scroll {
                self.scroll -= 1;
            }
        }
    }

    /// Moves the highlight one option down, in a window of `term_height`
    /// rows.
    pub fn scroll_down(&mut self, term_height: usize)
        ensures
            final(self)@ == old(self)@.scroll_down(term_height as nat),
    {
        let count: usize = self.options.len();
        if count > 0 && self.selected < count - 1 {
            self.selected += 1;
            if self.selected >= self.scroll && self.selected - self.scroll >= term_height {
                self.scroll += 1;
            }
        }
    }
}

} // verus!
