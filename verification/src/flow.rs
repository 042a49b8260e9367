//! The decisions of the menu's input loop.
//!
//! The host draws the menu, waits for a key, maps it to an [`Event`] and
//! hands the event to [`Menu::apply`]; the [`Flow`] that comes back says
//! whether to draw again or to leave with a value.

use crate::keys::Event;
use crate::menu::{Menu, MenuView};
use vstd::prelude::*;

verus! {

/// What the host does next.
#[derive(Debug, PartialEq, Eq)]
pub enum Flow {
    /// Draw the menu and wait for the next key.
    Draw,
    /// Show the cursor, clear the screen and return this value.
    Exit(String),
}

impl View for Flow {
    type V = Option<Seq<char>>;

    /// The value to leave with, if the loop ends here.
    open spec fn view(&self) -> Option<Seq<char>> {
        match self {
            Flow::Draw => None,
            Flow::Exit(value) => Some(value@),
        }
    }
}

impl MenuView {
    /// The state before a draw: the highlight is back on the list, and an
    /// empty list ends the loop with the empty string.
    pub open spec fn settle(self) -> (MenuView, Option<Seq<char>>) {
        let menu = self.clamp();
        (
            menu,
            if menu.options.len() == 0 {
                Some(Seq::<char>::empty())
            } else {
                None
            },
        )
    }

    /// The state after `event` in a window of `rows` rows, and the value the
    /// loop ends with, if it ends.
    pub open spec fn apply(self, event: Event, rows: nat) -> (MenuView, Option<Seq<char>>) {
        match event {
            Event::Return(value) => (self, Some(value@)),
            Event::Select => {
                let menu = self.clamp();
                (
                    menu,
                    Some(
                        if menu.options.len() == 0 {
                            Seq::<char>::empty()
                        } else {
                            menu.options[menu.selected as int]
                        },
                    ),
                )
            },
            Event::Up => self.scroll_up().settle(),
            Event::Down => self.scroll_down(rows).settle(),
            Event::Noop => self.settle(),
        }
    }
}

impl Menu {
    /// Prepares the next draw. The highlight is brought back onto the list;
    /// a menu without options ends the loop with the empty string.
    pub fn settle(&mut self) -> (flow: Flow)
        ensures
            (final(self)@, flow@) == old(self)@.settle(),
    {
        self.clamp_selected();
        if self.options.len() == 0 {
            Flow::Exit(String::new())
        } else {
            Flow::Draw
        }
    }

    /// Applies one event, in a window of `term_height` rows.
    ///
    /// `Return` ends the loop with its value and leaves the menu as it is.
    /// `Select` ends it with the highlighted option, or with the empty string
    /// when there is no option left. The other events move the highlight or
    /// do nothing, and the menu is then prepared for the next draw as
    /// [`Menu::settle`] does.
    pub fn apply(&mut self, event: Event, term_height: usize) -> (flow: Flow)
        ensures
            (final(self)@, flow@) == old(self)@.apply(event, term_height as nat),
    {
        match event {
            Event::Return(value) => Flow::Exit(value),
            Event::Select => {
                self.clamp_selected();
                if self.options.len() == 0 {
                    Flow::Exit(String::new())
                } else {
                    Flow::Exit(self.options[self.selected].clone())
                }
            },
            Event::Up => {
                self.scroll_up();
                self.settle()
            },
            Event::Down => {
                self.scroll_down(term_height);
                self.settle()
            },
            Event::Noop => self.settle(),
        }
    }
}

/// What the host does at one poll while it waits for a key.
#[derive(Clone, Copy, Debug, PartialEq, Eq)]
pub enum Poll {
    /// The key is there: map it and apply the event.
    Handle,
    /// No key yet, and a redraw is due.
    Redraw,
    /// No key yet: poll again.
    Idle,
}

/// Number of polls from one redraw to the next while no key arrives.
pub const REDRAW_PERIOD: u32 = 1_000_000;

/// The action at poll number `tick`.
pub open spec fn poll_action(tick: u32, key_ready: bool) -> Poll {
    if key_ready {
        Poll::Handle
    } else if tick % REDRAW_PERIOD == 0 {
        Poll::Redraw
    } else {
        Poll::Idle
    }
}

/// The poll number after `tick`; it starts again at 0 after the largest.
pub open spec fn next_tick(tick: u32) -> u32 {
    if tick == u32::MAX {
        0
    } else {
        (tick + 1) as u32
    }
}

/// One poll of the wait for a key: the action to take and the next poll
/// number. A key that has arrived is handled at once; otherwise the menu is
/// drawn again at every `REDRAW_PERIOD`-th poll, starting with poll 0.
pub fn poll(tick: u32, key_ready: bool) -> (step: (Poll, u32))
    ensures
        step.0 == poll_action(tick, key_ready),
        step.1 == next_tick(tick),
{
    let action = if key_ready {
        Poll::Handle
    } else if tick % REDRAW_PERIOD == 0 {
        Poll::Redraw
    } else {
        Poll::Idle
    };
    let next: u32 = if tick == u32::MAX {
        0
    } else {
        tick + 1
    };
    (action, next)
}

/// Rows left for options on a terminal of `term_rows` rows: all but the
/// last one, and none on a terminal without rows.
pub fn option_rows(term_rows: u16) -> (rows: usize)
    ensures
        rows == if term_rows == 0 {
            0
        } else {
            term_rows - 1
        },
{
    if term_rows == 0 {
        0
    } else {
        (term_rows - 1) as usize
    }
}

} // verus!
