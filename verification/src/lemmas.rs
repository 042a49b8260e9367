//! What holds of the menu across events: the window follows the highlight,
//! the ends of the list stop it, and the loop only ever leaves with a value
//! that the caller can account for.

use crate::keys::Event;
use crate::menu::MenuView;
use crate::render::padded;
use crate::style::{drawn_as, wraps, MenuOptions};
use vstd::prelude::*;

verus! {

/// `event` moves the highlight.
pub open spec fn is_move(event: Event) -> bool {
    event is Up || event is Down
}

impl MenuView {
    /// A fresh menu on `options`: first option highlighted, window at the top.
    pub open spec fn fresh(options: Seq<Seq<char>>, settings: MenuOptions) -> MenuView {
        MenuView { options, settings, selected: 0, scroll: 0 }
    }

    /// The state after `events` were applied one after the other, in a
    /// window of `rows` rows.
    pub open spec fn after(self, events: Seq<Event>, rows: nat) -> MenuView
        decreases events.len(),
    {
        if events.len() == 0 {
            self
        } else {
            self.after(events.drop_last(), rows).apply(events.last(), rows).0
        }
    }
}

/// A step up or down keeps the highlight on the list and inside the window,
/// and the window inside the list; the options stay as they are.
pub proof fn lemma_scroll_keeps_window(menu: MenuView, rows: nat)
    requires
        menu.windowed(rows),
    ensures
        menu.scroll_up().windowed(rows),
        menu.scroll_down(rows).windowed(rows),
        menu.scroll_up().options == menu.options,
        menu.scroll_down(rows).options == menu.options,
{
}

/// While the highlight is in its window, a step moves the window no further
/// than needed: down to where the highlight is its last row, up to where it
/// is its first.
pub proof fn lemma_window_follows(menu: MenuView, rows: nat)
    requires
        menu.windowed(rows),
    ensures
        menu.scroll_down(rows).selected == if menu.selected + 1 < menu.options.len() {
            menu.selected + 1
        } else {
            menu.selected
        },
        menu.scroll_down(rows).scroll == if menu.scroll_down(rows).selected + 1 > menu.scroll
            + rows {
            menu.scroll_down(rows).selected + 1 - rows
        } else {
            menu.scroll as int
        },
        menu.scroll_up().selected == if menu.selected > 0 {
            menu.selected - 1
        } else {
            0
        },
        menu.scroll_up().scroll == if menu.scroll_up().selected < menu.scroll {
            menu.scroll_up().selected
        } else {
            menu.scroll
        },
{
}

/// A move applied to a menu whose highlight is in its window leaves it
/// there, and the loop goes on.
pub proof fn lemma_move_keeps_window(menu: MenuView, event: Event, rows: nat)
    requires
        menu.windowed(rows),
        is_move(event),
    ensures
        menu.apply(event, rows).0.windowed(rows),
        menu.apply(event, rows).0.options == menu.options,
        menu.apply(event, rows).0.settings == menu.settings,
        menu.apply(event, rows).1 is None,
{
    lemma_scroll_keeps_window(menu, rows);
}

/// Any number of moves applied to a menu whose highlight is in its window
/// leaves it there.
pub proof fn lemma_moves_keep_window_from(menu: MenuView, events: Seq<Event>, rows: nat)
    requires
        menu.windowed(rows),
        forall|i: int| 0 <= i < events.len() ==> is_move(#[trigger] events[i]),
    ensures
        menu.after(events, rows).windowed(rows),
        menu.after(events, rows).options == menu.options,
        menu.after(events, rows).settings == menu.settings,
    decreases events.len(),
{
    if events.len() > 0 {
        lemma_moves_keep_window_from(menu, events.drop_last(), rows);
        lemma_move_keeps_window(menu.after(events.drop_last(), rows), events.last(), rows);
    }
}

/// On a fresh menu with at least one option, in a window of at least one
/// row: after each of any sequence of moves the highlight is on an option,
/// `scroll <= selected < scroll + rows`, and `scroll` is at most
/// `max(0, len - rows)`.
pub proof fn lemma_moves_keep_window(
    options: Seq<Seq<char>>,
    settings: MenuOptions,
    events: Seq<Event>,
    rows: nat,
)
    requires
        options.len() > 0,
        rows >= 1,
        forall|i: int| 0 <= i < events.len() ==> is_move(#[trigger] events[i]),
    ensures
        forall|k: int|
            0 <= k <= events.len() ==> (#[trigger] MenuView::fresh(options, settings).after(
                events.take(k),
                rows,
            )).windowed(rows),
{
    let menu = MenuView::fresh(options, settings);
    assert forall|k: int| 0 <= k <= events.len() implies (#[trigger] menu.after(
        events.take(k),
        rows,
    )).windowed(rows) by {
        lemma_moves_keep_window_from(menu, events.take(k), rows);
    }
}

/// A step up with the first option highlighted changes nothing, and neither
/// does a step down with the last option highlighted.
pub proof fn lemma_moves_stop_at_ends(menu: MenuView, rows: nat)
    ensures
        menu.selected == 0 ==> menu.scroll_up() == menu,
        menu.selected == 0 ==> menu.apply(Event::Up, rows).0 == menu,
        menu.selected + 1 == menu.options.len() ==> menu.scroll_down(rows) == menu,
        menu.selected + 1 == menu.options.len() ==> menu.apply(Event::Down, rows).0 == menu,
{
}

/// With a single option every sequence of moves leaves the menu as it was.
pub proof fn lemma_single_option_stays(menu: MenuView, events: Seq<Event>, rows: nat)
    requires
        menu.options.len() == 1,
        menu.selected == 0,
        forall|i: int| 0 <= i < events.len() ==> is_move(#[trigger] events[i]),
    ensures
        menu.after(events, rows) == menu,
    decreases events.len(),
{
    if events.len() > 0 {
        lemma_single_option_stays(menu, events.drop_last(), rows);
        lemma_moves_stop_at_ends(menu, rows);
    }
}

/// While the menu has options, the loop leaves only with the value of a
/// `Return` event, or on `Select` with one of the options: the one under
/// the highlight after it was brought back onto the list. `Return` gives its
/// value on a menu without options too.
pub proof fn lemma_exit_value(menu: MenuView, event: Event, rows: nat)
    requires
        menu.options.len() > 0 || event is Return,
    ensures
        menu.apply(event, rows).0.options == menu.options,
        match menu.apply(event, rows).1 {
            Some(value) => match event {
                Event::Return(payload) => value == payload@,
                Event::Select => menu.options.contains(value) && value
                    == menu.options[menu.apply(event, rows).0.selected as int],
                _ => false,
            },
            None => is_move(event) || event is Noop,
        },
        !(event is Return) ==> menu.apply(event, rows).0.in_range(),
{
}

/// While the highlight is in its window, the drawn rows fill the window or
/// show the whole list, and exactly one of them is marked: the one that
/// shows the highlighted option.
pub proof fn lemma_highlight_is_drawn(menu: MenuView, width: nat, rows: nat)
    requires
        menu.windowed(rows),
    ensures
        menu.frame(width, rows).len() == if rows < menu.options.len() {
            rows
        } else {
            menu.options.len()
        },
        forall|k: int|
            0 <= k < menu.frame(width, rows).len() ==> (#[trigger] menu.frame(
                width,
                rows,
            )[k]).selected == (k == menu.selected - menu.scroll),
        0 <= menu.selected - menu.scroll < menu.frame(width, rows).len(),
{
}

/// While the highlight is in its window, a drawn line is written in
/// `style_selected` exactly when it is the line of the highlighted option,
/// line `selected - scroll`, and in `style_normal` otherwise; it shows the
/// option of its row, padded to the width.
pub proof fn lemma_highlight_style(menu: MenuView, line: Seq<char>, k: int, width: nat, rows: nat)
    requires
        menu.windowed(rows),
        0 <= k < menu.frame(width, rows).len(),
        menu.draws(line, menu.frame(width, rows)[k]),
    ensures
        drawn_as(
            line,
            if k == menu.selected - menu.scroll {
                menu.settings.style_selected
            } else {
                menu.settings.style_normal
            },
            padded(menu.options[menu.scroll + k], width),
        ),
        wraps(line, padded(menu.options[menu.scroll + k], width)),
{
    lemma_highlight_is_drawn(menu, width, rows);
}

/// A menu without options ends the loop with the empty string: before the
/// first draw, and on every event but `Return`.
pub proof fn lemma_empty_menu_exits(menu: MenuView, event: Event, rows: nat)
    requires
        menu.options.len() == 0,
    ensures
        menu.settle().1 == Some(Seq::<char>::empty()),
        menu.settle().0.selected == 0,
        !(event is Return) ==> menu.apply(event, rows).1 == Some(Seq::<char>::empty()),
{
}

/// Bringing the highlight back onto the list leaves it alone when it is on
/// an option, and otherwise puts it on the last option, or on 0 when no
/// option is left.
pub proof fn lemma_clamp_in_range(menu: MenuView)
    ensures
        menu.in_range() ==> menu.clamp() == menu,
        menu.options.len() > 0 ==> menu.clamp().in_range(),
        menu.options.len() > 0 && !menu.in_range() ==> menu.clamp().selected + 1
            == menu.options.len(),
        menu.options.len() == 0 ==> menu.clamp().selected == 0,
{
}

/// After the highlighted option was removed, the next draw finds the
/// highlight on the option that took its place, or on the new last option
/// when the last one was removed; removing the only option ends the loop
/// with the empty string and the highlight on 0.
pub proof fn lemma_remove_then_settle(menu: MenuView)
    requires
        menu.in_range(),
    ensures
        menu.remove_selected().settle().0.options == menu.options.remove(menu.selected as int),
        menu.remove_selected().settle().0.scroll == menu.scroll,
        menu.options.len() == 1 ==> menu.remove_selected().settle().0.selected == 0
            && menu.remove_selected().settle().1 == Some(Seq::<char>::empty()),
        menu.options.len() > 1 ==> menu.remove_selected().settle().0.in_range()
            && menu.remove_selected().settle().1 is None,
        menu.selected + 1 < menu.options.len() ==> menu.remove_selected().settle().0.selected
            == menu.selected,
        menu.options.len() > 1 && menu.selected + 1 == menu.options.len()
            ==> menu.remove_selected().settle().0.selected == menu.selected - 1,
{
}

/// An option added at the end, followed by `Noop`, makes the list one longer
/// and leaves the highlight and the window where they were.
pub proof fn lemma_push_keeps_position(menu: MenuView, text: Seq<char>, rows: nat)
    requires
        menu.selected <= menu.options.len(),
    ensures
        menu.push(text).apply(Event::Noop, rows) == (menu.push(text), None::<Seq<char>>),
        menu.push(text).options.len() == menu.options.len() + 1,
        menu.push(text).selected == menu.selected,
        menu.push(text).scroll == menu.scroll,
{
}

} // verus!
