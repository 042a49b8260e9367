use simple_menu::{Event, Flow, Menu, MenuOptions};

fn menu_of(texts: &[&str]) -> Menu {
    Menu::new(texts.iter().map(|t| t.to_string()).collect(), MenuOptions::default())
}

fn in_window(menu: &Menu, rows: usize) -> bool {
    let len = menu.options.len();
    menu.selected < len
        && menu.scroll <= menu.selected
        && menu.selected < menu.scroll + rows
        && menu.scroll <= len.saturating_sub(rows)
}

#[test]
fn new_menu_starts_at_the_top() {
    let menu = menu_of(&["a", "b", "c"]);
    assert_eq!(menu.options, vec!["a".to_string(), "b".to_string(), "c".to_string()]);
    assert_eq!(menu.selected, 0);
    assert_eq!(menu.scroll, 0);
}

#[test]
fn three_options_in_two_rows() {
    let mut menu = menu_of(&["a", "b", "c"]);
    assert_eq!(menu.settle(), Flow::Draw);

    assert_eq!(menu.apply(Event::Down, 2), Flow::Draw);
    assert_eq!((menu.selected, menu.scroll), (1, 0));

    assert_eq!(menu.apply(Event::Down, 2), Flow::Draw);
    assert_eq!((menu.selected, menu.scroll), (2, 1));

    assert_eq!(menu.apply(Event::Up, 2), Flow::Draw);
    assert_eq!((menu.selected, menu.scroll), (1, 1));

    assert_eq!(menu.apply(Event::Select, 2), Flow::Exit("b".to_string()));
}

#[test]
fn single_option_stays_put() {
    let mut menu = menu_of(&["x"]);
    let events = [true, true, false, true, false, false, false, true];
    for down in events {
        let event = if down { Event::Down } else { Event::Up };
        assert_eq!(menu.apply(event, 5), Flow::Draw);
        assert_eq!((menu.selected, menu.scroll), (0, 0));
    }
    assert_eq!(menu.apply(Event::Select, 5), Flow::Exit("x".to_string()));
}

#[test]
fn up_on_the_first_option_changes_nothing() {
    let mut menu = menu_of(&["a", "b", "c"]);
    menu.scroll_up();
    assert_eq!((menu.selected, menu.scroll), (0, 0));
    assert_eq!(menu.apply(Event::Up, 2), Flow::Draw);
    assert_eq!((menu.selected, menu.scroll), (0, 0));
    assert_eq!(menu.options.len(), 3);
}

#[test]
fn down_on_the_last_option_changes_nothing() {
    let mut menu = menu_of(&["a", "b", "c"]);
    menu.scroll_down(2);
    menu.scroll_down(2);
    assert_eq!((menu.selected, menu.scroll), (2, 1));
    menu.scroll_down(2);
    assert_eq!((menu.selected, menu.scroll), (2, 1));
    assert_eq!(menu.apply(Event::Down, 2), Flow::Draw);
    assert_eq!((menu.selected, menu.scroll), (2, 1));
}

#[test]
fn scroll_up_moves_the_window_only_at_its_top() {
    let mut menu = menu_of(&["a", "b", "c", "d", "e"]);
    for _ in 0..4 {
        menu.scroll_down(3);
    }
    assert_eq!((menu.selected, menu.scroll), (4, 2));
    menu.scroll_up();
    assert_eq!((menu.selected, menu.scroll), (3, 2));
    menu.scroll_up();
    assert_eq!((menu.selected, menu.scroll), (2, 2));
    menu.scroll_up();
    assert_eq!((menu.selected, menu.scroll), (1, 1));
    menu.scroll_up();
    assert_eq!((menu.selected, menu.scroll), (0, 0));
}

#[test]
fn scroll_down_moves_the_window_only_at_its_bottom() {
    let mut menu = menu_of(&["a", "b", "c", "d", "e"]);
    menu.scroll_down(3);
    assert_eq!((menu.selected, menu.scroll), (1, 0));
    menu.scroll_down(3);
    assert_eq!((menu.selected, menu.scroll), (2, 0));
    menu.scroll_down(3);
    assert_eq!((menu.selected, menu.scroll), (3, 1));
    menu.scroll_down(3);
    assert_eq!((menu.selected, menu.scroll), (4, 2));
}

#[test]
fn moves_keep_the_highlight_in_the_window() {
    for rows in 1..8usize {
        let mut menu = menu_of(&["a", "b", "c", "d", "e", "f"]);
        assert!(in_window(&menu, rows));
        let mut seed: u32 = 12345;
        for _ in 0..200 {
            seed = seed.wrapping_mul(1103515245).wrapping_add(12345);
            let event = if (seed >> 16) % 3 == 0 { Event::Up } else { Event::Down };
            assert_eq!(menu.apply(event, rows), Flow::Draw);
            assert!(in_window(&menu, rows), "rows {} state {:?}", rows, (menu.selected, menu.scroll));
        }
        for _ in 0..10 {
            assert_eq!(menu.apply(Event::Up, rows), Flow::Draw);
            assert!(in_window(&menu, rows));
        }
        assert_eq!((menu.selected, menu.scroll), (0, 0));
    }
}

#[test]
fn window_of_no_rows_still_moves_the_highlight() {
    let mut menu = menu_of(&["a", "b"]);
    menu.scroll_down(0);
    assert_eq!((menu.selected, menu.scroll), (1, 1));
}

#[test]
fn moves_on_an_empty_list_do_nothing() {
    let mut menu = menu_of(&[]);
    menu.scroll_down(3);
    assert_eq!((menu.selected, menu.scroll), (0, 0));
    menu.scroll_up();
    assert_eq!((menu.selected, menu.scroll), (0, 0));
}

#[test]
fn scroll_down_with_the_largest_window() {
    let mut menu = menu_of(&["a", "b"]);
    menu.scroll_down(usize::MAX);
    assert_eq!((menu.selected, menu.scroll), (1, 0));
}

#[test]
fn clamp_leaves_a_highlight_on_the_list_alone() {
    let mut menu = menu_of(&["a", "b", "c"]);
    menu.selected = 2;
    menu.clamp_selected();
    assert_eq!(menu.selected, 2);
}

#[test]
fn clamp_snaps_to_the_last_option() {
    let mut menu = menu_of(&["a", "b", "c"]);
    menu.selected = 40;
    menu.clamp_selected();
    assert_eq!(menu.selected, 2);
    menu.selected = 3;
    menu.clamp_selected();
    assert_eq!(menu.selected, 2);
}

#[test]
fn clamp_on_an_empty_list_gives_zero() {
    let mut menu = menu_of(&[]);
    menu.selected = 7;
    menu.clamp_selected();
    assert_eq!(menu.selected, 0);
}

#[test]
fn add_option_adds_at_the_end() {
    let mut menu = menu_of(&["a", "b"]);
    menu.scroll_down(1);
    menu.add_option("new".to_string());
    assert_eq!(menu.options, vec!["a".to_string(), "b".to_string(), "new".to_string()]);
    assert_eq!((menu.selected, menu.scroll), (1, 1));
}

#[test]
fn remove_selected_takes_out_the_highlighted_option() {
    let mut menu = menu_of(&["a", "b", "c"]);
    menu.scroll_down(5);
    menu.remove_selected();
    assert_eq!(menu.options, vec!["a".to_string(), "c".to_string()]);
    assert_eq!((menu.selected, menu.scroll), (1, 0));
}

#[test]
fn remove_selected_past_the_end_does_nothing() {
    let mut menu = menu_of(&["a", "b"]);
    menu.selected = 2;
    menu.remove_selected();
    assert_eq!(menu.options, vec!["a".to_string(), "b".to_string()]);
    assert_eq!(menu.selected, 2);

    let mut empty = menu_of(&[]);
    empty.remove_selected();
    assert!(empty.options.is_empty());
}

#[test]
fn edits_hand_back_noop() {
    let mut menu = menu_of(&["a", "b"]);
    assert_eq!(menu.add_option("c".to_string()), Event::Noop);
    assert_eq!(menu.options.len(), 3);
    assert_eq!(menu.remove_selected(), Event::Noop);
    assert_eq!(menu.options, vec!["b".to_string(), "c".to_string()]);
    menu.selected = 5;
    assert_eq!(menu.remove_selected(), Event::Noop);
    assert_eq!(menu.options.len(), 2);
}
