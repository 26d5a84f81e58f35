use tree::nav::NavState;
use tree::render::{line_with_text, render};
use tree::terminal::{Color, VirtTerminal};
use tree::types::MyError;

fn row_text(t: &VirtTerminal, row: usize) -> String {
    t.old_cells[row].iter().map(|c| c.content).collect()
}

fn row_bg(t: &VirtTerminal, row: usize) -> Color {
    t.old_cells[row][0].bg
}

fn nav_with(path: &str, children: Vec<&str>) -> NavState {
    NavState::new(
        String::from(path),
        children.into_iter().map(String::from).collect(),
    )
}

#[test]
fn header_shows_caption_and_path() {
    let mut term = VirtTerminal::new(20, 2);
    let nav = nav_with("/a", vec![]);
    render(&nav, &mut term);
    assert_eq!(row_text(&term, 0), "current path: /a    ");
    // the header row is the selection, so it is highlighted
    assert_eq!(row_bg(&term, 0), Color::DarkGrey);
    // no children: the child row stays blank
    assert_eq!(row_text(&term, 1), "                    ");
}

#[test]
fn header_cut_at_the_right_edge() {
    let mut term = VirtTerminal::new(10, 1);
    let nav = nav_with("/abcdefghij", vec![]);
    render(&nav, &mut term);
    assert_eq!(row_text(&term, 0), "current pa");
}

#[test]
fn three_children_highlight_follows_selection() {
    // the P-scenario: 3 children on a 10-row viewport, child 2 selected.
    let mut term = VirtTerminal::new(12, 10);
    let mut nav = nav_with("/d", vec!["/d/a", "/d/b", "/d/c"]);
    nav.move_down();
    nav.move_down();
    assert_eq!(nav.current_position, 2);
    render(&nav, &mut term);
    assert_eq!(row_text(&term, 1), "/d/a        ");
    assert_eq!(row_text(&term, 2), "/d/b        ");
    assert_eq!(row_text(&term, 3), "/d/c        ");
    assert_eq!(row_bg(&term, 0), Color::Reset);
    assert_eq!(row_bg(&term, 1), Color::Reset);
    assert_eq!(row_bg(&term, 2), Color::DarkGrey);
    assert_eq!(row_bg(&term, 3), Color::Reset);
    // moving further down than the list end changes nothing in the rows shown
    nav.move_down();
    nav.move_down();
    assert_eq!(nav.current_position, 3);
    render(&nav, &mut term);
    assert_eq!(row_text(&term, 1), "/d/a        ");
    assert_eq!(row_text(&term, 2), "/d/b        ");
    assert_eq!(row_text(&term, 3), "/d/c        ");
    assert_eq!(row_bg(&term, 3), Color::DarkGrey);
    assert_eq!(row_bg(&term, 2), Color::Reset);
}

#[test]
fn hundred_children_window_follows_selection() {
    // 100 children, viewport height 10, selection 50: the window scrolls so
    // the child area shows children 46..=54, the selected child one row
    // above the midpoint.
    let children: Vec<String> = (0..100).map(|i| format!("c{:02}", i)).collect();
    let refs: Vec<&str> = children.iter().map(|s| s.as_str()).collect();
    let mut term = VirtTerminal::new(6, 10);
    let mut nav = nav_with("/big", refs);
    for _ in 0..50 {
        nav.move_down();
    }
    assert_eq!(nav.current_position, 50);
    render(&nav, &mut term);
    assert_eq!(row_text(&term, 1), "c46   ");
    assert_eq!(row_text(&term, 4), "c49   ");
    assert_eq!(row_text(&term, 5), "c50   ");
    assert_eq!(row_text(&term, 9), "c54   ");
    // the selected child (index 49) is the highlighted one
    assert_eq!(row_bg(&term, 4), Color::DarkGrey);
    assert_eq!(row_bg(&term, 5), Color::Reset);
}

#[test]
fn second_render_emits_only_the_moved_highlight() {
    let mut term = VirtTerminal::new(8, 5);
    let mut nav = nav_with("/d", vec!["/d/a", "/d/b"]);
    render(&nav, &mut term);
    nav.move_down();
    let writes = render(&nav, &mut term);
    // only the header row (highlight off) and child row 1 (highlight on)
    // changed; rows 2..4 were identical and must cost nothing.
    assert!(writes.iter().all(|w| w.row == 0 || w.row == 1));
    assert!(!writes.is_empty());
}

#[test]
fn line_with_text_pads_and_cuts() {
    let mut term = VirtTerminal::new(4, 2);
    line_with_text(&mut term, "abcdef", 1, Color::Reset, Color::Reset);
    term.flush();
    assert_eq!(row_text(&term, 1), "abcd");
    let mut term2 = VirtTerminal::new(4, 1);
    line_with_text(&mut term2, "x", 0, Color::Reset, Color::DarkGrey);
    term2.flush();
    assert_eq!(row_text(&term2, 0), "x   ");
}

#[test]
fn error_keeps_its_message() {
    let e = MyError::new("cannot translate current_path to &str");
    assert_eq!(e.message(), "cannot translate current_path to &str");
}
