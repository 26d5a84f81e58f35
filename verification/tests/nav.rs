use tree::nav::{action_for_key, Effect, NavState};
use tree::types::Action;

fn state_with(children: Vec<&str>) -> NavState {
    NavState::new(
        String::from("/tmp"),
        children.into_iter().map(String::from).collect(),
    )
}

#[test]
fn move_up_at_header_is_noop() {
    let mut s = state_with(vec!["a", "b", "c"]);
    assert_eq!(s.current_position, 0);
    s.move_up();
    assert_eq!(s.current_position, 0);
}

#[test]
fn move_down_clamps_at_list_end() {
    let mut s = state_with(vec!["a", "b", "c"]);
    for _ in 0..5 {
        s.move_down();
    }
    assert_eq!(s.current_position, 3);
}

#[test]
fn jumps_clamp_at_both_ends() {
    let mut s = state_with(vec!["a", "b", "c", "d", "e"]);
    s.move_down_a_lot();
    assert_eq!(s.current_position, 5);
    s.move_up_a_lot();
    assert_eq!(s.current_position, 0);
    s.move_down();
    s.move_down();
    s.move_up_a_lot();
    assert_eq!(s.current_position, 0);
}

#[test]
fn jump_down_moves_ten_when_room() {
    let children: Vec<String> = (0..50).map(|i| format!("/tmp/{}", i)).collect();
    let mut s = NavState::new(String::from("/tmp"), children);
    s.move_down();
    s.move_down();
    s.move_down_a_lot();
    assert_eq!(s.current_position, 12);
    s.move_up_a_lot();
    assert_eq!(s.current_position, 2);
}

#[test]
fn parent_of_root_is_noop() {
    let mut s = NavState::new(String::from("/"), vec![String::from("/etc")]);
    s.move_down();
    let eff = s.apply(Action::Parent);
    assert_eq!(eff, Effect::Nothing);
    assert_eq!(s.current_path, "/");
    assert_eq!(s.current_position, 1);
    assert_eq!(s.children, vec![String::from("/etc")]);
    assert!(!s.should_quit);
}

#[test]
fn parent_returns_the_enclosing_directory() {
    let mut s = NavState::new(String::from("/usr/share"), vec![]);
    let eff = s.apply(Action::Parent);
    assert_eq!(eff, Effect::ChangeDir(String::from("/usr")));
    // the state itself waits for the new listing
    assert_eq!(s.current_path, "/usr/share");
}

#[test]
fn child_with_header_selected_is_noop() {
    let mut s = state_with(vec!["a", "b"]);
    let eff = s.apply(Action::Child);
    assert_eq!(eff, Effect::Nothing);
    assert_eq!(s.current_position, 0);
}

#[test]
fn child_targets_the_selected_entry() {
    let mut s = state_with(vec!["/tmp/a", "/tmp/b", "/tmp/c"]);
    s.move_down();
    s.move_down();
    let eff = s.apply(Action::Child);
    assert_eq!(eff, Effect::ChangeDir(String::from("/tmp/b")));
}

#[test]
fn enter_installs_path_and_children_together() {
    let mut s = state_with(vec!["/tmp/a"]);
    s.move_down();
    s.enter(String::from("/tmp/a"), vec![String::from("/tmp/a/x")]);
    assert_eq!(s.current_path, "/tmp/a");
    assert_eq!(s.current_position, 0);
    assert_eq!(s.children, vec![String::from("/tmp/a/x")]);
}

#[test]
fn quit_sets_the_flag_only() {
    let mut s = state_with(vec!["a"]);
    let eff = s.apply(Action::Quit);
    assert_eq!(eff, Effect::Nothing);
    assert!(s.should_quit);
    assert_eq!(s.current_path, "/tmp");
}

#[test]
fn render_and_resize_pass_through() {
    let mut s = state_with(vec!["a"]);
    assert_eq!(s.apply(Action::Render), Effect::Render);
    assert_eq!(s.apply(Action::Resize(80, 24)), Effect::Resize(80, 24));
    assert_eq!(s.current_position, 0);
    assert_eq!(s.current_path, "/tmp");
}

#[test]
fn keyboard_map_matches_the_help() {
    assert_eq!(action_for_key('q'), Some(Action::Quit));
    assert_eq!(action_for_key('j'), Some(Action::MoveDown));
    assert_eq!(action_for_key('J'), Some(Action::MoveDownALOT));
    assert_eq!(action_for_key('k'), Some(Action::MoveUp));
    assert_eq!(action_for_key('K'), Some(Action::MoveUpALOT));
    assert_eq!(action_for_key('u'), Some(Action::Parent));
    assert_eq!(action_for_key('d'), Some(Action::Child));
    assert_eq!(action_for_key('x'), None);
    assert_eq!(action_for_key('Q'), None);
}
