use dotmgr::picker::{on_key, update_viewer, App, Key, Picked, Selected};

fn app() -> App {
    App::new("/s".to_string(), vec!["a.sh".to_string(), "b.sh".to_string(), "c.sh".to_string()])
}

#[test]
fn a_new_picker_is_on_the_first_name() {
    let app = app();
    assert_eq!(app.active_pane, Selected::Left);
    assert_eq!(app.selected_file_index, 0);
    assert_eq!(app.viewer_content, "");
    assert_eq!(app.path_dir, "/s");
    assert_eq!(app.dirnames.len(), 3);
}

#[test]
fn the_viewer_shows_the_path_under_the_cursor() {
    let mut app = app();
    update_viewer(&mut app);
    assert_eq!(app.viewer_content, "/s/a.sh");
    let mut empty = App::new("/s".to_string(), vec![]);
    update_viewer(&mut empty);
    assert_eq!(empty.viewer_content, "");
}

#[test]
fn j_and_k_move_within_the_list() {
    let mut app = app();
    assert!(matches!(on_key(&mut app, Key::Char('k')), Picked::Pending));
    assert_eq!(app.selected_file_index, 0);
    assert!(matches!(on_key(&mut app, Key::Char('j')), Picked::Pending));
    assert_eq!(app.selected_file_index, 1);
    assert_eq!(app.viewer_content, "/s/b.sh");
    on_key(&mut app, Key::Char('j'));
    on_key(&mut app, Key::Char('j'));
    assert_eq!(app.selected_file_index, 2);
    assert_eq!(app.viewer_content, "/s/c.sh");
    on_key(&mut app, Key::Char('k'));
    assert_eq!(app.selected_file_index, 1);
}

#[test]
fn tab_changes_the_pane() {
    let mut app = app();
    on_key(&mut app, Key::Tab);
    assert_eq!(app.active_pane, Selected::Right);
    on_key(&mut app, Key::Tab);
    assert_eq!(app.active_pane, Selected::Left);
}

#[test]
fn enter_chooses_and_q_leaves() {
    let mut app = app();
    on_key(&mut app, Key::Char('j'));
    match on_key(&mut app, Key::Enter) {
        Picked::Chosen(path) => assert_eq!(path, "/s/b.sh"),
        _ => panic!("a name was under the cursor"),
    }
    assert!(matches!(on_key(&mut app, Key::Char('q')), Picked::Cancelled));
}

#[test]
fn other_keys_do_nothing() {
    let mut app = app();
    assert!(matches!(on_key(&mut app, Key::Other), Picked::Pending));
    assert!(matches!(on_key(&mut app, Key::Char('x')), Picked::Pending));
    assert_eq!(app.selected_file_index, 0);
    assert_eq!(app.viewer_content, "");
}

#[test]
fn an_empty_list_has_nothing_to_choose() {
    let mut app = App::new("/s".to_string(), vec![]);
    assert!(matches!(on_key(&mut app, Key::Char('j')), Picked::Pending));
    assert_eq!(app.selected_file_index, 0);
    assert!(matches!(on_key(&mut app, Key::Enter), Picked::Pending));
}
