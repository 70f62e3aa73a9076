use my_design_gui::pages::gui_set_page_done;
use my_design_gui::view::pressed_key;
use my_design_gui::pages::{gui_app_create, gui_set_page_prompt, gui_set_pages, toggle_page_selected};
use my_design_gui::view::{command_text, has_selected, Command, DesignView, ViewState};

fn typed(view: &mut DesignView, keys: &[&str]) {
    for k in keys {
        assert!(view.handle_key(k).is_none());
    }
}

#[test]
fn new_view_starts_on_input() {
    let v = DesignView::new();
    assert_eq!(v.view, ViewState::Input);
    assert_eq!(v.input_text, "");
    assert_eq!(v.edit_idx, 0);
    assert_eq!(v.edit_prompt, "");
}

#[test]
fn typing_keys_edits_text() {
    let mut v = DesignView::new();
    typed(&mut v, &["a", "space", "b", "tab", "é", "backspace", "x", "delete", "c"]);
    assert_eq!(v.input_text, "a c");
    typed(&mut v, &["backspace", "backspace", "backspace", "backspace"]);
    assert_eq!(v.input_text, "");
}

#[test]
fn type_then_delete_restores() {
    let mut v = DesignView::new();
    typed(&mut v, &["h", "i"]);
    typed(&mut v, &["z", "backspace"]);
    assert_eq!(v.input_text, "hi");
    typed(&mut v, &["space", "backspace"]);
    assert_eq!(v.input_text, "hi");
}

#[test]
fn enter_splits_trimmed_description() {
    let mut v = DesignView::new();
    typed(&mut v, &["space", "a", "p", "p", "space"]);
    let cmd = v.handle_key("enter").expect("a command");
    match &cmd {
        Command::Split(req) => assert_eq!(req, "app"),
        _ => panic!("expected a split request"),
    }
    assert_eq!(command_text(&cmd), "/split app");
    assert_eq!(v.view, ViewState::PageList);
    assert_eq!(v.input_text, " app ");
}

#[test]
fn blank_description_sends_nothing() {
    let mut v = DesignView::new();
    typed(&mut v, &["space", "space"]);
    assert!(v.handle_key("enter").is_none());
    assert_eq!(v.view, ViewState::Input);
    assert_eq!(v.input_text, "  ");
    assert!(v.start_split().is_none());
}

#[test]
fn enter_outside_input_view_is_ignored() {
    let mut v = DesignView::new();
    typed(&mut v, &["a"]);
    v.view = ViewState::PageList;
    assert!(v.handle_key("enter").is_none());
    assert_eq!(v.input_text, "a");
    assert_eq!(v.view, ViewState::PageList);
}

#[test]
fn edit_save_and_reload_prompt() {
    let mut app = gui_app_create("");
    gui_set_pages(&mut app, r#"["Home", "Cart"]"#);
    gui_set_page_prompt(&mut app, 1, String::from("list items"));
    let mut v = DesignView::new();
    v.edit_page(&app, 1);
    assert_eq!(v.view, ViewState::SingleEditor);
    assert_eq!(v.edit_idx, 1);
    assert_eq!(v.edit_prompt, "list items");
    v.handle_editor_key("space");
    v.handle_editor_key("!");
    v.handle_editor_key("enter");
    assert_eq!(v.edit_prompt, "list items !");
    v.save_and_back(&mut app);
    assert_eq!(v.view, ViewState::PageList);
    assert_eq!(app.pages[1].prompt, "list items !");
    assert_eq!(app.pages[0].prompt, "");
    v.edit_page(&app, 1);
    assert_eq!(v.edit_prompt, "list items !");
}

#[test]
fn edit_page_out_of_range_changes_nothing() {
    let mut app = gui_app_create("");
    gui_set_pages(&mut app, r#"["Home"]"#);
    let mut v = DesignView::new();
    v.edit_page(&app, 3);
    assert_eq!(v.view, ViewState::Input);
    assert_eq!(v.edit_idx, 0);
}

#[test]
fn open_and_leave_keeps_pages() {
    let mut app = gui_app_create("");
    gui_set_pages(&mut app, r#"["Home", "Cart"]"#);
    gui_set_page_prompt(&mut app, 0, String::from("p0"));
    let mut v = DesignView::new();
    v.edit_page(&app, 0);
    v.save_and_back(&mut app);
    assert_eq!(app.pages[0].prompt, "p0");
    assert_eq!(app.pages[1].prompt, "");
}

#[test]
fn generate_page_saves_and_requests() {
    let mut app = gui_app_create("");
    gui_set_pages(&mut app, r#"["Home", "Cart", "Pay"]"#);
    let mut v = DesignView::new();
    v.edit_page(&app, 2);
    v.handle_editor_key("x");
    let cmd = v.generate_page(&mut app).expect("a command");
    assert_eq!(command_text(&cmd), "/generate_page 2 Pay");
    assert_eq!(app.pages[2].prompt, "x");
    assert_eq!(v.view, ViewState::PageList);
}

#[test]
fn generate_page_without_page_sends_nothing() {
    let mut app = gui_app_create("");
    let mut v = DesignView::new();
    v.edit_idx = 4;
    assert!(v.generate_page(&mut app).is_none());
    assert_eq!(v.view, ViewState::PageList);
}

#[test]
fn command_text_large_index() {
    let t = command_text(&Command::GeneratePage(1205, String::from("Profile")));
    assert_eq!(t, "/generate_page 1205 Profile");
    assert_eq!(command_text(&Command::GeneratePage(0, String::new())), "/generate_page 0 ");
    assert_eq!(command_text(&Command::GenerateAll), "/generate_all");
}

#[test]
fn generate_all_requires_selection() {
    let mut app = gui_app_create("");
    gui_set_pages(&mut app, r#"["A", "B"]"#);
    let mut v = DesignView::new();
    v.view = ViewState::PageList;
    toggle_page_selected(&mut app, 0);
    toggle_page_selected(&mut app, 1);
    assert!(!has_selected(&app.pages));
    assert!(v.generate_all(&app).is_none());
    assert_eq!(v.view, ViewState::PageList);
    toggle_page_selected(&mut app, 1);
    let cmd = v.generate_all(&app).expect("a command");
    assert_eq!(command_text(&cmd), "/generate_all");
    assert_eq!(v.view, ViewState::BatchGenerate);
}

#[test]
fn new_project_resets() {
    let mut app = gui_app_create("");
    gui_set_pages(&mut app, r#"["A"]"#);
    let mut v = DesignView::new();
    typed(&mut v, &["q"]);
    v.view = ViewState::PageList;
    v.new_project(&mut app);
    assert_eq!(v.view, ViewState::Input);
    assert_eq!(v.input_text, "");
    assert!(app.pages.is_empty());
}

#[test]
fn batch_view_returns_when_selected_pages_done() {
    let mut app = gui_app_create("");
    gui_set_pages(&mut app, r#"["A", "B", "C"]"#);
    toggle_page_selected(&mut app, 2);
    let mut v = DesignView::new();
    v.view = ViewState::PageList;
    assert!(v.generate_all(&app).is_some());
    assert_eq!(v.view, ViewState::BatchGenerate);
    v.pages_updated(&app);
    assert_eq!(v.view, ViewState::BatchGenerate);
    gui_set_page_done(&mut app, 0);
    v.pages_updated(&app);
    assert_eq!(v.view, ViewState::BatchGenerate);
    gui_set_page_done(&mut app, 1);
    v.pages_updated(&app);
    assert_eq!(v.view, ViewState::PageList);
}

#[test]
fn pages_updated_outside_batch_view_changes_nothing() {
    let mut app = gui_app_create("");
    gui_set_pages(&mut app, r#"[]"#);
    let mut v = DesignView::new();
    v.pages_updated(&app);
    assert_eq!(v.view, ViewState::Input);
    v.view = ViewState::SingleEditor;
    v.pages_updated(&app);
    assert_eq!(v.view, ViewState::SingleEditor);
}

#[test]
fn pressed_key_prefers_typed_character() {
    let key = String::from("a");
    assert_eq!(pressed_key(&Some(String::from("A")), &key), "A");
    assert_eq!(pressed_key(&None, &String::from("backspace")), "backspace");
}
