use my_design_gui::pages::{
    gui_app_create, gui_set_page_done, gui_set_page_preview, gui_set_page_prompt, gui_set_pages,
    toggle_page_selected, GuiApp,
};

fn names(app: &GuiApp) -> Vec<String> {
    app.pages.iter().map(|p| p.name.clone()).collect()
}

#[test]
fn create_gives_empty_list() {
    let app = gui_app_create("{}");
    assert!(app.pages.is_empty());
}

#[test]
fn set_pages_from_name_list() {
    let mut app = gui_app_create("");
    gui_set_pages(&mut app, r#"["Home", "Cart", "Checkout"]"#);
    assert_eq!(names(&app), vec!["Home", "Cart", "Checkout"]);
    for p in &app.pages {
        assert_eq!(p.depth, 0);
        assert!(p.selected);
        assert!(!p.done);
        assert!(p.prompt.is_empty());
        assert!(p.design_preview.is_empty());
    }
}

#[test]
fn set_pages_from_objects_with_depth() {
    let mut app = gui_app_create("");
    gui_set_pages(
        &mut app,
        r#"[{"name":"Cart flow","depth":0},{"name":"Cart list","depth":1},{"name":"Order detail","depth":2}]"#,
    );
    assert_eq!(names(&app), vec!["Cart flow", "Cart list", "Order detail"]);
    let depths: Vec<usize> = app.pages.iter().map(|p| p.depth).collect();
    assert_eq!(depths, vec![0, 1, 2]);
    assert!(app.pages.iter().all(|p| p.selected && !p.done));
}

#[test]
fn set_pages_defaults_for_missing_fields() {
    let mut app = gui_app_create("");
    gui_set_pages(&mut app, r#"[{"depth":3}, {"name":"Solo"}, {"name":7,"depth":-1}, 5]"#);
    assert_eq!(names(&app), vec!["Page", "Solo", "Page", "Page"]);
    let depths: Vec<usize> = app.pages.iter().map(|p| p.depth).collect();
    assert_eq!(depths, vec![3, 0, 0, 0]);
}

#[test]
fn set_pages_invalid_json_keeps_list() {
    let mut app = gui_app_create("");
    gui_set_pages(&mut app, r#"["A", "B"]"#);
    gui_set_pages(&mut app, "not json");
    assert_eq!(names(&app), vec!["A", "B"]);
    gui_set_pages(&mut app, r#"{"name":"x"}"#);
    assert_eq!(names(&app), vec!["A", "B"]);
}

#[test]
fn set_pages_replaces_previous_list() {
    let mut app = gui_app_create("");
    gui_set_pages(&mut app, r#"["A", "B", "C"]"#);
    gui_set_page_done(&mut app, 1);
    gui_set_pages(&mut app, r#"["X"]"#);
    assert_eq!(names(&app), vec!["X"]);
    assert!(!app.pages[0].done);
}

#[test]
fn set_pages_twice_same_as_once() {
    let mut once = gui_app_create("");
    gui_set_pages(&mut once, r#"[{"name":"A","depth":1}]"#);
    let mut twice = gui_app_create("");
    gui_set_pages(&mut twice, r#"[{"name":"A","depth":1}]"#);
    gui_set_pages(&mut twice, r#"[{"name":"A","depth":1}]"#);
    assert_eq!(names(&once), names(&twice));
    assert_eq!(once.pages[0].depth, twice.pages[0].depth);
}

#[test]
fn set_page_done_in_and_out_of_range() {
    let mut app = gui_app_create("");
    gui_set_pages(&mut app, r#"["A", "B"]"#);
    gui_set_page_done(&mut app, 1);
    assert!(!app.pages[0].done);
    assert!(app.pages[1].done);
    gui_set_page_done(&mut app, 2);
    gui_set_page_done(&mut app, -1);
    assert!(!app.pages[0].done);
    assert_eq!(app.pages.len(), 2);
}

#[test]
fn set_page_preview_and_prompt() {
    let mut app = gui_app_create("");
    gui_set_pages(&mut app, r#"["A", "B"]"#);
    gui_set_page_preview(&mut app, 0, String::from("hero + list"));
    gui_set_page_prompt(&mut app, 1, String::from("show totals"));
    assert_eq!(app.pages[0].design_preview, "hero + list");
    assert_eq!(app.pages[0].prompt, "");
    assert_eq!(app.pages[1].prompt, "show totals");
    gui_set_page_prompt(&mut app, 5, String::from("ignored"));
    gui_set_page_preview(&mut app, -3, String::from("ignored"));
    assert_eq!(app.pages[1].prompt, "show totals");
    assert_eq!(app.pages[1].design_preview, "");
}

#[test]
fn toggle_twice_restores_selection() {
    let mut app = gui_app_create("");
    gui_set_pages(&mut app, r#"["A", "B"]"#);
    toggle_page_selected(&mut app, 1);
    assert!(app.pages[0].selected);
    assert!(!app.pages[1].selected);
    toggle_page_selected(&mut app, 1);
    assert!(app.pages[1].selected);
    toggle_page_selected(&mut app, 9);
    assert!(app.pages.iter().all(|p| p.selected));
}

#[test]
fn set_pages_mixed_array_uses_entries() {
    let mut app = gui_app_create("");
    gui_set_pages(&mut app, r#"["plain", {"name":"obj","depth":1}]"#);
    assert_eq!(names(&app), vec!["Page", "obj"]);
    assert_eq!(app.pages[1].depth, 1);
}
