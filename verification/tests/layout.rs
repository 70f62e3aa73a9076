use my_design_gui::text::trim_text;
use my_design_gui::layout::{
    can_split, count_done, count_selected, editor_preview, editor_title, field_display, page_icon,
    page_rows, PageRow,
};
use my_design_gui::pages::{gui_app_create, gui_set_page_done, gui_set_page_preview, gui_set_pages, toggle_page_selected};

#[test]
fn rows_indent_and_branch() {
    let mut app = gui_app_create("");
    gui_set_pages(
        &mut app,
        r#"[{"name":"a","depth":0},{"name":"b","depth":1},{"name":"c","depth":1},{"name":"d","depth":2},{"name":"e","depth":0},{"name":"f","depth":3}]"#,
    );
    let rows = page_rows(&app.pages);
    assert_eq!(
        rows,
        vec![
            PageRow { indent: 0, branch: false, striped: false },
            PageRow { indent: 24, branch: true, striped: true },
            PageRow { indent: 24, branch: true, striped: false },
            PageRow { indent: 48, branch: true, striped: true },
            PageRow { indent: 0, branch: false, striped: false },
            PageRow { indent: 72, branch: true, striped: true },
        ]
    );
}

#[test]
fn sub_flow_rows_have_branch() {
    let mut app = gui_app_create("");
    gui_set_pages(
        &mut app,
        r#"[{"name":"Cart flow","depth":0},{"name":"Cart list","depth":1},{"name":"Checkout","depth":1}]"#,
    );
    assert_eq!(
        page_rows(&app.pages),
        vec![
            PageRow { indent: 0, branch: false, striped: false },
            PageRow { indent: 24, branch: true, striped: true },
            PageRow { indent: 24, branch: true, striped: false },
        ]
    );
    gui_set_pages(&mut app, r#"[{"name":"a","depth":2}]"#);
    assert_eq!(page_rows(&app.pages), vec![PageRow { indent: 48, branch: true, striped: false }]);
}

#[test]
fn counts_follow_marks() {
    let mut app = gui_app_create("");
    gui_set_pages(&mut app, r#"["A", "B", "C"]"#);
    assert_eq!(count_done(&app.pages), 0);
    assert_eq!(count_selected(&app.pages), 3);
    gui_set_page_done(&mut app, 0);
    gui_set_page_done(&mut app, 2);
    assert_eq!(count_done(&app.pages), 2);
    gui_set_page_done(&mut app, 2);
    assert_eq!(count_done(&app.pages), 2);
    toggle_page_selected(&mut app, 1);
    assert_eq!(count_selected(&app.pages), 2);
}

#[test]
fn icons_by_row() {
    assert_eq!(page_icon(0), "🛒");
    assert_eq!(page_icon(3), "💳");
    assert_eq!(page_icon(9), "🔐");
    assert_eq!(page_icon(10), "📄");
    assert_eq!(page_icon(1000), "📄");
}

#[test]
fn editor_texts() {
    let mut app = gui_app_create("");
    gui_set_pages(&mut app, r#"["Home"]"#);
    gui_set_page_preview(&mut app, 0, String::from("Header, grid"));
    assert_eq!(editor_title(&app.pages, 0), "Home");
    assert_eq!(editor_title(&app.pages, 1), "Unknown");
    assert_eq!(editor_preview(&app.pages, 0), "Header, grid");
    assert_eq!(editor_preview(&app.pages, 1), "");
}

#[test]
fn display_and_split_button() {
    assert_eq!(field_display("", "e.g. Design a food delivery app..."), "e.g. Design a food delivery app...");
    assert_eq!(field_display("shop", "placeholder"), "shop");
    assert!(!can_split(""));
    assert!(!can_split(" \t\n\u{3000}"));
    assert!(can_split("  a "));
}

#[test]
fn trimming_unicode_white_space() {
    assert_eq!(trim_text("  a b \t"), "a b");
    assert_eq!(trim_text("\u{3000}\u{2028}x\u{85}"), "x");
    assert_eq!(trim_text(" \n "), "");
    assert_eq!(trim_text(""), "");
    assert_eq!(trim_text("é"), "é");
}
