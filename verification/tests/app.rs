use browser::app::{back, forward, Action, App, Frame, TextureStatus, WindowEvent};
use browser::location::Request;
use browser::surface::{CompositeAlphaMode, TextureFormat};

fn url(request: Request) -> String {
    match request {
        Request::DownloadWasm(url) => format!("wasm {}", url),
        Request::LoadPage(url) => format!("page {}", url),
    }
}

fn enter(app: &mut App, location: &str, page: &str) -> String {
    app.edit_location(location.to_string());
    let request = app.begin_load();
    app.finish_entry(page.to_string());
    url(request)
}

fn with_window() -> App {
    let mut app = App::new();
    app.set_window(
        77,
        &vec![TextureFormat::Bgra8UnormSrgb],
        &vec![CompositeAlphaMode::Opaque],
    );
    app
}

#[test]
fn new_browser_has_one_blank_tab() {
    let app = App::new();
    assert_eq!(app.current_status(), "Loading...");
    assert_eq!(app.current_location(), "https://example.com/");
    assert_eq!(app.current_tab(), "");
    assert_eq!(app.current_page(), "");
    assert_eq!(app.tab_count(), 1);
    let tab = app.tab(0);
    assert_eq!(tab.label, "");
    assert_eq!(tab.location, "https://example.com/");
    assert_eq!(tab.status, "Loaded");
    assert_eq!(tab.contents, "");
    assert!(tab.back.is_empty());
    assert!(tab.forward.is_empty());
    assert_eq!(app.parent_window_id(), 1);
    assert_eq!(app.child_window_id(), 2);
    assert!(!app.has_window());
    assert!(app.shows_page());
}

#[test]
fn entry_goes_into_the_tab_and_its_history() {
    let mut app = App::new();
    assert_eq!(enter(&mut app, "https://a/", "# First"), "page https://a/");
    assert_eq!(app.current_status(), "Loaded");
    assert_eq!(app.current_page(), "# First");
    assert_eq!(app.current_tab(), "First");
    assert_eq!(app.tab(0).label, "First");
    assert_eq!(app.tab(0).location, "https://a/");
    assert_eq!(app.tab(0).contents, "# First");
    assert_eq!(app.tab(0).back, vec!["https://example.com/"]);
    enter(&mut app, "https://b/", "# Second");
    assert_eq!(app.tab(0).back, vec!["https://example.com/", "https://a/"]);
    enter(&mut app, "https://c/", "# Third");
    assert_eq!(app.tab(0).back, vec!["https://example.com/", "https://a/", "https://b/"]);
    assert_eq!(app.tab(0).location, "https://c/");
    assert!(app.tab(0).forward.is_empty());
}

#[test]
fn entry_under_a_given_heading() {
    let mut app = App::new();
    app.edit_location("x".to_string());
    app.finish_entry_under("page".to_string(), "Title".to_string());
    assert_eq!(app.current_tab(), "Title");
    assert_eq!(app.tab(0).label, "Title");
    assert_eq!(app.tab(0).contents, "page");
}

#[test]
fn entry_goes_to_the_first_tab_of_its_label() {
    let mut app = App::new();
    app.add_tab();
    app.add_tab();
    app.select_tab(2);
    enter(&mut app, "https://c/", "# C");
    assert_eq!(app.tab(1).label, "C");
    assert_eq!(app.tab(2).label, "New Tab");
    assert!(app.tab(2).back.is_empty());
    assert_eq!(app.tab(0).label, "");
}

#[test]
fn heading_of_an_earlier_tab_takes_the_next_entry() {
    let mut app = App::new();
    enter(&mut app, "https://a/", "# Same");
    app.add_tab();
    enter(&mut app, "https://b/", "# Same");
    assert_eq!(app.tab(1).back, vec!["https://example.com"]);
    enter(&mut app, "https://c/", "# Other");
    assert_eq!(app.tab(0).back, vec!["https://example.com/", "https://a/"]);
    assert_eq!(app.tab(1).back, vec!["https://example.com"]);
}

#[test]
fn tab_gives_back_what_was_entered() {
    let mut app = App::new();
    enter(&mut app, "https://a/", "# A");
    app.add_tab();
    assert_eq!(app.tab_count(), 2);
    assert_eq!(app.current_tab(), "New Tab");
    assert_eq!(app.current_location(), "https://example.com");
    assert_eq!(app.current_page(), "");
    app.select_tab(0);
    assert_eq!(app.current_location(), "https://a/");
    assert_eq!(app.current_page(), "# A");
    assert_eq!(app.current_tab(), "A");
    assert_eq!(app.tab_count(), 2);
}

#[test]
fn go_button_records_no_visit() {
    let mut app = App::new();
    app.edit_location("https://a/".to_string());
    assert_eq!(url(app.begin_load()), "page https://a/");
    assert_eq!(app.current_status(), "Loading...");
    app.finish_load("# A".to_string());
    assert_eq!(app.current_status(), "Loaded");
    assert_eq!(app.current_page(), "# A");
    assert_eq!(app.current_tab(), "");
    assert_eq!(app.tab(0).location, "https://example.com/");
    assert!(app.tab(0).back.is_empty());
}

#[test]
fn link_becomes_the_location() {
    let mut app = App::new();
    assert_eq!(url(app.follow_link("https://l/".to_string())), "page https://l/");
    assert_eq!(app.current_location(), "https://l/");
    assert_eq!(app.current_status(), "Loading...");
    app.finish_load("text".to_string());
    assert_eq!(app.current_page(), "text");
    assert!(app.tab(0).back.is_empty());
}

#[test]
fn guest_asks_for_one_child_window() {
    let mut app = with_window();
    assert_eq!(enter(&mut app, "https://g/game.wasm", "downloaded.wasm"), "wasm https://g/game.wasm");
    assert_eq!(app.current_status(), "Loading...");
    assert_eq!(app.current_page(), "downloaded.wasm");
    assert!(app.tab(0).back.is_empty());
    let plan = app.window_event();
    assert_eq!(plan.run_guest, Some("downloaded.wasm".to_string()));
    assert!(!plan.forward);
    assert!(!plan.exit);
    app.open_child(500);
    assert!(!app.shows_page());
    assert_eq!(app.child_window_id(), 500);
    assert_eq!(app.child_to_paint(), Some(500));
    let plan = app.window_event();
    assert_eq!(plan.run_guest, None);
    assert!(plan.forward);
}

#[test]
fn page_replaces_the_guest_but_events_go_on() {
    let mut app = with_window();
    app.press_spawn_child_window();
    assert!(app.window_event().run_guest.is_some());
    app.open_child(500);
    enter(&mut app, "https://a/", "# A");
    assert!(app.shows_page());
    assert_eq!(app.child_window_id(), 2);
    assert_eq!(app.child_to_paint(), None);
    assert!(app.window_event().forward);
}

#[test]
fn guest_by_link_leaves_an_open_guest() {
    let mut app = with_window();
    app.open_child(500);
    app.follow_link("x.wasm".to_string());
    app.finish_load("downloaded.wasm".to_string());
    assert_eq!(app.child_to_paint(), Some(500));
    assert!(app.window_event().run_guest.is_some());
}

#[test]
fn quitting_lasts() {
    let mut app = with_window();
    assert!(!app.window_event().exit);
    app.press_quit();
    assert!(app.window_event().exit);
    enter(&mut app, "https://a/", "# A");
    app.press_back();
    assert!(app.window_event().exit);
}

#[test]
fn history_buttons_only_report() {
    assert_eq!(back(), Ok(()));
    assert_eq!(forward(), Ok(()));
    let mut app = App::new();
    enter(&mut app, "https://a/", "# A");
    app.edit_location("https://b/".to_string());
    app.begin_load();
    app.press_back();
    assert_eq!(app.current_status(), "Loaded");
    assert_eq!(app.current_location(), "https://b/");
    app.begin_load();
    app.press_forward();
    assert_eq!(app.current_status(), "Loaded");
    assert_eq!(app.tab(0).back, vec!["https://example.com/"]);
}

#[test]
fn failed_history_walk_is_reported() {
    let mut app = App::new();
    app.show_history_outcome(Err("nowhere to go".to_string()));
    assert_eq!(app.current_status(), "nowhere to go");
    app.show_history_outcome(Ok(()));
    assert_eq!(app.current_status(), "Loaded");
}

#[test]
fn status_line_is_prefixed() {
    assert_eq!(App::new().status_display(), "Status: Loading...");
}

#[test]
fn first_window_is_kept_with_a_square_surface() {
    let mut app = with_window();
    assert!(app.has_window());
    assert_eq!(App::initial_inner_size(), (3840, 2160));
    assert_eq!(app.begin_redraw(None), Frame::Draw { width: 3840, height: 3840 });
    app.handle_resized(100, 50);
    app.set_window(
        78,
        &vec![TextureFormat::Bgra8UnormSrgb],
        &vec![CompositeAlphaMode::Auto],
    );
    assert_eq!(app.begin_redraw(Some(false)), Frame::Draw { width: 100, height: 50 });
}

#[test]
fn empty_extents_are_ignored() {
    let mut app = App::new();
    app.handle_resized(0, 10);
    app.handle_resized(10, 0);
    assert!(!app.has_window());
    let mut app = with_window();
    app.handle_resized(20, 10);
    app.handle_resized(5, 6);
    app.handle_resized(0, 30);
    app.handle_resized(30, 0);
    assert_eq!(app.begin_redraw(None), Frame::Draw { width: 5, height: 6 });
    assert_eq!((app.surface_config().width, app.surface_config().height), (5, 6));
    assert_eq!(app.surface_config().alpha_mode, CompositeAlphaMode::Opaque);
}

#[test]
fn minimized_window_is_not_drawn() {
    assert_eq!(with_window().begin_redraw(Some(true)), Frame::Skip);
}

#[test]
fn outdated_surface_sits_a_frame_out() {
    assert!(App::draws_on(TextureStatus::Acquired));
    assert!(!App::draws_on(TextureStatus::Outdated));
}

#[test]
fn events_are_answered() {
    let mut app = with_window();
    assert_eq!(app.dispatch(WindowEvent::CloseRequested), Action::Exit);
    assert_eq!(app.dispatch(WindowEvent::RedrawRequested), Action::Redraw);
    assert_eq!(app.dispatch(WindowEvent::Other), Action::Nothing);
    assert_eq!(app.dispatch(WindowEvent::Resized { width: 0, height: 9 }), Action::Nothing);
    assert_eq!(
        app.dispatch(WindowEvent::Resized { width: 8, height: 9 }),
        Action::Reconfigure { width: 8, height: 9 }
    );
    assert_eq!(app.begin_redraw(None), Frame::Draw { width: 8, height: 9 });
}
