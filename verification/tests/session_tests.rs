use reqtui::App;
use reqtui::Command;
use reqtui::CurrentScreen;
use reqtui::CurrentlyEditing;
use reqtui::FetchError;
use reqtui::KeyInput;

fn type_text(app: &mut App, text: &str) {
    for c in text.chars() {
        let cmd = app.handle_key(KeyInput::Char(c));
        assert_eq!(cmd, Command::Continue);
    }
}

fn app_with_history(urls: &[&str]) -> App {
    let mut app = App::new();
    for url in urls {
        assert_eq!(app.handle_key(KeyInput::Char('e')), Command::Continue);
        type_text(&mut app, url);
        assert_eq!(app.handle_key(KeyInput::Enter), Command::Fetch);
        app.on_press_enter(Ok(format!("body of {}", url)));
    }
    app
}

#[test]
fn new_session_starts_clean() {
    let app = App::new();
    assert_eq!(app.current_screen, CurrentScreen::Main);
    assert_eq!(app.currently_editing, None);
    assert_eq!(app.url_input, "");
    assert_eq!(app.current_index, 0);
    assert_eq!(app.requests.size(), 0);
}

#[test]
fn arrows_are_noops_on_empty_history() {
    let mut app = App::new();
    assert_eq!(app.handle_key(KeyInput::Up), Command::Continue);
    assert_eq!(app.current_index, 0);
    assert_eq!(app.handle_key(KeyInput::Down), Command::Continue);
    assert_eq!(app.current_index, 0);
    assert_eq!(app.current_screen, CurrentScreen::Main);
}

#[test]
fn arrows_are_noops_on_single_entry() {
    let mut app = app_with_history(&["http://a"]);
    assert_eq!(app.handle_key(KeyInput::Down), Command::Continue);
    assert_eq!(app.current_index, 0);
    assert_eq!(app.handle_key(KeyInput::Up), Command::Continue);
    assert_eq!(app.current_index, 0);
}

#[test]
fn selection_stays_in_bounds() {
    let mut app = app_with_history(&["http://a", "http://b", "http://c"]);
    let presses = [
        KeyInput::Up,
        KeyInput::Down,
        KeyInput::Down,
        KeyInput::Down,
        KeyInput::Down,
        KeyInput::Up,
        KeyInput::Up,
        KeyInput::Up,
        KeyInput::Down,
    ];
    for key in presses {
        app.handle_key(key);
        assert!(app.current_index <= 2);
    }
    for _ in 0..10 {
        app.handle_key(KeyInput::Down);
    }
    assert_eq!(app.current_index, 2);
    for _ in 0..10 {
        app.handle_key(KeyInput::Up);
    }
    assert_eq!(app.current_index, 0);
}

#[test]
fn escape_returns_to_main_and_retains_buffer() {
    let mut app = App::new();
    assert_eq!(app.handle_key(KeyInput::Char('e')), Command::Continue);
    assert_eq!(app.current_screen, CurrentScreen::Editing);
    assert_eq!(app.currently_editing, Some(CurrentlyEditing::Url));
    type_text(&mut app, "http://x");
    assert_eq!(app.handle_key(KeyInput::Esc), Command::Continue);
    assert_eq!(app.current_screen, CurrentScreen::Main);
    assert_eq!(app.currently_editing, None);
    // The buffer is retained for the next edit; it is not cleared.
    assert_eq!(app.url_input, "http://x");
}

#[test]
fn enter_with_successful_fetch_stores_body() {
    let mut app = App::new();
    app.handle_key(KeyInput::Char('e'));
    type_text(&mut app, "http://x");
    assert_eq!(app.handle_key(KeyInput::Enter), Command::Fetch);
    app.on_press_enter(Ok("OK".to_string()));
    assert_eq!(app.current_screen, CurrentScreen::Main);
    assert_eq!(app.currently_editing, None);
    assert_eq!(app.url_input, "");
    assert_eq!(app.requests.size(), 1);
    assert_eq!(
        app.requests.entry_at(0),
        Ok(("http://x".to_string(), "OK".to_string()))
    );
}

#[test]
fn enter_with_failing_fetch_stores_error_marker() {
    let mut app = App::new();
    app.handle_key(KeyInput::Char('e'));
    type_text(&mut app, "http://bad");
    assert_eq!(app.handle_key(KeyInput::Enter), Command::Fetch);
    app.on_press_enter(Err(FetchError {
        message: "dns failure".to_string(),
    }));
    assert_eq!(app.current_screen, CurrentScreen::Main);
    assert_eq!(app.url_input, "");
    assert_eq!(app.requests.size(), 1);
    assert_eq!(
        app.requests.entry_at(0),
        Ok(("http://bad".to_string(), "<error: dns failure>".to_string()))
    );
}

#[test]
fn refetching_a_url_keeps_its_position() {
    let mut app = app_with_history(&["http://a", "http://b"]);
    app.handle_key(KeyInput::Char('e'));
    type_text(&mut app, "http://a");
    app.handle_key(KeyInput::Enter);
    app.on_press_enter(Ok("fresh".to_string()));
    assert_eq!(app.requests.size(), 2);
    assert_eq!(
        app.requests.keys_in_order(),
        vec!["http://a".to_string(), "http://b".to_string()]
    );
    assert_eq!(
        app.requests.entry_at(0),
        Ok(("http://a".to_string(), "fresh".to_string()))
    );
}

#[test]
fn backspace_edits_and_empty_buffer_is_noop() {
    let mut app = App::new();
    app.handle_key(KeyInput::Char('e'));
    type_text(&mut app, "ab");
    assert_eq!(app.handle_key(KeyInput::Backspace), Command::Continue);
    assert_eq!(app.url_input, "a");
    app.handle_key(KeyInput::Backspace);
    assert_eq!(app.url_input, "");
    app.handle_key(KeyInput::Backspace);
    assert_eq!(app.url_input, "");
    assert_eq!(app.current_screen, CurrentScreen::Editing);
}

#[test]
fn tab_keeps_the_url_target() {
    let mut app = App::new();
    app.handle_key(KeyInput::Char('e'));
    assert_eq!(app.handle_key(KeyInput::Tab), Command::Continue);
    assert_eq!(app.current_screen, CurrentScreen::Editing);
    assert_eq!(app.currently_editing, Some(CurrentlyEditing::Url));
}

#[test]
fn confirm_clear_no_keeps_history_yes_empties_it() {
    let mut app = app_with_history(&["http://a", "http://b"]);
    assert_eq!(app.handle_key(KeyInput::Char('c')), Command::Continue);
    assert_eq!(app.current_screen, CurrentScreen::Clearing);
    assert_eq!(app.handle_key(KeyInput::Char('n')), Command::Continue);
    assert_eq!(app.current_screen, CurrentScreen::Main);
    assert_eq!(app.requests.size(), 2);
    assert_eq!(
        app.requests.keys_in_order(),
        vec!["http://a".to_string(), "http://b".to_string()]
    );

    app.handle_key(KeyInput::Char('c'));
    assert_eq!(app.handle_key(KeyInput::Char('y')), Command::Continue);
    assert_eq!(app.current_screen, CurrentScreen::Main);
    assert_eq!(app.requests.size(), 0);
    assert_eq!(app.current_index, 0);
}

#[test]
fn exit_confirmation_flows() {
    let mut app = App::new();
    assert_eq!(app.handle_key(KeyInput::Char('q')), Command::Continue);
    assert_eq!(app.current_screen, CurrentScreen::Exiting);
    assert_eq!(app.handle_key(KeyInput::Char('y')), Command::Terminate);

    // Declining the prompt returns to the main screen instead of exiting.
    let mut app2 = app_with_history(&["http://a"]);
    app2.handle_key(KeyInput::Char('q'));
    assert_eq!(app2.handle_key(KeyInput::Char('n')), Command::Continue);
    assert_eq!(app2.current_screen, CurrentScreen::Main);
    assert_eq!(app2.requests.size(), 1);

    let mut app3 = App::new();
    app3.handle_key(KeyInput::Char('q'));
    assert_eq!(app3.handle_key(KeyInput::Char('q')), Command::Continue);
    assert_eq!(app3.current_screen, CurrentScreen::Main);
}

#[test]
fn unmatched_keys_are_ignored() {
    let mut app = app_with_history(&["http://a"]);
    assert_eq!(app.handle_key(KeyInput::Char('x')), Command::Continue);
    assert_eq!(app.current_screen, CurrentScreen::Main);
    assert_eq!(app.handle_key(KeyInput::Enter), Command::Continue);
    assert_eq!(app.handle_key(KeyInput::Esc), Command::Continue);
    assert_eq!(app.current_screen, CurrentScreen::Main);
    assert_eq!(app.requests.size(), 1);

    app.handle_key(KeyInput::Char('q'));
    assert_eq!(app.handle_key(KeyInput::Char('x')), Command::Continue);
    assert_eq!(app.current_screen, CurrentScreen::Exiting);

    let mut editing = App::new();
    editing.handle_key(KeyInput::Char('e'));
    assert_eq!(editing.handle_key(KeyInput::Up), Command::Continue);
    assert_eq!(editing.current_screen, CurrentScreen::Editing);
    assert_eq!(editing.url_input, "");
}

#[test]
fn direct_callbacks_match_the_dispatcher() {
    let mut app = app_with_history(&["http://a", "http://b", "http://c"]);
    app.on_arrow_down();
    assert_eq!(app.current_index, 1);
    app.on_arrow_down();
    assert_eq!(app.current_index, 2);
    app.on_arrow_down();
    assert_eq!(app.current_index, 2);
    app.on_arrow_up();
    assert_eq!(app.current_index, 1);

    app.wipe_requests();
    assert_eq!(app.requests.size(), 0);
    assert_eq!(app.current_index, 0);
}

#[test]
fn save_request_outside_editing_is_a_noop_via_enter() {
    let mut app = App::new();
    // No field is being edited, so the completion callback changes nothing.
    app.on_press_enter(Ok("OK".to_string()));
    assert_eq!(app.requests.size(), 0);
    assert_eq!(app.current_screen, CurrentScreen::Main);
}
