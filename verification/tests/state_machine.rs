use ytdl_tui::state::{Action, App, AppState, KeyInput};

fn type_str(app: &mut App, text: &str) {
    for c in text.chars() {
        let act = app.handle_key(KeyInput::Printable(c));
        assert_eq!(act, Action::Continue);
    }
}

fn name_of(app: &App) -> String {
    app.playlist_name.iter().collect()
}

fn url_of(app: &App) -> String {
    app.url.iter().collect()
}

#[test]
fn new_app_starts_in_name_entry_with_everything_empty() {
    let app = App::new();
    assert_eq!(app.state, AppState::InputPlaylistName);
    assert!(app.playlist_name.is_empty());
    assert!(app.url.is_empty());
    assert!(app.error_message.is_empty());
    assert!(app.files_downloaded.is_empty());
    assert!(app.download_output_final.is_empty());
}

#[test]
fn name_entry_respects_typing_and_deletes() {
    let mut app = App::new();
    type_str(&mut app, "Chilm");
    assert_eq!(app.handle_key(KeyInput::Delete), Action::Continue);
    type_str(&mut app, "l");
    assert_eq!(name_of(&app), "Chill");
    assert_eq!(app.state, AppState::InputPlaylistName);
    let act = app.handle_key(KeyInput::Confirm);
    assert_eq!(act, Action::Continue);
    assert_eq!(app.state, AppState::InputUrl);
    assert_eq!(name_of(&app), "Chill");
}

#[test]
fn delete_on_empty_name_is_harmless() {
    let mut app = App::new();
    assert_eq!(app.handle_key(KeyInput::Delete), Action::Continue);
    assert!(app.playlist_name.is_empty());
    assert_eq!(app.state, AppState::InputPlaylistName);
}

#[test]
fn confirm_with_empty_name_does_not_advance() {
    let mut app = App::new();
    let act = app.handle_key(KeyInput::Confirm);
    assert_eq!(act, Action::Continue);
    assert_eq!(app.state, AppState::InputPlaylistName);
    assert!(app.playlist_name.is_empty());
}

#[test]
fn confirm_with_empty_url_does_not_advance() {
    let mut app = App::new();
    type_str(&mut app, "Chill");
    app.handle_key(KeyInput::Confirm);
    assert_eq!(app.state, AppState::InputUrl);
    let act = app.handle_key(KeyInput::Confirm);
    assert_eq!(act, Action::Continue);
    assert_eq!(app.state, AppState::InputUrl);
    assert!(app.url.is_empty());
}

#[test]
fn confirming_nonempty_url_starts_the_download() {
    let mut app = App::new();
    type_str(&mut app, "Chill");
    app.handle_key(KeyInput::Confirm);
    type_str(&mut app, "http://example/1");
    assert_eq!(url_of(&app), "http://example/1");
    let act = app.handle_key(KeyInput::Confirm);
    assert_eq!(act, Action::StartDownload);
    assert_eq!(app.state, AppState::Downloading);
}

#[test]
fn cancel_exits_from_entry_states() {
    let mut app = App::new();
    assert_eq!(app.handle_key(KeyInput::Cancel), Action::Exit);
    assert_eq!(app.state, AppState::InputPlaylistName);

    let mut app = App::new();
    type_str(&mut app, "Chill");
    app.handle_key(KeyInput::Confirm);
    assert_eq!(app.handle_key(KeyInput::Cancel), Action::Exit);
}

#[test]
fn terminal_states_exit_only_on_confirm() {
    let mut app = App::new();
    app.state = AppState::Done;
    assert_eq!(app.handle_key(KeyInput::Cancel), Action::Continue);
    assert_eq!(app.handle_key(KeyInput::Printable('x')), Action::Continue);
    assert_eq!(app.handle_key(KeyInput::Confirm), Action::Exit);

    let mut app = App::new();
    app.state = AppState::Error;
    assert_eq!(app.handle_key(KeyInput::Delete), Action::Continue);
    assert_eq!(app.handle_key(KeyInput::Confirm), Action::Exit);
}

#[test]
fn check_download_before_done_changes_nothing() {
    let mut app = App::new();
    app.state = AppState::Downloading;
    let finished = app.check_download(false, false, String::new(), Vec::new());
    assert!(!finished);
    assert_eq!(app.state, AppState::Downloading);
    assert!(app.download_output_final.is_empty());
}
