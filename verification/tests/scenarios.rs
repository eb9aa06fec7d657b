//! End-to-end runs of one download attempt, with the worker's side played
//! out on the progress channel.
use ytdl_tui::download::{record_outcome, DownloadOutcome};
use ytdl_tui::progress::ProgressChannel;
use ytdl_tui::state::{Action, App, AppState, KeyInput};

fn enter(app: &mut App, text: &str) -> Action {
    let mut last = Action::Continue;
    for c in text.chars() {
        last = app.handle_key(KeyInput::Printable(c));
    }
    last = app.handle_key(KeyInput::Confirm);
    last
}

#[test]
fn successful_download_collects_the_result_files() {
    let mut app = App::new();
    enter(&mut app, "Chill");
    let act = enter(&mut app, "http://example/1");
    assert_eq!(act, Action::StartDownload);
    assert_eq!(app.state, AppState::Downloading);

    let mut ch = ProgressChannel::new();
    ch.append("[download] fetching");
    record_outcome(&mut ch, &DownloadOutcome::Completed { exit_success: true });
    assert!(ch.is_done());
    assert!(ch.succeeded());

    let listing = vec!["track.m4a".to_string()];
    let finished = app.check_download(ch.is_done(), ch.succeeded(), ch.snapshot(), listing);
    assert!(finished);
    assert_eq!(app.state, AppState::Done);
    assert_eq!(app.files_downloaded, vec!["track.m4a".to_string()]);
    assert_eq!(app.download_output_final, "[download] fetching\n");
    assert!(app.error_message.is_empty());
}

#[test]
fn failed_exit_status_reaches_the_error_state_with_the_fixed_message() {
    let mut app = App::new();
    enter(&mut app, "Chill");
    let act = enter(&mut app, "bad-url");
    assert_eq!(act, Action::StartDownload);

    let mut ch = ProgressChannel::new();
    ch.append("ERROR: unsupported URL");
    record_outcome(&mut ch, &DownloadOutcome::Completed { exit_success: false });
    assert!(ch.is_done());
    assert!(!ch.succeeded());

    let finished = app.check_download(ch.is_done(), ch.succeeded(), ch.snapshot(), Vec::new());
    assert!(finished);
    assert_eq!(app.state, AppState::Error);
    assert_eq!(app.error_message, "Download failed. Check your connection and URL.");
    assert!(app.files_downloaded.is_empty());
}

#[test]
fn spawn_failure_records_a_line_and_never_succeeds() {
    // The executable was absent: there is no process to wait for, only the
    // diagnostic line and a failed outcome.
    let mut ch = ProgressChannel::new();
    record_outcome(
        &mut ch,
        &DownloadOutcome::SpawnFailed { message: "Failed to spawn: not found".to_string() },
    );
    assert!(ch.is_done());
    assert!(!ch.succeeded());
    assert_eq!(ch.snapshot(), "Failed to spawn: not found\n");

    let mut app = App::new();
    enter(&mut app, "Chill");
    enter(&mut app, "http://example/1");
    let finished = app.check_download(ch.is_done(), ch.succeeded(), ch.snapshot(), Vec::new());
    assert!(finished);
    assert_eq!(app.state, AppState::Error);
    assert_eq!(app.error_message, "Download failed. Check your connection and URL.");
}

#[test]
fn cancel_while_downloading_exits_without_waiting_for_the_worker() {
    let mut app = App::new();
    enter(&mut app, "Chill");
    enter(&mut app, "http://example/1");
    assert_eq!(app.state, AppState::Downloading);

    let ch = ProgressChannel::new();
    let act = app.handle_key(KeyInput::Cancel);
    assert_eq!(act, Action::Exit);
    // The channel never reached done: the loop leaves anyway.
    assert!(!ch.is_done());
}

#[test]
fn ticks_while_not_done_keep_downloading() {
    let mut app = App::new();
    enter(&mut app, "Chill");
    enter(&mut app, "http://example/1");
    let ch = ProgressChannel::new();
    for _ in 0..3 {
        let finished =
            app.check_download(ch.is_done(), ch.succeeded(), ch.snapshot(), Vec::new());
        assert!(!finished);
        assert_eq!(app.state, AppState::Downloading);
    }
    // The first tick after the worker finishes observes it.
    let mut ch = ch;
    record_outcome(&mut ch, &DownloadOutcome::Completed { exit_success: true });
    let finished = app.check_download(ch.is_done(), ch.succeeded(), ch.snapshot(), Vec::new());
    assert!(finished);
    assert_eq!(app.state, AppState::Done);
}
