use mpd_bot::handler::{
    authorize, cancel, download, filename, start, step, step_reads_in_text, url, Action, Event, UpdateError,
    UpdateState,
};
use mpd_bot::structs::{Chat, Message, MessageEntity, Update};

/// How the outside world answers, for one update.
struct World {
    authorized: bool,
    status: (&'static str, &'static str),
    download: Result<(), &'static str>,
}

fn describe(a: &Action) -> String {
    match a {
        Action::CheckAuthorization { chat_id } => format!("check {}", chat_id),
        Action::LoadStatus { chat_id } => format!("load {}", chat_id),
        Action::StoreStatus { chat_id, status, params } => format!("store {} {} {:?}", chat_id, status, params),
        Action::SendMessage { chat_id, text } => format!("send {} {}", chat_id, text),
        Action::DownloadFile { url, filename } => format!("download {} {}", url, filename),
        Action::Finish(Ok(())) => "ok".to_string(),
        Action::Finish(Err(e)) => format!("error {}", e.describe()),
    }
}

fn run(update: Update, world: &World) -> Vec<String> {
    let (mut state, mut action) = start(update);
    let mut log = Vec::new();
    loop {
        log.push(describe(&action));
        let event = match &action {
            Action::CheckAuthorization { .. } => Event::Authorization(world.authorized),
            Action::LoadStatus { .. } => Event::ChatStatus {
                status: world.status.0.to_string(),
                params: world.status.1.to_string(),
            },
            Action::StoreStatus { .. } | Action::SendMessage { .. } => Event::Completed,
            Action::DownloadFile { .. } => Event::DownloadFinished(world.download.map_err(|e| e.to_string())),
            Action::Finish(_) => break,
        };
        assert!(step_reads_in_text(&state, &event));
        let (s, a) = step(state, event);
        state = s;
        action = a;
    }
    assert!(matches!(state, UpdateState::Finished));
    log
}

fn entity(t: &str, offset: usize, length: usize) -> MessageEntity {
    MessageEntity { t: t.to_string(), offset, length }
}

fn update(chat_id: i64, text: Option<&str>, entities: Option<Vec<MessageEntity>>) -> Update {
    Update {
        update_id: 1,
        message: Some(Message {
            text: text.map(|t| t.to_string()),
            chat: Chat { id: chat_id, first_name: None, last_name: None },
            entities,
        }),
    }
}

fn world(status: &'static str, params: &'static str) -> World {
    World { authorized: true, status: (status, params), download: Ok(()) }
}

#[test]
fn update_without_message_fails() {
    let log = run(Update { update_id: 3, message: None }, &world("wait_for_command", ""));
    assert_eq!(log, vec!["error No message found"]);
}

#[test]
fn unauthorized_chat_gets_only_the_notice() {
    let w = World { authorized: false, status: ("wait_for_command", ""), download: Ok(()) };
    let log = run(update(-42, Some("/cancel"), Some(vec![entity("bot_command", 0, 7)])), &w);
    assert_eq!(log, vec![
        "check -42",
        "send -42 Your chat is not authorized (#-42)",
        "error Chat -42 not authorized",
    ]);
}

#[test]
fn message_without_text_fails() {
    let log = run(update(7, None, None), &world("wait_for_command", ""));
    assert_eq!(log, vec!["check 7", "error no text found"]);
}

#[test]
fn cancel_resets_whatever_the_status() {
    let log = run(
        update(7, Some("/start /cancel"), Some(vec![entity("bot_command", 0, 6), entity("bot_command", 7, 7)])),
        &world("wait_for_filename", "http://a"),
    );
    assert_eq!(log, vec![
        "check 7",
        "store 7 wait_for_command None",
        "send 7 Task cancelled",
        "ok",
    ]);
}

#[test]
fn cancel_as_plain_text_is_not_a_command() {
    let log = run(update(7, Some("/cancel"), Some(vec![entity("url", 0, 7)])), &world("nothing", ""));
    assert_eq!(log, vec!["check 7", "load 7", "send 7 I don't get what you mean", "ok"]);
}

#[test]
fn download_with_url_asks_for_file_name() {
    let text = "/download http://example.org/song.mp3";
    let log = run(
        update(7, Some(text), Some(vec![entity("bot_command", 0, 9), entity("url", 10, 27)])),
        &world("wait_for_command", ""),
    );
    assert_eq!(log, vec![
        "check 7",
        "load 7",
        "store 7 download_wait_for_filename Some(\"http://example.org/song.mp3\")",
        "send 7 What's the filename ?",
        "ok",
    ]);
}

#[test]
fn download_without_url_asks_for_url() {
    let log = run(update(7, Some("/download"), Some(vec![entity("bot_command", 0, 9)])), &world("wait_for_command", ""));
    assert_eq!(log, vec![
        "check 7",
        "load 7",
        "store 7 download_wait_for_url None",
        "send 7 Give me the URL",
        "ok",
    ]);
}

#[test]
fn unknown_command_is_reported() {
    let log = run(update(7, Some("/play now"), Some(vec![entity("bot_command", 0, 5)])), &world("wait_for_command", ""));
    assert_eq!(log, vec!["check 7", "load 7", "send 7 Command /play doesn't exist", "ok"]);
}

#[test]
fn authorize_command_does_nothing() {
    let log = run(update(7, Some("/authorize 12"), Some(vec![entity("bot_command", 0, 10)])), &world("wait_for_command", ""));
    assert_eq!(log, vec!["check 7", "load 7", "ok"]);
}

#[test]
fn entities_without_command_fail() {
    let log = run(update(7, Some("http://x"), Some(vec![entity("url", 0, 8)])), &world("wait_for_command", ""));
    assert_eq!(log, vec!["check 7", "load 7", "error Waiting for a command"]);
}

#[test]
fn plain_text_is_not_understood() {
    let log = run(update(7, Some("hello"), None), &world("wait_for_command", ""));
    assert_eq!(log, vec!["check 7", "load 7", "send 7 I don't get what you mean", "ok"]);
}

#[test]
fn url_is_kept_when_waiting_for_one() {
    let log = run(update(7, Some("see http://a.b/c"), Some(vec![entity("url", 4, 12)])), &world("wait_for_url", ""));
    assert_eq!(log, vec![
        "check 7",
        "load 7",
        "store 7 download_wait_for_filename Some(\"http://a.b/c\")",
        "send 7 What's the filename ?",
        "ok",
    ]);
}

#[test]
fn missing_url_is_reported() {
    let expected = vec!["check 7", "load 7", "send 7 I can't recognize any URL, please try again or /cancel", "ok"];
    assert_eq!(run(update(7, Some("no link"), None), &world("wait_for_url", "")), expected);
    assert_eq!(
        run(update(7, Some("/x"), Some(vec![entity("bot_command", 0, 2)])), &world("wait_for_url", "")),
        expected
    );
}

#[test]
fn file_name_starts_the_download() {
    let log = run(update(7, Some("song.mp3"), None), &world("wait_for_filename", "http://a.b/c"));
    assert_eq!(log, vec![
        "check 7",
        "load 7",
        "send 7 Downloading song.mp3",
        "store 7 download_wait_for_command None",
        "download http://a.b/c song.mp3",
        "send 7 song.mp3 downloaded",
        "ok",
    ]);
}

#[test]
fn failed_download_is_reported() {
    let w = World { authorized: true, status: ("wait_for_filename", "http://a.b/c"), download: Err("404 Not Found") };
    let log = run(update(7, Some("song.mp3"), None), &w);
    assert_eq!(log[5], "send 7 cannot download 404 Not Found");
    assert_eq!(log[6], "ok");
}

#[test]
fn status_written_by_download_is_not_dispatched() {
    let log = run(update(7, Some("http://a.b"), Some(vec![entity("url", 0, 10)])), &world("download_wait_for_url", ""));
    assert_eq!(log, vec!["check 7", "load 7", "send 7 I don't get what you mean", "ok"]);
}

#[test]
fn out_of_range_command_is_detected_before_the_step() {
    let (state, _) = start(update(7, Some("/x"), Some(vec![entity("bot_command", 0, 9)])));
    assert!(!step_reads_in_text(&state, &Event::Authorization(true)));
    assert!(step_reads_in_text(&state, &Event::Authorization(false)));
    // a /cancel found first stops the search before the broken entity
    let (state, _) = start(update(
        7,
        Some("/cancel"),
        Some(vec![entity("bot_command", 0, 7), entity("bot_command", 5, 9)]),
    ));
    assert!(step_reads_in_text(&state, &Event::Authorization(true)));
}

#[test]
fn describes_errors() {
    assert_eq!(UpdateError::NoMessage.describe(), "No message found");
    assert_eq!(UpdateError::NoText.describe(), "no text found");
    assert_eq!(UpdateError::NoCommand.describe(), "Waiting for a command");
}

#[test]
fn command_handlers_called_directly() {
    match cancel(9) {
        (UpdateState::Replying { chat_id: 9, pending }, Action::StoreStatus { chat_id: 9, status, params: None }) => {
            assert_eq!(status, "wait_for_command");
            assert_eq!(pending.len(), 2);
            assert!(matches!(&pending[0], Action::SendMessage { chat_id: 9, text } if text == "Task cancelled"));
            assert!(matches!(&pending[1], Action::Finish(Ok(()))));
        }
        _ => panic!("unexpected cancel"),
    }
    assert!(matches!(authorize(9, "/authorize 5".to_string()), (UpdateState::Finished, Action::Finish(Ok(())))));
    let text = "/download ftp://x".to_string();
    let es = vec![entity("bot_command", 0, 9), entity("url", 10, 7)];
    match download(9, &es, &text) {
        (_, Action::StoreStatus { status, params: Some(p), .. }) => {
            assert_eq!(status, "download_wait_for_filename");
            assert_eq!(p, "ftp://x");
        }
        _ => panic!("unexpected download"),
    }
    match url(9, "nothing".to_string(), Some(vec![])) {
        (_, Action::SendMessage { text, .. }) => assert_eq!(text, "I can't recognize any URL, please try again or /cancel"),
        _ => panic!("unexpected url"),
    }
    match filename(9, "a.ogg".to_string(), "http://h/a".to_string()) {
        (UpdateState::Replying { pending, .. }, Action::SendMessage { text, .. }) => {
            assert_eq!(text, "Downloading a.ogg");
            assert!(matches!(&pending[1], Action::DownloadFile { url, filename } if url == "http://h/a" && filename == "a.ogg"));
        }
        _ => panic!("unexpected filename"),
    }
}
