use mpd_bot::store::{authorization_from_row, status_from_row, stored_params};
use mpd_bot::structs::MessageEntity;
use mpd_bot::telegram::{api_url, update_method};
use mpd_bot::text::decimal_string;
use mpd_bot::utils::{entity_fits_text, read_entity_from_text, CustomError};

fn entity(t: &str, offset: usize, length: usize) -> MessageEntity {
    MessageEntity { t: t.to_string(), offset, length }
}

#[test]
fn reads_ascii_entity() {
    let text = "/download http://example.org/a.mp3".to_string();
    assert_eq!(read_entity_from_text(&entity("bot_command", 0, 9), text.clone()), "/download");
    assert_eq!(read_entity_from_text(&entity("url", 10, 24), text), "http://example.org/a.mp3");
}

#[test]
fn reads_entity_after_multibyte_characters() {
    // "é" takes two bytes, so "/x" starts at byte 7.
    let text = "héllo /x".to_string();
    assert!(entity_fits_text(&entity("bot_command", 7, 2), &text));
    assert_eq!(read_entity_from_text(&entity("bot_command", 7, 2), text), "/x");
}

#[test]
fn reads_empty_entity_at_end() {
    let text = "abc".to_string();
    assert!(entity_fits_text(&entity("url", 3, 0), &text));
    assert_eq!(read_entity_from_text(&entity("url", 3, 0), text), "");
}

#[test]
fn rejects_entities_outside_text() {
    let text = "abc".to_string();
    assert!(!entity_fits_text(&entity("url", 2, 2), &text));
    assert!(!entity_fits_text(&entity("url", 4, 0), &text));
    assert!(!entity_fits_text(&entity("url", usize::MAX, 2), &text));
}

#[test]
fn rejects_entities_inside_a_character() {
    let text = "héllo".to_string();
    assert!(!entity_fits_text(&entity("url", 2, 1), &text));
    assert!(!entity_fits_text(&entity("url", 0, 2), &text));
    assert!(entity_fits_text(&entity("url", 0, 3), &text));
}

#[test]
fn custom_error_keeps_reason() {
    let e = CustomError::new("Chat 1 not authorized".to_string());
    assert_eq!(e.reason(), "Chat 1 not authorized");
}

#[test]
fn formats_decimals() {
    assert_eq!(decimal_string(0), "0");
    assert_eq!(decimal_string(42), "42");
    assert_eq!(decimal_string(-17), "-17");
    assert_eq!(decimal_string(1000000007), "1000000007");
    assert_eq!(decimal_string(i64::MAX), i64::MAX.to_string());
    assert_eq!(decimal_string(i64::MIN), i64::MIN.to_string());
}

#[test]
fn builds_api_urls() {
    assert_eq!(api_url("KEY", "getUpdates"), "https://api.telegram.org/botKEY/getUpdates");
    assert_eq!(update_method(None), "getUpdates");
    assert_eq!(update_method(Some(5)), "getUpdates?offset=6");
    assert_eq!(update_method(Some(-1)), "getUpdates?offset=0");
}

#[test]
fn unknown_chat_is_not_authorized() {
    let l = authorization_from_row(None);
    assert!(!l.authorized);
    assert!(l.register);
    let l = authorization_from_row(Some(true));
    assert!(l.authorized);
    assert!(!l.register);
    let l = authorization_from_row(Some(false));
    assert!(!l.authorized);
    assert!(!l.register);
}

#[test]
fn unknown_chat_waits_for_a_command() {
    let l = status_from_row(None);
    assert_eq!(l.status, "wait_for_command");
    assert_eq!(l.params, "");
    assert!(l.register);
    let l = status_from_row(Some(("wait_for_filename".to_string(), "http://a".to_string())));
    assert_eq!(l.status, "wait_for_filename");
    assert_eq!(l.params, "http://a");
    assert!(!l.register);
}

#[test]
fn stored_status_reads_back() {
    let p = stored_params(None);
    assert_eq!(p, "");
    let l = status_from_row(Some(("wait_for_command".to_string(), p)));
    assert_eq!(l.params, "");
    let p = stored_params(Some("http://b".to_string()));
    let l = status_from_row(Some(("download_wait_for_filename".to_string(), p)));
    assert_eq!(l.status, "download_wait_for_filename");
    assert_eq!(l.params, "http://b");
}
