use serde_json::Value;
use spotty::lms::{
    bool_from_int, event_of_mode, event_of_track, make_play_id, LMSEvent, PlayerStatus,
    PlayerStatusResult, PostRequest, LMS,
};

fn text(s: &str) -> Option<String> {
    Some(s.to_string())
}

fn status(mode: &str, remote_meta: &str) -> PlayerStatus {
    PlayerStatus {
        result: PlayerStatusResult {
            can_seek: true,
            current_title: String::new(),
            digital_volume_control: 0,
            mode: mode.to_string(),
            mixer_volume: 50,
            player_connected: true,
            playlist_cur_index: "0".to_string(),
            playlist_mode: "off".to_string(),
            playlist_repeat: false,
            playlist_shuffle: false,
            playlist_tracks: 1,
            power: 1,
            remote: true,
            remote_meta: serde_json::from_str::<Value>(remote_meta).unwrap(),
            seq_no: "0".to_string(),
            signalstrength: 0,
            position_ms: 12345,
        },
        id: 1,
        method: "slim.request".to_string(),
    }
}

fn headers(request: &PostRequest) -> (Option<&str>, &str, &str, u64) {
    (
        request.authorization.as_deref(),
        request.scanner.as_str(),
        request.content_type.as_str(),
        request.content_length,
    )
}

#[test]
fn configured_only_with_a_player() {
    assert!(!LMS::new(None, None, None).is_configured());
    assert!(!LMS::new(text("lms:9000"), None, text("secret")).is_configured());
    assert!(LMS::new(None, text("00:11:22:33:44:55"), None).is_configured());
}

#[test]
fn command_request_to_the_default_host() {
    let lms = LMS::new(None, text("00:11:22:33:44:55"), None);
    let request = lms.send_command("[\"spottyconnect\",\"start\"]").unwrap();
    assert_eq!(request.uri.as_ref(), "http://localhost:9000/jsonrpc.js");
    assert_eq!(
        request.body,
        "{\"id\": 1,\"method\":\"slim.request\",\"params\":[\"00:11:22:33:44:55\",[\"spottyconnect\",\"start\"]]}"
    );
    assert_eq!(headers(&request), (None, "1", "application/json", request.body.len() as u64));
    assert_eq!(request.content_length, 90);
}

#[test]
fn command_request_with_credentials() {
    let lms = LMS::new(text("lms.local:9001"), text("aa"), text("dXNlcjpwYXNz"));
    let request = lms.send_command("[]").unwrap();
    assert_eq!(request.uri.as_ref(), "http://lms.local:9001/jsonrpc.js");
    assert_eq!(request.authorization.as_deref(), Some("Basic dXNlcjpwYXNz"));
}

#[test]
fn no_command_request_without_a_player() {
    assert!(LMS::new(None, None, None).send_command("[]").is_none());
    // Without a player the address does not matter.
    assert!(LMS::new(text(""), None, None).send_command("[]").is_none());
}

#[test]
fn content_length_counts_bytes() {
    let lms = LMS::new(None, text("aa"), None);
    let request = lms.send_command("[\"\u{e9}\"]").unwrap();
    assert_eq!(request.content_length, request.body.len() as u64);
    assert_eq!(request.content_length, request.body.chars().count() as u64 + 1);
}

#[test]
fn different_commands_have_different_bodies() {
    let lms = LMS::new(None, text("aa"), None);
    let start = lms.send_command("[\"spottyconnect\",\"start\"]").unwrap();
    let stop = lms.send_command("[\"spottyconnect\",\"stop\"]").unwrap();
    assert_ne!(start.body, stop.body);
}

#[test]
fn addressable_hosts() {
    for host in ["localhost", "lms:9000", "10.0.0.2:9000", "[::1]:9000", "host/path", "host?x"] {
        assert!(LMS::new(text(host), None, None).is_addressable(), "{}", host);
    }
    for host in ["", "/path", "?x", "#x", "[::1:9000", "::1]:9000"] {
        assert!(!LMS::new(text(host), None, None).is_addressable(), "{}", host);
    }
    assert!(LMS::new(None, None, None).is_addressable());
}

#[test]
fn a_missing_path_gets_a_slash() {
    let lms = LMS::new(text("host?x"), text("aa"), None);
    let request = lms.send_command("[]").unwrap();
    assert_eq!(request.uri.as_ref(), "http://host/?x/jsonrpc.js");
}

#[test]
fn status_request() {
    let mut lms = LMS::new(None, text("00:11:22:33:44:55"), text("abc"));
    let request = lms.poll_state().unwrap();
    assert_eq!(request.uri.as_ref(), "http://localhost:9000/jsonrpc.js");
    assert_eq!(
        request.body,
        "{\"id\":1,\"method\":\"slim.request\",\"params\":[\"00:11:22:33:44:55\",[\"status\",\"-\",1,\"tags:gABbehldiqtyrSuoKLNu\"]]}"
    );
    assert_eq!(
        headers(&request),
        (Some("Basic abc"), "1", "application/json", request.body.len() as u64)
    );
}

#[test]
fn status_request_without_a_player() {
    let request = LMS::new(None, None, None).poll_state().unwrap();
    assert_eq!(
        request.body,
        "{\"id\":1,\"method\":\"slim.request\",\"params\":[null,[\"status\",\"-\",1,\"tags:gABbehldiqtyrSuoKLNu\"]]}"
    );
}

#[test]
fn status_request_escapes_the_player() {
    let mut lms = LMS::new(None, text("a\"b\\c\n\r\t\u{8}\u{c}\u{1}\u{1f}\u{e9}/"), None);
    let request = lms.poll_state().unwrap();
    assert_eq!(
        request.body,
        "{\"id\":1,\"method\":\"slim.request\",\"params\":[\"a\\\"b\\\\c\\n\\r\\t\\b\\f\\u0001\\u001f\u{e9}/\",[\"status\",\"-\",1,\"tags:gABbehldiqtyrSuoKLNu\"]]}"
    );
}

#[test]
fn a_copy_posts_the_same() {
    let lms = LMS::new(text("lms"), text("aa"), text("bb"));
    let copy = lms.clone();
    let (a, b) = (lms.send_command("[]").unwrap(), copy.send_command("[]").unwrap());
    assert_eq!(a.uri, b.uri);
    assert_eq!(a.body, b.body);
    assert_eq!(a.authorization, b.authorization);
}

#[test]
fn play_id_is_the_digest_of_the_metadata() {
    let id = make_play_id(
        &"\"Artist\"".to_string(),
        &"\"Album\"".to_string(),
        &"\"Title\"".to_string(),
    );
    assert_eq!(id, "edaac863b12fabfc05cd10d2e9819cf44fdb4849");
}

#[test]
fn playing_status() {
    let meta = "{\"artist\":\"Artist\",\"album\":\"Album\",\"title\":\"Title\"}";
    match status("play", meta).event() {
        Some(LMSEvent::Playing { position_ms, play_id }) => {
            assert_eq!(position_ms, 12345);
            assert_eq!(play_id, "edaac863b12fabfc05cd10d2e9819cf44fdb4849");
        }
        _ => panic!("not playing"),
    }
}

#[test]
fn paused_status_with_little_metadata() {
    match status("pause", "{\"title\":\"Title\"}").event() {
        Some(LMSEvent::Paused { position_ms, play_id }) => {
            assert_eq!(position_ms, 12345);
            assert_eq!(play_id, "440f46016e385aa401d14691b404d917156f6933");
        }
        _ => panic!("not paused"),
    }
}

#[test]
fn stopped_status() {
    assert!(matches!(status("stop", "{\"title\":\"Title\"}").event(), Some(LMSEvent::Stopped)));
}

#[test]
fn no_event_in_an_unknown_mode() {
    assert!(status("rewind", "{\"title\":\"Title\"}").event().is_none());
    assert!(event_of_mode(&"Play".to_string(), 0, String::new()).is_none());
}

#[test]
fn no_event_without_a_title() {
    for meta in ["{}", "{\"title\":null}", "null", "[]", "\"title\""] {
        assert!(status("play", meta).event().is_none(), "{}", meta);
    }
    let none = "null".to_string();
    assert!(event_of_track(&"stop".to_string(), 0, &none, &none, &none).is_none());
}

#[test]
fn a_title_may_be_called_null() {
    assert!(status("play", "{\"title\":\"null\"}").event().is_some());
}

#[test]
fn flags_are_zero_or_one() {
    assert!(matches!(bool_from_int(0), Ok(false)));
    assert!(matches!(bool_from_int(1), Ok(true)));
    match bool_from_int(2) {
        Err(error) => {
            assert_eq!(error.unexpected, 2);
            assert_eq!(error.expected, "zero or one");
        }
        Ok(_) => panic!("no flag"),
    }
    assert!(matches!(bool_from_int(255), Err(error) if error.unexpected == 255));
}
