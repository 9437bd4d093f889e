use std::cell::RefCell;

use clap_mml_play_server::http::{
    content_type_is_midi, content_type_is_text, find_header_end, header_progress,
    read_request, route, serve_request, write_empty_response, write_text_response,
    played_response, stopped_response, Dispatch, HeaderProgress, Route, StatusCode, MAX_BODY_BYTES, MAX_HEADER_BYTES,
};

#[derive(Default)]
struct FakePlayer {
    plays: RefCell<Vec<Vec<u8>>>,
    mml_plays: RefCell<Vec<String>>,
    stops: RefCell<usize>,
    fail: bool,
}

impl FakePlayer {
    fn play_smf(&self, smf: Vec<u8>) -> Result<(), String> {
        if self.fail {
            return Err("player is gone".to_string());
        }
        self.plays.borrow_mut().push(smf);
        Ok(())
    }

    fn play_mml(&self, mml: String) -> Result<(), String> {
        self.mml_plays.borrow_mut().push(mml);
        Ok(())
    }

    fn stop(&self) -> Result<(), String> {
        if self.fail {
            return Err("player is gone".to_string());
        }
        *self.stops.borrow_mut() += 1;
        Ok(())
    }
}

fn serve(player: &FakePlayer, raw: &[u8]) -> String {
    let bytes = match serve_request(raw, MAX_BODY_BYTES) {
        Dispatch::Respond(bytes) => bytes,
        Dispatch::PlaySmf(smf) => played_response(player.play_smf(smf)),
        Dispatch::PlayMml(mml) => played_response(player.play_mml(mml)),
        Dispatch::Stop => stopped_response(player.stop()),
    };
    String::from_utf8(bytes).unwrap()
}

#[test]
fn read_request_accepts_health_get_without_content_length() {
    let raw = b"GET /health HTTP/1.1\r\nHost: 127.0.0.1\r\n\r\n";
    let request = read_request(raw, MAX_BODY_BYTES).unwrap();
    assert_eq!(request.method, "GET");
    assert_eq!(request.path, "/health");
    assert!(request.body.is_empty());
    assert_eq!(request.header("host"), Some("127.0.0.1"));
}

#[test]
fn read_request_preserves_binary_body_and_rejects_oversize() {
    let raw = b"POST /play HTTP/1.1\r\nContent-Type: audio/midi\r\nContent-Length: 4\r\n\r\n\x00\x01\x02\xff";
    let request = read_request(raw, 4).unwrap();
    assert_eq!(request.body, vec![0, 1, 2, 255]);
    let error = read_request(raw, 3).unwrap_err();
    assert!(matches!(error.status, StatusCode::PayloadTooLarge));
    assert_eq!(error.message, "request body is too large; limit is 3 bytes");
}

#[test]
fn header_names_are_lowercased_and_values_trimmed() {
    let raw = b"POST /stop HTTP/1.1\r\n  X-Thing :  a b  \r\nCONTENT-LENGTH: 0\r\n\r\n";
    let request = read_request(raw, MAX_BODY_BYTES).unwrap();
    assert_eq!(
        request.headers,
        vec![
            ("x-thing".to_string(), "a b".to_string()),
            ("content-length".to_string(), "0".to_string())
        ]
    );
}

#[test]
fn malformed_requests_get_bad_request() {
    for (raw, message) in [
        (&b"\r\n\r\n"[..], "missing request method"),
        (&b"GET\r\n\r\n"[..], "missing request path"),
        (&b"GET /health\r\n\r\n"[..], "missing HTTP version"),
        (&b"GET /health HTTP/1.1 extra\r\n\r\n"[..], "malformed request line"),
        (&b"GET /health HTTP/1.1\r\nno colon here\r\n\r\n"[..], "malformed request header"),
        (&b"POST /play HTTP/1.1\r\nContent-Length: four\r\n\r\n"[..], "invalid Content-Length"),
        (&b"POST /play HTTP/1.1\r\nContent-Length: 5\r\n\r\nabc"[..], "request ended before body was complete"),
        (&b"GET /health HTTP/1.1\r\nHost: \xff\r\n\r\n"[..], "request headers must be valid UTF-8"),
        (&b"GET /health HTTP/1.1\r\n"[..], "request ended before headers were complete"),
    ] {
        let error = read_request(raw, MAX_BODY_BYTES).unwrap_err();
        assert!(matches!(error.status, StatusCode::BadRequest), "{message}");
        assert_eq!(error.message, message);
        assert!(error.respond);
    }
}

#[test]
fn an_empty_connection_is_not_answered() {
    let error = read_request(b"", MAX_BODY_BYTES).unwrap_err();
    assert!(!error.respond);
    assert_eq!(serve(&FakePlayer::default(), b""), "");
}

#[test]
fn headers_that_do_not_end_in_time_are_too_large() {
    let mut raw = b"GET /health HTTP/1.1\r\nX: ".to_vec();
    raw.resize(MAX_HEADER_BYTES + 10, b'a');
    raw.extend_from_slice(b"\r\n\r\n");
    let error = read_request(&raw, MAX_BODY_BYTES).unwrap_err();
    assert!(matches!(error.status, StatusCode::RequestHeaderFieldsTooLarge));
    assert!(matches!(header_progress(&raw[..MAX_HEADER_BYTES]), HeaderProgress::TooLarge));
    assert!(matches!(header_progress(b"GET"), HeaderProgress::NeedMore));
    assert!(matches!(header_progress(b"GET / HTTP/1.1\r\n\r\nxyz"), HeaderProgress::Complete(18)));
    assert_eq!(find_header_end(b"a\r\n\r\n"), Some(5));
}

#[test]
fn server_keeps_only_health_play_play_mml_and_stop_routes() {
    let player = FakePlayer::default();
    let health = serve(&player, b"GET /health HTTP/1.1\r\nHost: localhost\r\n\r\n");
    assert!(health.starts_with("HTTP/1.1 200 OK"));
    assert!(health.ends_with("\r\n\r\nok"));

    for removed in ["/midi", "/live-patch", "/live-patch-probe", "/live-buffer"] {
        let response = serve(
            &player,
            format!("POST {removed} HTTP/1.1\r\nContent-Length: 0\r\n\r\n").as_bytes(),
        );
        assert!(response.starts_with("HTTP/1.1 404 Not Found"));
    }
    let wrong_method = serve(&player, b"GET /play HTTP/1.1\r\n\r\n");
    assert!(wrong_method.starts_with("HTTP/1.1 405 Method Not Allowed"));
    assert_eq!(route("DELETE", "/stop"), Route::MethodNotAllowed);
    assert_eq!(route("POST", "/play-mml"), Route::PlayMml);
}

#[test]
fn server_dispatches_play_play_mml_and_stop() {
    let player = FakePlayer::default();
    let play = serve(
        &player,
        b"POST /play HTTP/1.1\r\nContent-Type: audio/midi\r\nContent-Length: 4\r\n\r\n\x00\x01\x02\xff",
    );
    assert!(play.starts_with("HTTP/1.1 202 Accepted"));
    assert_eq!(player.plays.borrow().as_slice(), &[vec![0, 1, 2, 255]]);

    let play_mml = serve(
        &player,
        b"POST /play-mml HTTP/1.1\r\nContent-Type: text/plain\r\nContent-Length: 3\r\n\r\ncde",
    );
    assert!(play_mml.starts_with("HTTP/1.1 202 Accepted"));
    assert_eq!(player.mml_plays.borrow().as_slice(), &["cde"]);

    let stop = serve(&player, b"POST /stop HTTP/1.1\r\nContent-Length: 0\r\n\r\n");
    assert!(stop.starts_with("HTTP/1.1 204 No Content"));
    assert_eq!(*player.stops.borrow(), 1);
}

#[test]
fn play_requests_need_a_length_and_a_midi_type() {
    let player = FakePlayer::default();
    let no_length = serve(&player, b"POST /play HTTP/1.1\r\nContent-Type: audio/midi\r\n\r\n");
    assert!(no_length.starts_with("HTTP/1.1 411 Length Required"));
    let wrong_type = serve(
        &player,
        b"POST /play HTTP/1.1\r\nContent-Type: text/plain\r\nContent-Length: 0\r\n\r\n",
    );
    assert!(wrong_type.starts_with("HTTP/1.1 415 Unsupported Media Type"));
    let bad_mml = serve(
        &player,
        b"POST /play-mml HTTP/1.1\r\nContent-Type: text/plain\r\nContent-Length: 1\r\n\r\n\xff",
    );
    assert!(bad_mml.starts_with("HTTP/1.1 400 Bad Request"));
    assert!(player.plays.borrow().is_empty());
}

#[test]
fn player_errors_become_internal_server_errors() {
    let player = FakePlayer { fail: true, ..Default::default() };
    let stop = serve(&player, b"POST /stop HTTP/1.1\r\n\r\n");
    assert!(stop.starts_with("HTTP/1.1 500 Internal Server Error"));
    assert!(stop.ends_with("player is gone"));
}

#[test]
fn content_types_are_case_insensitive_and_allow_parameters() {
    assert!(content_type_is_midi("Audio/Midi"));
    assert!(content_type_is_midi("audio/x-midi; charset=binary"));
    assert!(content_type_is_text("Text/Plain; charset=utf-8"));
    assert!(!content_type_is_text("application/json"));
    assert!(content_type_is_midi(" application/octet-stream "));
    assert!(!content_type_is_midi("audio/mpeg"));
}

#[test]
fn write_empty_response_uses_zero_content_length() {
    let mut response = Vec::new();
    write_empty_response(&mut response, StatusCode::NoContent);
    let response = String::from_utf8(response).unwrap();
    assert!(response.starts_with("HTTP/1.1 204 No Content\r\n"));
    assert!(response.contains("Content-Length: 0\r\n"));
}

#[test]
fn text_responses_carry_their_type_and_length() {
    let mut response = Vec::new();
    write_text_response(&mut response, StatusCode::Accepted, "accepted");
    assert_eq!(
        String::from_utf8(response).unwrap(),
        "HTTP/1.1 202 Accepted\r\nContent-Type: text/plain; charset=utf-8\r\nContent-Length: 8\r\nConnection: close\r\n\r\naccepted"
    );
}
