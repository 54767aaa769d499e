use exchange_backend::debug_http::{
    error_response_bytes, find_head_end, http_audio_response, http_error, http_response, parse_request_head,
    parse_voice_audio_path, route_request, voice_audio_file_matches, HttpRoute, RequestHeadError,
    UiCommand,
};
use exchange_backend::protocol::{DebugAudioKind, DebugCommand};

#[test]
fn voice_audio_paths_are_strictly_parsed() {
    assert_eq!(
        parse_voice_audio_path("/api/voice/12/capture.wav"),
        Some((12, DebugAudioKind::Capture))
    );
    assert_eq!(
        parse_voice_audio_path("/api/voice/12/tts.wav"),
        Some((12, DebugAudioKind::Tts))
    );
    assert_eq!(parse_voice_audio_path("/api/voice/12/other.wav"), None);
}

#[test]
fn voice_audio_paths_need_exactly_an_identifier_and_a_file() {
    assert_eq!(parse_voice_audio_path("/api/voice/12/tts.wav/more"), None);
    assert_eq!(parse_voice_audio_path("/api/voice/twelve/tts.wav"), None);
    assert_eq!(parse_voice_audio_path("/api/voice/12"), None);
    assert_eq!(parse_voice_audio_path("/api/voices/12/tts.wav"), None);
    assert_eq!(parse_voice_audio_path("/api/voice//tts.wav"), None);
    assert_eq!(parse_voice_audio_path("/api/voice/+7/tts.wav"), Some((7, DebugAudioKind::Tts)));
    assert_eq!(
        parse_voice_audio_path("/api/voice/18446744073709551615/capture.wav"),
        Some((u64::MAX, DebugAudioKind::Capture))
    );
    assert_eq!(parse_voice_audio_path("/api/voice/18446744073709551616/capture.wav"), None);
}

#[test]
fn requests_reach_their_handlers() {
    assert_eq!(route_request("GET", "/"), HttpRoute::Index);
    assert_eq!(route_request("GET", "/api/snapshot"), HttpRoute::Snapshot);
    assert_eq!(route_request("GET", "/api/voice/3/tts.wav"), HttpRoute::VoiceAudio);
    assert_eq!(route_request("POST", "/api/command"), HttpRoute::Command);
    assert_eq!(route_request("POST", "/"), HttpRoute::NotFound);
    assert_eq!(route_request("GET", "/api/command"), HttpRoute::NotFound);
    assert_eq!(route_request("DELETE", "/api/snapshot"), HttpRoute::NotFound);
}

#[test]
fn recordings_are_found_by_conversation_and_kind() {
    assert!(voice_audio_file_matches("capture-12-session-4.wav", 12, DebugAudioKind::Capture));
    assert!(voice_audio_file_matches("tts-12-session-.wav", 12, DebugAudioKind::Tts));
    assert!(!voice_audio_file_matches("tts-12-session-4.wav", 12, DebugAudioKind::Capture));
    assert!(!voice_audio_file_matches("capture-123-session-4.wav", 12, DebugAudioKind::Capture));
    assert!(!voice_audio_file_matches("capture-12-session-4.mp3", 12, DebugAudioKind::Capture));
}

fn ui(action: &str) -> UiCommand {
    UiCommand {
        action: action.to_string(),
        seconds: None,
        caller_line: None,
        callee_line: None,
        enabled: None,
    }
}

#[test]
fn posted_commands_become_backend_commands() {
    assert_eq!(ui("snapshot").into_debug_command(), Ok(DebugCommand::Snapshot));
    assert_eq!(ui("reset").into_debug_command(), Ok(DebugCommand::ResetRun));
    let mut advance = ui("advance_time");
    advance.seconds = Some(30);
    assert_eq!(advance.into_debug_command(), Ok(DebugCommand::AdvanceTime { seconds: 30 }));
    let mut inject = ui("inject_call");
    inject.caller_line = Some(2);
    inject.callee_line = Some(5);
    assert_eq!(
        inject.into_debug_command(),
        Ok(DebugCommand::InjectCall { caller_line: 2, callee_line: 5 })
    );
    let mut godmode = ui("godmode");
    godmode.enabled = Some(true);
    assert_eq!(godmode.into_debug_command(), Ok(DebugCommand::SetGodmode { enabled: true }));
    let mut bypass = ui("bypass_restrictions");
    bypass.enabled = Some(false);
    assert_eq!(
        bypass.into_debug_command(),
        Ok(DebugCommand::SetBypassRestrictions { enabled: false })
    );
}

#[test]
fn posted_commands_without_their_fields_are_refused() {
    assert_eq!(ui("advance_time").into_debug_command(), Err("seconds is required".to_string()));
    assert_eq!(ui("inject_call").into_debug_command(), Err("caller_line is required".to_string()));
    let mut inject = ui("inject_call");
    inject.caller_line = Some(2);
    assert_eq!(inject.into_debug_command(), Err("callee_line is required".to_string()));
    assert_eq!(ui("godmode").into_debug_command(), Err("enabled is required".to_string()));
    assert_eq!(
        ui("bypass_restrictions").into_debug_command(),
        Err("enabled is required".to_string())
    );
    assert_eq!(ui("launch").into_debug_command(), Err("unknown action launch".to_string()));
}

#[test]
fn responses_carry_their_length_and_body() {
    assert_eq!(
        http_response("text/plain", b"hi"),
        b"HTTP/1.1 200 OK\r\nContent-Type: text/plain\r\nContent-Length: 2\r\nConnection: close\r\nAccess-Control-Allow-Origin: *\r\n\r\nhi".to_vec()
    );
    assert_eq!(
        http_audio_response("audio/wav", &[1, 2, 3]),
        [
            b"HTTP/1.1 200 OK\r\nContent-Type: audio/wav\r\nContent-Length: 3\r\nContent-Disposition: inline\r\nCache-Control: no-store\r\nConnection: close\r\n\r\n".to_vec(),
            vec![1, 2, 3]
        ]
        .concat()
    );
}

#[test]
fn errors_are_json_with_their_reason() {
    assert_eq!(
        http_error(404, "not found"),
        b"HTTP/1.1 404 Not Found\r\nContent-Type: application/json\r\nContent-Length: 21\r\nConnection: close\r\n\r\n{\"error\":\"not found\"}".to_vec()
    );
    assert_eq!(
        http_error(500, "say \"hi\""),
        b"HTTP/1.1 500 Internal Server Error\r\nContent-Type: application/json\r\nContent-Length: 22\r\nConnection: close\r\n\r\n{\"error\":\"say \\\"hi\\\"\"}".to_vec()
    );
    let bad = http_error(400, "é");
    assert!(bad.starts_with(b"HTTP/1.1 400 Bad Request\r\n"));
    assert!(bad.ends_with("{\"error\":\"é\"}".as_bytes()));
    assert!(String::from_utf8(http_error(502, "down")).unwrap().contains("502 Bad Gateway\r\n"));
}

#[test]
fn request_heads_give_method_path_and_body_length() {
    let head = parse_request_head(
        "POST /api/command HTTP/1.1\r\nHost: localhost\r\nContent-Length:  17 \r\n\r\n",
    )
    .unwrap();
    assert_eq!(head.method, "POST");
    assert_eq!(head.path, "/api/command");
    assert_eq!(head.content_length, 17);

    let head = parse_request_head("GET   /  HTTP/1.1\r\n\r\n").unwrap();
    assert_eq!(head.method, "GET");
    assert_eq!(head.path, "/");
    assert_eq!(head.content_length, 0);

    let head = parse_request_head("\r\n\r\n").unwrap();
    assert_eq!(head.method, "");
    assert_eq!(head.path, "");
}

#[test]
fn the_first_content_length_decides() {
    let head = parse_request_head(
        "POST / HTTP/1.1\r\nContent-Length: 4\r\nContent-Length: 9\r\n\r\n",
    )
    .unwrap();
    assert_eq!(head.content_length, 4);
    assert_eq!(
        parse_request_head("POST / HTTP/1.1\r\nContent-Length: four\r\n\r\n").err(),
        Some(RequestHeadError::InvalidContentLength)
    );
    assert_eq!(RequestHeadError::InvalidContentLength.message(), "invalid Content-Length");
}

#[test]
fn heads_end_after_the_first_blank_line() {
    assert_eq!(find_head_end(b"GET / HTTP/1.1\r\n\r\nbody\r\n\r\n"), Some(18));
    assert_eq!(find_head_end(b"GET / HTTP/1.1\r\n"), None);
    assert_eq!(find_head_end(b"\r\n\r"), None);
    assert_eq!(find_head_end(b"\r\n\r\n"), Some(4));
}

#[test]
fn error_bodies_wrap_the_quoted_message() {
    assert_eq!(
        error_response_bytes(502, "\"down\""),
        b"HTTP/1.1 502 Bad Gateway\r\nContent-Type: application/json\r\nContent-Length: 16\r\nConnection: close\r\n\r\n{\"error\":\"down\"}".to_vec()
    );
    assert_eq!(http_error(502, "down"), error_response_bytes(502, "\"down\""));
}

#[test]
fn error_messages_are_escaped_as_json_strings() {
    let response = http_error(400, "a\"b\\c\nd\u{1}");
    let text = String::from_utf8(response).unwrap();
    assert!(text.ends_with("{\"error\":\"a\\\"b\\\\c\\nd\\u0001\"}"));
}
