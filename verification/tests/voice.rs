use exchange_backend::cabinet::{subscriber_profile, SubscriberProfile, VoiceStage};
use exchange_backend::protocol::{VoiceInputAudioMessage, VOICE_PROTOCOL_VERSION};
use exchange_backend::voice::{
    accept_reply, append_captured_samples, bounded_text, capture_peak, captured_audio_has_frames,
    captured_audio_has_signal, decode_chunked_body, fallback_response, http_response_body, names_callee,
    pocket_tts_voice, remember_dialogue, response_is_on_goal, stt_request_body, tts_request_body,
    wav_header, wav_samples, worker_request_head, accept_voice_chunk, voice_input_is_current, ChunkBuffer,
};
use std::collections::HashSet;

fn subscribers() -> [SubscriberProfile; 4] {
    [4101, 4102, 4103, 4104].map(|id| subscriber_profile(id).unwrap())
}

#[test]
fn every_subscriber_selects_a_distinct_pocket_tts_voice_profile() {
    let voice_urls = subscribers().map(|profile| {
        pocket_tts_voice(&profile).expect("subscriber has a usable Pocket TTS voice profile")
    });

    assert_eq!(
        subscribers().map(|profile| profile.local_voice_configuration),
        ["pocket-tts:anna", "pocket-tts:alba", "pocket-tts:charles", "pocket-tts:vera"]
    );
    assert_eq!(voice_urls, ["anna", "alba", "charles", "vera"]);
    assert_eq!(voice_urls.iter().collect::<HashSet<_>>().len(), 4);
}

#[test]
fn fixed_callers_only_accept_a_request_that_names_their_authoritative_callee() {
    let subscribers = subscribers();
    assert!(response_is_on_goal(
        &subscribers[0],
        "Operator, please put me through to Kharad Clinic right away."
    ));
    assert!(!response_is_on_goal(&subscribers[0], "Operator, I need help with my parent."));
    assert!(response_is_on_goal(
        &subscribers[2],
        "Connect Railway Dispatch to Steel Works before the rail window closes."
    ));
    assert!(response_is_on_goal(&subscribers[1], "Tell me the fever and when it began."));
}

#[test]
fn local_pipeline_mixes_all_cpal_input_channels_to_mono() {
    let mut samples = Vec::new();
    let level = append_captured_samples(&[0_i16, 1_000, 0, -1_000], &mut samples, true, 2);
    assert_eq!(samples, [500, -500]);
    assert_eq!(level, 1_000);
}

#[test]
fn local_pipeline_only_keeps_audio_while_ptt_is_active() {
    let mut samples = Vec::new();
    append_captured_samples(&[100_i16, 200], &mut samples, false, 1);
    append_captured_samples(&[300_i16, 400], &mut samples, true, 1);
    let level = append_captured_samples(&[500_i16, 600], &mut samples, false, 1);
    assert_eq!(samples, [300, 400]);
    assert_eq!(level, 600);
}

#[test]
fn local_pipeline_rejects_a_silent_microphone_segment_before_stt() {
    let result = captured_audio_has_signal(&[0, 16, -16]);
    assert_eq!(result.map_err(|error| error.stage()), Err(VoiceStage::Capture));
}

#[test]
fn local_pipeline_rejects_a_wav_header_without_microphone_frames() {
    let result = captured_audio_has_frames([0_u8; 44].len() as u64);
    assert_eq!(result.map_err(|error| error.stage()), Err(VoiceStage::Capture));
}

#[test]
fn local_http_client_decodes_chunked_tts_audio() {
    let response = b"HTTP/1.1 200 OK\r\nTransfer-Encoding: chunked\r\nContent-Type: audio/wav\r\n\r\n4\r\nRIFF\r\n4\r\nWAVE\r\n0\r\n\r\n";
    let body = http_response_body(VoiceStage::Tts, response)
        .expect("decode the local Pocket TTS response");
    assert_eq!(body, b"RIFFWAVE");
}

#[test]
fn peaks_and_silence() {
    assert_eq!(capture_peak(&[]), 0);
    assert_eq!(capture_peak(&[3, -32768, 12]), 32768);
    assert!(captured_audio_has_signal(&[0, 17]).is_ok());
    assert!(captured_audio_has_signal(&[-17]).is_ok());
    assert_eq!(
        captured_audio_has_signal(&[]).unwrap_err().message(),
        "MICROPHONE CAPTURED SILENCE: SPEAK INTO THE ACTIVE PIPEWIRE INPUT"
    );
    assert!(captured_audio_has_frames(45).is_ok());
    assert_eq!(captured_audio_has_frames(0).unwrap_err().message(), "MICROPHONE RECORDED NO AUDIO");
}

#[test]
fn mixing_rounds_toward_zero_and_keeps_a_short_last_frame() {
    let mut samples = vec![7];
    append_captured_samples(&[-5, 0, 1, 1, 1, 5, 9], &mut samples, true, 3);
    assert_eq!(samples, [7, -1, 2, 9]);
    let mut loud = Vec::new();
    append_captured_samples(&[-32768, -32768, 32767, 32767], &mut loud, true, 2);
    assert_eq!(loud, [-32768, 32767]);
}

#[test]
fn the_wav_header_describes_mono_sixteen_bit_audio() {
    let header = wav_header(16_000, 3).unwrap();
    let mut expected = Vec::new();
    expected.extend_from_slice(b"RIFF");
    expected.extend_from_slice(&42_u32.to_le_bytes());
    expected.extend_from_slice(b"WAVEfmt ");
    expected.extend_from_slice(&16_u32.to_le_bytes());
    expected.extend_from_slice(&1_u16.to_le_bytes());
    expected.extend_from_slice(&1_u16.to_le_bytes());
    expected.extend_from_slice(&16_000_u32.to_le_bytes());
    expected.extend_from_slice(&32_000_u32.to_le_bytes());
    expected.extend_from_slice(&2_u16.to_le_bytes());
    expected.extend_from_slice(&16_u16.to_le_bytes());
    expected.extend_from_slice(b"data");
    expected.extend_from_slice(&6_u32.to_le_bytes());
    assert_eq!(header, expected);
    assert_eq!(header.len(), 44);
    assert_eq!(wav_samples(&[1, -2, 0x1234]), vec![1, 0, 0xfe, 0xff, 0x34, 0x12]);
    let huge = wav_header(8_000, 3_000_000_000);
    assert_eq!(huge.unwrap_err().message(), "CAPTURE IS TOO LARGE TO WRITE");
    let fast = wav_header(u32::MAX, 0).unwrap();
    assert_eq!(&fast[28..32], &u32::MAX.to_le_bytes());
}

#[test]
fn worker_replies_must_be_successful_http() {
    assert_eq!(
        http_response_body(VoiceStage::Stt, b"HTTP/1.1 200 OK\r\nContent-Length: 2\r\n\r\n{}").unwrap(),
        b"{}"
    );
    assert_eq!(
        http_response_body(VoiceStage::Stt, b"HTTP/1.1 503 Busy\r\n\r\n").unwrap_err().message(),
        "LOCAL WORKER RETURNED HTTP 503"
    );
    assert_eq!(
        http_response_body(VoiceStage::Stt, b"HTTP/1.1\r\n\r\n").unwrap_err().message(),
        "LOCAL WORKER RETURNED HTTP UNKNOWN"
    );
    assert_eq!(
        http_response_body(VoiceStage::Dialogue, b"HTTP/1.1 200 OK\r\n").unwrap_err().message(),
        "LOCAL WORKER SENT AN INVALID HTTP RESPONSE"
    );
    let error = http_response_body(VoiceStage::Tts, b"HTTP/1.1 200 \xff\r\n\r\n").unwrap_err();
    assert_eq!(error.message(), "LOCAL WORKER SENT A NON-TEXT HTTP RESPONSE");
    assert_eq!(error.stage(), VoiceStage::Tts);
    assert_eq!(
        http_response_body(
            VoiceStage::Tts,
            b"HTTP/1.1 200 OK\r\ntransfer-encoding: gzip, CHUNKED\r\n\r\n3;x=1\r\nabc\r\n0\r\n\r\n"
        )
        .unwrap(),
        b"abc"
    );
}

#[test]
fn chunked_bodies_are_checked() {
    assert_eq!(decode_chunked_body(VoiceStage::Tts, b"a\r\n0123456789\r\n0\r\n\r\n").unwrap(), b"0123456789");
    assert_eq!(decode_chunked_body(VoiceStage::Tts, b"+2\r\nhi\r\n0\r\n").unwrap(), b"hi");
    assert_eq!(
        decode_chunked_body(VoiceStage::Tts, b"4\r\nRIFF").unwrap_err().message(),
        "LOCAL WORKER TRUNCATED A CHUNK"
    );
    assert_eq!(
        decode_chunked_body(VoiceStage::Tts, b"2\r\nhi!!").unwrap_err().message(),
        "LOCAL WORKER SENT AN INVALID CHUNK TERMINATOR"
    );
    assert_eq!(
        decode_chunked_body(VoiceStage::Tts, b"zz\r\n").unwrap_err().message(),
        "LOCAL WORKER SENT AN INVALID CHUNK SIZE"
    );
    assert_eq!(
        decode_chunked_body(VoiceStage::Tts, b"4").unwrap_err().message(),
        "LOCAL WORKER SENT AN INVALID CHUNK"
    );
}

#[test]
fn spoken_lines_are_cut_to_thirty_five_words() {
    assert_eq!(bounded_text("  hello \n  world  "), "hello world");
    assert_eq!(bounded_text(""), "");
    let long: Vec<String> = (0..40).map(|i| format!("w{i}")).collect();
    let cut = bounded_text(&long.join("   "));
    assert_eq!(cut, long[..35].join(" "));
}

#[test]
fn replies_off_goal_fall_back() {
    let nila = subscriber_profile(4101).unwrap();
    assert_eq!(
        accept_reply(&nila, "  Please connect KHARAD CLINIC now "),
        Some("Please connect KHARAD CLINIC now".to_string())
    );
    assert_eq!(accept_reply(&nila, "I am worried."), None);
    assert_eq!(accept_reply(&subscriber_profile(4102).unwrap(), "   "), None);
    assert_eq!(
        fallback_response(&nila),
        format!("Operator, please connect me. {}", nila.immediate_goal)
    );
}

#[test]
fn only_the_last_four_lines_of_dialogue_are_remembered() {
    let mut history = Vec::new();
    remember_dialogue(&mut history, "NILA DAS", "hello", "hi");
    assert_eq!(history, vec!["OPERATOR: hello".to_string(), "NILA DAS: hi".to_string()]);
    remember_dialogue(&mut history, "NILA DAS", "a", "b");
    remember_dialogue(&mut history, "NILA DAS", "c", "d");
    assert_eq!(
        history,
        vec![
            "OPERATOR: a".to_string(),
            "NILA DAS: b".to_string(),
            "OPERATOR: c".to_string(),
            "NILA DAS: d".to_string()
        ]
    );
}

#[test]
fn worker_requests_are_framed() {
    assert_eq!(
        worker_request_head("/tts", "9000", "text/plain", 12),
        "POST /tts HTTP/1.1\r\nHost: 127.0.0.1:9000\r\nContent-Type: text/plain\r\nContent-Length: 12\r\nConnection: close\r\n\r\n"
    );
    assert_eq!(
        tts_request_body("hi", "anna"),
        b"--north-neeladesh-mvp-tts\r\nContent-Disposition: form-data; name=\"text\"\r\n\r\nhi\r\n--north-neeladesh-mvp-tts\r\nContent-Disposition: form-data; name=\"voice_url\"\r\n\r\nanna\r\n--north-neeladesh-mvp-tts--\r\n".to_vec()
    );
    let stt = stt_request_body(b"RIFF");
    assert!(stt.starts_with(b"--north-neeladesh-mvp-stt\r\nContent-Disposition: form-data; name=\"file\"; filename=\"capture.wav\"\r\nContent-Type: audio/wav\r\n\r\nRIFF\r\n"));
    assert!(stt.ends_with(b"name=\"response_format\"\r\n\r\njson\r\n--north-neeladesh-mvp-stt--\r\n"));
}

#[test]
fn callees_are_found_anywhere_in_the_reply() {
    assert!(names_callee("please connect steel works now", "steel works"));
    assert!(!names_callee("please connect steel", "steel works"));
    assert!(names_callee("anything", ""));
    assert!(!names_callee("Steel Works", "steel works"));
}

fn chunk(index: u32, complete: bool, samples: &[i16]) -> VoiceInputAudioMessage {
    VoiceInputAudioMessage {
        protocol_version: VOICE_PROTOCOL_VERSION,
        session_id: 7,
        turn_id: 3,
        state_revision: 11,
        chunk_index: index,
        complete,
        samples: samples.to_vec(),
    }
}

#[test]
fn voice_chunks_are_gathered_in_order_and_handed_over_when_complete() {
    let mut buffer = ChunkBuffer { samples: vec![], next_chunk: 0 };
    assert_eq!(accept_voice_chunk(&mut buffer, &chunk(0, false, &[1, 2]), true), None);
    assert_eq!(accept_voice_chunk(&mut buffer, &chunk(2, false, &[9]), true), None);
    assert_eq!(buffer.samples, vec![1, 2]);
    assert_eq!(accept_voice_chunk(&mut buffer, &chunk(1, false, &[3]), false), None);
    assert_eq!(buffer.next_chunk, 1);
    let mut old_version = chunk(1, true, &[3]);
    old_version.protocol_version = VOICE_PROTOCOL_VERSION + 1;
    assert_eq!(accept_voice_chunk(&mut buffer, &old_version, true), None);
    assert_eq!(accept_voice_chunk(&mut buffer, &chunk(1, true, &[3]), true), Some(vec![1, 2, 3]));
    assert!(buffer.samples.is_empty());
    assert_eq!(buffer.next_chunk, 0);
    accept_voice_chunk(&mut buffer, &chunk(0, false, &[4]), true);
    assert_eq!(accept_voice_chunk(&mut buffer, &chunk(0, true, &[5]), true), Some(vec![5]));
}

#[test]
fn only_the_awaited_turn_is_current() {
    let input = chunk(0, false, &[]);
    assert!(voice_input_is_current(true, 7, 3, 11, false, &input));
    assert!(!voice_input_is_current(false, 7, 3, 11, false, &input));
    assert!(!voice_input_is_current(true, 8, 3, 11, false, &input));
    assert!(!voice_input_is_current(true, 7, 4, 11, false, &input));
    assert!(!voice_input_is_current(true, 7, 3, 12, false, &input));
    assert!(!voice_input_is_current(true, 7, 3, 11, true, &input));
}
