use flowlocal::ipc::bridge::{
    audio_chunk_msg, audio_end_msg, clean_text_msg, clean_text_reply, command_reply, connect_step,
    context_reply, execute_command_msg, health_step, is_pong, resets_connection,
    retrieve_context_msg, store_correction_msg, transcript_step, try_recv_partial, ConnectStep,
    HealthStep, ServiceReplyError, TranscriptStep,
};
use flowlocal::ipc::protocol::{
    frame_payload, frame_payload_len, split_frame, FrameError, InboundMsg, OutboundMsg,
};
use flowlocal::settings::CleanupAggressiveness;
use flowlocal::text_map::TextMap;

#[test]
fn ping_json_is_framed_with_its_length() {
    let payload = br#"{"type":"ping"}"#;
    let frame = frame_payload(payload).expect("Failed to encode");

    assert!(frame.len() > 4);
    let len_bytes: [u8; 4] = frame[0..4].try_into().unwrap();
    let len = u32::from_le_bytes(len_bytes) as usize;
    assert_eq!(len, frame.len() - 4);

    let json_str = std::str::from_utf8(&frame[4..]).unwrap();
    assert_eq!(json_str, r#"{"type":"ping"}"#);
}

#[test]
fn pong_json_unframes_to_its_payload() {
    let json = r#"{"type":"pong","service":"whisper"}"#;
    let frame = frame_payload(json.as_bytes()).expect("Failed to encode");
    let (payload, used) = split_frame(&frame).expect("Failed to decode");
    assert_eq!(used, frame.len());
    let value: serde_json::Value = serde_json::from_slice(&payload).expect("Failed to decode");
    assert_eq!(value.get("type").and_then(|v| v.as_str()), Some("pong"));
    assert_eq!(value.get("service").and_then(|v| v.as_str()), Some("whisper"));
}

#[test]
fn frame_prefix_is_little_endian_length() {
    let payload = vec![7u8; 300];
    let frame = frame_payload(&payload).unwrap();
    assert_eq!(&frame[0..4], &[44, 1, 0, 0]);
    assert_eq!(frame_payload_len([44, 1, 0, 0]), 300);
    assert_eq!(frame_payload_len([0x01, 0x02, 0x03, 0x04]), 0x0403_0201);
    assert_eq!(frame.len(), 304);
}

#[test]
fn empty_payload_frames_to_header_only() {
    let frame = frame_payload(&[]).unwrap();
    assert_eq!(frame, vec![0, 0, 0, 0]);
    let (p, used) = split_frame(&frame).unwrap();
    assert!(p.is_empty());
    assert_eq!(used, 4);
}

#[test]
fn frame_roundtrip_with_trailing_bytes() {
    let mut stream = frame_payload(b"first").unwrap();
    stream.extend(frame_payload(b"second!").unwrap());
    let (p1, used1) = split_frame(&stream).unwrap();
    assert_eq!(p1, b"first".to_vec());
    assert_eq!(used1, 9);
    let (p2, used2) = split_frame(&stream[used1..]).unwrap();
    assert_eq!(p2, b"second!".to_vec());
    assert_eq!(used2, 11);
}

#[test]
fn incomplete_frames_are_reported() {
    assert_eq!(split_frame(&[1, 0]).unwrap_err(), FrameError::Incomplete);
    assert_eq!(split_frame(&[3, 0, 0, 0, 9, 9]).unwrap_err(), FrameError::Incomplete);
    assert!(split_frame(&[3, 0, 0, 0, 9, 9, 9]).is_ok());
}

#[test]
fn audio_chunk_carries_base64_data() {
    let m = audio_chunk_msg("s1", 7, &[0, 1, 2, 3], 48000);
    match m {
        OutboundMsg::AudioChunk { session_id, seq, data, sample_rate } => {
            assert_eq!(session_id, "s1");
            assert_eq!(seq, 7);
            assert_eq!(data, "AAECAw==");
            assert_eq!(sample_rate, 48000);
        }
        _ => panic!("expected an audio chunk"),
    }
    match audio_chunk_msg("s1", 0, b"hello world~", 16000) {
        OutboundMsg::AudioChunk { data, .. } => assert_eq!(data, "aGVsbG8gd29ybGR+"),
        _ => panic!("expected an audio chunk"),
    }
}

#[test]
fn requests_carry_their_fields() {
    match audio_end_msg("abc") {
        OutboundMsg::AudioEnd { session_id } => assert_eq!(session_id, "abc"),
        _ => panic!("expected audio end"),
    }
    let m = clean_text_msg(
        "s",
        "um hello",
        "code",
        "en",
        &CleanupAggressiveness::Aggressive,
        vec!["ctx".to_string()],
        vec![["teh".to_string(), "the".to_string()]],
        true,
        false,
        true,
    );
    match m {
        OutboundMsg::CleanText {
            session_id,
            raw_text,
            app_context,
            language,
            aggressiveness,
            rag_context,
            dictionary_terms,
            remove_fillers,
            fix_punctuation,
            fix_capitalization,
        } => {
            assert_eq!(session_id, "s");
            assert_eq!(raw_text, "um hello");
            assert_eq!(app_context, "code");
            assert_eq!(language, "en");
            assert_eq!(aggressiveness, "aggressive");
            assert_eq!(rag_context, vec!["ctx".to_string()]);
            assert_eq!(dictionary_terms[0][1], "the");
            assert!(remove_fillers && !fix_punctuation && fix_capitalization);
        }
        _ => panic!("expected clean text"),
    }
    match clean_text_msg("s", "", "", "", &CleanupAggressiveness::Light, vec![], vec![], false, false, false) {
        OutboundMsg::CleanText { aggressiveness, .. } => assert_eq!(aggressiveness, "light"),
        _ => panic!("expected clean text"),
    }
    match execute_command_msg("s", "summarize", "text", "en") {
        OutboundMsg::ExecuteCommand { command, text, .. } => {
            assert_eq!(command, "summarize");
            assert_eq!(text, "text");
        }
        _ => panic!("expected execute command"),
    }
    match retrieve_context_msg("s", "query", 5) {
        OutboundMsg::RetrieveContext { query_text, max_results, .. } => {
            assert_eq!(query_text, "query");
            assert_eq!(max_results, 5);
        }
        _ => panic!("expected retrieve context"),
    }
    match store_correction_msg("s", "raw", "clean", "chat", "de") {
        OutboundMsg::StoreCorrection { raw_text, clean_text, app_context, language, .. } => {
            assert_eq!((raw_text.as_str(), clean_text.as_str()), ("raw", "clean"));
            assert_eq!((app_context.as_str(), language.as_str()), ("chat", "de"));
        }
        _ => panic!("expected store correction"),
    }
}

fn service_error(msg: &str) -> InboundMsg {
    InboundMsg::ServiceError { session_id: None, code: 500, message: msg.to_string() }
}

#[test]
fn replies_are_interpreted() {
    let ok = clean_text_reply(InboundMsg::TextReady { session_id: "s".into(), text: "Hi.".into() });
    assert_eq!(ok.unwrap(), "Hi.");
    match clean_text_reply(service_error("boom")) {
        Err(ServiceReplyError::Service(m)) => assert_eq!(m, "boom"),
        _ => panic!("expected a service error"),
    }
    match clean_text_reply(InboundMsg::Pong { service: "llm".into() }) {
        Err(ServiceReplyError::Unexpected(InboundMsg::Pong { service })) => assert_eq!(service, "llm"),
        _ => panic!("expected an unexpected reply"),
    }
    let c = command_reply(InboundMsg::CommandResult {
        session_id: "s".into(),
        command: "summarize".into(),
        text: "short".into(),
    });
    assert_eq!(c.unwrap(), "short");
    assert!(command_reply(InboundMsg::TextReady { session_id: "s".into(), text: "x".into() }).is_err());
    let r = context_reply(InboundMsg::ContextReady {
        session_id: "s".into(),
        segments: vec!["a".into(), "b".into()],
    });
    assert_eq!(r.unwrap(), vec!["a".to_string(), "b".to_string()]);
    assert!(matches!(context_reply(service_error("x")), Err(ServiceReplyError::Service(_))));
    assert!(is_pong(&InboundMsg::Pong { service: "rag".into() }));
    assert!(!is_pong(&service_error("x")));
    assert!(resets_connection(&service_error("x")));
    assert!(!resets_connection(&InboundMsg::Pong { service: "rag".into() }));
}

#[test]
fn transcript_wait_keeps_partials_and_ends_on_final() {
    let mut partials = TextMap::new();
    let step = transcript_step(
        &mut partials,
        "me",
        InboundMsg::TranscriptPartial { session_id: "me".into(), text: "hel".into() },
    );
    assert!(matches!(step, TranscriptStep::Continue));
    assert_eq!(try_recv_partial(&partials, "me"), Some("hel".to_string()));

    let step = transcript_step(
        &mut partials,
        "me",
        InboundMsg::TranscriptPartial { session_id: "other".into(), text: "zzz".into() },
    );
    assert!(matches!(step, TranscriptStep::Continue));
    assert_eq!(try_recv_partial(&partials, "other"), None);

    let step = transcript_step(
        &mut partials,
        "me",
        InboundMsg::TranscriptFinal {
            session_id: "other".into(),
            text: "not mine".into(),
            language: "en".into(),
            duration_ms: 5,
        },
    );
    assert!(matches!(step, TranscriptStep::Continue));

    let step = transcript_step(
        &mut partials,
        "me",
        InboundMsg::TranscriptFinal {
            session_id: "me".into(),
            text: "hello".into(),
            language: "en".into(),
            duration_ms: 1200,
        },
    );
    match step {
        TranscriptStep::Done(t) => {
            assert_eq!(t.text, "hello");
            assert_eq!(t.language, "en");
            assert_eq!(t.duration_ms, 1200);
        }
        _ => panic!("expected the final transcript"),
    }
    assert_eq!(try_recv_partial(&partials, "me"), None);
}

#[test]
fn transcript_wait_fails_on_any_service_error() {
    let mut partials = TextMap::new();
    let step = transcript_step(
        &mut partials,
        "me",
        InboundMsg::ServiceError { session_id: Some("other".into()), code: 1, message: "gpu".into() },
    );
    match step {
        TranscriptStep::Failed(m) => assert_eq!(m, "gpu"),
        _ => panic!("expected a failure"),
    }
}

#[test]
fn connection_attempts() {
    assert_eq!(connect_step(1, 20, true), ConnectStep::Connected);
    assert_eq!(connect_step(1, 20, false), ConnectStep::Retry);
    assert_eq!(connect_step(19, 20, false), ConnectStep::Retry);
    assert_eq!(connect_step(20, 20, false), ConnectStep::GiveUp);
}

#[test]
fn health_check_rounds() {
    assert_eq!(health_step(3, true, true, true), HealthStep::AllReady);
    assert_eq!(health_step(1, true, false, true), HealthStep::Wait { warn: false, last: false });
    assert_eq!(health_step(5, false, false, false), HealthStep::Wait { warn: true, last: false });
    assert_eq!(health_step(30, true, true, false), HealthStep::Wait { warn: true, last: true });
}
