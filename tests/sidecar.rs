use handy_transcription::sidecar::{
    check_response_line, frame_request, load_request, load_response_result, parse_error_message,
    restore_error, shutdown_request, transcribe_request, unload_request, AudioEncoding,
    EnsureRunning, FlowAction, SidecarResponse, SidecarSession, TranscribeFlow,
};

fn response(success: Option<bool>, text: Option<&str>, error: Option<&str>) -> SidecarResponse {
    SidecarResponse {
        response_type: "transcribe".to_string(),
        success,
        text: text.map(|t| t.to_string()),
        error: error.map(|e| e.to_string()),
        model_loaded: None,
    }
}

#[test]
fn suspicious_empty_result_falls_back_once() {
    let (mut flow, first) = TranscribeFlow::new(true);
    assert_eq!(first, AudioEncoding::WavPcm16);
    let mut requests = vec![first];
    let mut next = Ok(response(Some(true), Some("  "), None));
    let result = loop {
        match flow.on_response(next) {
            FlowAction::Send(enc) => {
                requests.push(enc);
                next = Ok(response(Some(true), Some("hello"), None));
            }
            FlowAction::Finish(r) => break r,
        }
    };
    assert_eq!(requests, vec![AudioEncoding::WavPcm16, AudioEncoding::RawF32]);
    assert_eq!(result, Ok("hello".to_string()));
    assert!(flow.is_done());
}

#[test]
fn empty_result_for_silence_is_believed() {
    let (mut flow, _) = TranscribeFlow::new(false);
    match flow.on_response(Ok(response(Some(true), None, None))) {
        FlowAction::Finish(r) => assert_eq!(r, Ok(String::new())),
        FlowAction::Send(_) => panic!("silent audio must not fall back"),
    }
}

#[test]
fn failure_and_transport_error_fall_back() {
    let (mut flow, _) = TranscribeFlow::new(false);
    assert!(matches!(
        flow.on_response(Ok(response(Some(false), None, Some("x")))),
        FlowAction::Send(AudioEncoding::RawF32)
    ));
    match flow.on_response(Ok(response(Some(false), None, None))) {
        FlowAction::Finish(r) => {
            assert_eq!(r, Err("WhisperKit transcription failed: Unknown transcription error".to_string()))
        }
        FlowAction::Send(_) => panic!("no second fallback"),
    }
    let (mut flow, _) = TranscribeFlow::new(true);
    assert!(matches!(
        flow.on_response(Err("pipe closed".to_string())),
        FlowAction::Send(AudioEncoding::RawF32)
    ));
    match flow.on_response(Err("pipe closed".to_string())) {
        FlowAction::Finish(r) => assert_eq!(r, Err("pipe closed".to_string())),
        FlowAction::Send(_) => panic!("no second fallback"),
    }
}

#[test]
fn non_empty_wav_result_is_returned() {
    let (mut flow, _) = TranscribeFlow::new(true);
    match flow.on_response(Ok(response(Some(true), Some(" hi "), None))) {
        FlowAction::Finish(r) => assert_eq!(r, Ok(" hi ".to_string())),
        FlowAction::Send(_) => panic!("a real transcript is believed"),
    }
}

#[test]
fn requests_have_their_fields() {
    let r = load_request("/m");
    assert_eq!(r.request_type, "load");
    assert_eq!(r.model_path.as_deref(), Some("/m"));
    assert!(r.audio_path.is_none() && r.language.is_none());
    let r = transcribe_request("/a.wav", "en");
    assert_eq!(r.request_type, "transcribe");
    assert_eq!(r.audio_path.as_deref(), Some("/a.wav"));
    assert_eq!(r.language.as_deref(), Some("en"));
    assert!(r.model_path.is_none());
    assert_eq!(unload_request().request_type, "unload");
    assert_eq!(shutdown_request().request_type, "shutdown");
}

#[test]
fn framing_and_line_checks() {
    assert_eq!(frame_request("{\"type\":\"unload\"}".to_string()), "{\"type\":\"unload\"}\n");
    assert_eq!(
        check_response_line(""),
        Err("Sidecar returned empty response (process may have crashed)".to_string())
    );
    assert_eq!(check_response_line("{\"a\":1}\n"), Ok("{\"a\":1}"));
    assert_eq!(parse_error_message(" junk \n"), "Failed to parse sidecar response: junk");
}

#[test]
fn load_responses() {
    assert_eq!(load_response_result(&response(Some(true), None, None)), Ok(()));
    assert_eq!(
        load_response_result(&response(None, None, None)),
        Err("WhisperKit load failed: Unknown error loading model".to_string())
    );
    assert_eq!(
        load_response_result(&response(Some(false), None, Some("no such model"))),
        Err("WhisperKit load failed: no such model".to_string())
    );
}

#[test]
fn session_restart_replays_model() {
    let mut s = SidecarSession::new();
    assert!(matches!(s.ensure_running_plan(), EnsureRunning::Restart(None)));
    s.mark_started();
    assert!(matches!(s.ensure_running_plan(), EnsureRunning::Running));
    s.record_loaded("/models/base");
    s.mark_exited();
    match s.ensure_running_plan() {
        EnsureRunning::Restart(Some(p)) => assert_eq!(p, "/models/base"),
        other => panic!("unexpected plan {:?}", other),
    }
    s.mark_started();
    assert!(s.begin_unload());
    assert_eq!(s.loaded_model_path(), None);
    s.mark_exited();
    assert!(!s.begin_unload());
    assert!(!s.is_running());
}

#[test]
fn restore_error_names_path() {
    assert_eq!(
        restore_error("/m", "boom"),
        "Failed to restore WhisperKit model after sidecar restart: /m: boom"
    );
}
