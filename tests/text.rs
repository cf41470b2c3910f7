use handy_transcription::probe::{
    append_non_empty, model_path, recordings_dir, short_text, transcribe_whisper_resilient,
};
use handy_transcription::text::append_non_empty_transcription;

#[test]
fn append_skips_blank_text() {
    let mut merged = String::from("a");
    append_non_empty_transcription(&mut merged, " \t\n");
    assert_eq!(merged, "a");
}

#[test]
fn append_trims_and_separates() {
    let mut merged = String::new();
    append_non_empty_transcription(&mut merged, "  one ");
    assert_eq!(merged, "one");
    append_non_empty_transcription(&mut merged, "two\n");
    assert_eq!(merged, "one two");
    append_non_empty(&mut merged, "\u{3000}three");
    assert_eq!(merged, "one two three");
}

#[test]
fn short_text_cuts_with_ellipsis() {
    assert_eq!(short_text("  hello world ", 5), "hello…");
    assert_eq!(short_text("hello", 5), "hello");
    assert_eq!(short_text("  ", 3), "");
    assert_eq!(short_text("ދިވެހި", 2), "ދި…");
}

#[test]
fn probe_paths_join_components() {
    assert_eq!(
        recordings_dir("/Users/me"),
        "/Users/me/Library/Application Support/com.pais.handy/recordings"
    );
    assert_eq!(
        recordings_dir("/Users/me/"),
        "/Users/me/Library/Application Support/com.pais.handy/recordings"
    );
    assert_eq!(
        model_path("/h", "moonshine-base"),
        "/h/Library/Application Support/com.pais.handy/models/moonshine-base"
    );
    assert_eq!(model_path("/h", "/abs/model.bin"), "/abs/model.bin");
}

#[test]
fn resilient_probe_passes_window_error_through() {
    let mock = |_: usize, _: usize| -> Result<String, String> { Err("nope".to_string()) };
    let err = transcribe_whisper_resilient(100, &mock).unwrap_err();
    assert_eq!(err, "Whisper chunk failed at depth 0 (100 samples): nope");
    let ok = |s: usize, _: usize| -> Result<String, String> { Ok(format!(" w{} ", s)) };
    assert_eq!(transcribe_whisper_resilient(160_001, &ok).unwrap(), "w0 w160000");
}
