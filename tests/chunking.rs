use std::cell::Cell;

use handy_transcription::chunking::{
    is_retryable_whisper_error, merge_split_results, transcribe_whisper_chunk_with_retry,
    transcribe_whisper_with_chunking_internal, WHISPER_CHUNK_SAMPLES,
    WHISPER_MIN_RETRY_CHUNK_SAMPLES,
};

const UTF8_ERROR: &str = "Invalid UTF-8 detected in a string from Whisper. Index: 0, Length: 1.";

#[test]
fn whisper_chunking_splits_long_audio_into_multiple_calls() {
    let audio = vec![0.0f32; WHISPER_CHUNK_SAMPLES * 2 + 123];

    let call_count = Cell::new(0usize);
    let mock_transcriber = |start: usize, end: usize| -> Result<String, String> {
        let _chunk = &audio[start..end];
        call_count.set(call_count.get() + 1);
        Ok(format!("chunk{}", call_count.get()))
    };

    let result = transcribe_whisper_with_chunking_internal(audio.len(), &mock_transcriber)
        .0.expect("chunked transcription should succeed");

    assert_eq!(call_count.get(), 3);
    assert_eq!(result, "chunk1 chunk2 chunk3");
}

#[test]
fn whisper_chunking_recovers_retryable_errors_by_splitting() {
    let audio = vec![0.0f32; WHISPER_CHUNK_SAMPLES];

    let call_count = Cell::new(0usize);
    let mock_transcriber = |start: usize, end: usize| -> Result<String, String> {
        let chunk = &audio[start..end];
        call_count.set(call_count.get() + 1);
        if chunk.len() >= WHISPER_CHUNK_SAMPLES {
            return Err(UTF8_ERROR.to_string());
        }
        Ok("ok".to_string())
    };

    let result = transcribe_whisper_with_chunking_internal(audio.len(), &mock_transcriber)
        .0.expect("retryable errors should be recoverable via splitting");

    assert_eq!(call_count.get(), 3);
    assert_eq!(result, "ok ok");
}

#[test]
fn whisper_chunking_returns_error_when_retry_fails_completely() {
    let audio = vec![0.0f32; WHISPER_MIN_RETRY_CHUNK_SAMPLES];

    let mock_transcriber =
        |_: usize, _: usize| -> Result<String, String> { Err(UTF8_ERROR.to_string()) };

    let err = transcribe_whisper_with_chunking_internal(audio.len(), &mock_transcriber)
        .0.expect_err("expected unrecoverable chunk to return an error");

    assert!(err.contains("Whisper transcription failed on chunk 1/1"));
}

#[test]
fn unrecoverable_error_message_names_window_depth_and_size() {
    let mock = |_: usize, _: usize| -> Result<String, String> { Err(UTF8_ERROR.to_string()) };
    let err = transcribe_whisper_with_chunking_internal(WHISPER_MIN_RETRY_CHUNK_SAMPLES, &mock)
        .0.unwrap_err();
    assert_eq!(
        err,
        format!(
            "Whisper transcription failed on chunk 1/1: Whisper chunk failed at depth 0 (32000 samples): {}",
            UTF8_ERROR
        )
    );
}

#[test]
fn failing_middle_window_is_named_by_index() {
    let calls = Cell::new(0usize);
    let mock = |start: usize, _end: usize| -> Result<String, String> {
        calls.set(calls.get() + 1);
        if start >= WHISPER_CHUNK_SAMPLES && start < 2 * WHISPER_CHUNK_SAMPLES {
            Err("boom".to_string())
        } else {
            Ok("fine".to_string())
        }
    };
    let err =
        transcribe_whisper_with_chunking_internal(WHISPER_CHUNK_SAMPLES * 3, &mock).0.unwrap_err();
    assert_eq!(
        err,
        "Whisper transcription failed on chunk 2/3: Whisper chunk failed at depth 0 (160000 samples): boom"
    );
    // the third window is never attempted
    assert_eq!(calls.get(), 2);
}

#[test]
fn every_window_failing_retryably_names_first_window() {
    let mock = |_: usize, _: usize| -> Result<String, String> { Err("FailedToDecode".to_string()) };
    let err = transcribe_whisper_with_chunking_internal(WHISPER_CHUNK_SAMPLES * 2 + 5, &mock)
        .0.unwrap_err();
    assert!(err.starts_with("Whisper transcription failed on chunk 1/3: "));
    assert!(err.contains("after split retries"));
}

#[test]
fn empty_audio_makes_no_call() {
    let calls = Cell::new(0usize);
    let mock = |_: usize, _: usize| -> Result<String, String> {
        calls.set(calls.get() + 1);
        Ok("x".to_string())
    };
    assert_eq!(transcribe_whisper_with_chunking_internal(0, &mock).0.unwrap(), "");
    assert_eq!(calls.get(), 0);
}

#[test]
fn window_texts_are_trimmed_and_empty_ones_skipped() {
    let mock = |start: usize, _: usize| -> Result<String, String> {
        match start / WHISPER_CHUNK_SAMPLES {
            0 => Ok("  hello ".to_string()),
            1 => Ok("   ".to_string()),
            _ => Ok("\tworld\n".to_string()),
        }
    };
    let r = transcribe_whisper_with_chunking_internal(WHISPER_CHUNK_SAMPLES * 3, &mock).0.unwrap();
    assert_eq!(r, "hello world");
}

#[test]
fn halves_recover_after_one_failure() {
    let calls = Cell::new(Vec::new());
    let mock = |start: usize, end: usize| -> Result<String, String> {
        let mut v = calls.take();
        v.push((start, end));
        calls.set(v);
        if end - start == WHISPER_CHUNK_SAMPLES {
            Err("UnableToCalculateSpectrogram".to_string())
        } else if start == 0 {
            Ok(" left ".to_string())
        } else {
            Ok("right".to_string())
        }
    };
    let r = transcribe_whisper_chunk_with_retry(&mock, 0, WHISPER_CHUNK_SAMPLES, 0).0.unwrap();
    assert_eq!(r, "left right");
    assert_eq!(
        calls.take(),
        vec![(0, 160000), (0, 80000), (80000, 160000)]
    );
}

#[test]
fn one_half_recovering_is_enough() {
    let mock = |start: usize, end: usize| -> Result<String, String> {
        if end - start == WHISPER_CHUNK_SAMPLES || start > 0 {
            Err("FailedToDecode".to_string())
        } else {
            Ok("left".to_string())
        }
    };
    let r = transcribe_whisper_chunk_with_retry(&mock, 0, WHISPER_CHUNK_SAMPLES, 0).0.unwrap();
    assert_eq!(r, "left");
}

#[test]
fn fatal_error_is_not_split() {
    let calls = Cell::new(0usize);
    let mock = |_: usize, _: usize| -> Result<String, String> {
        calls.set(calls.get() + 1);
        Err("model exploded".to_string())
    };
    let err = transcribe_whisper_chunk_with_retry(&mock, 0, WHISPER_CHUNK_SAMPLES, 0).0.unwrap_err();
    assert_eq!(
        err,
        "Whisper chunk failed at depth 0 (160000 samples): model exploded"
    );
    assert_eq!(calls.get(), 1);
}

#[test]
fn bisection_stops_at_max_depth() {
    let calls = Cell::new(0usize);
    let mock = |_: usize, _: usize| -> Result<String, String> {
        calls.set(calls.get() + 1);
        Err("FailedToDecode".to_string())
    };
    // a huge part, so that only the depth limit stops the bisection
    let len = WHISPER_MIN_RETRY_CHUNK_SAMPLES * 2 * 64;
    let err = transcribe_whisper_chunk_with_retry(&mock, 0, len, 0).0.unwrap_err();
    assert_eq!(calls.get(), 63);
    assert!(err.starts_with("Whisper chunk failed after split retries (4096000 samples): "));
}

#[test]
fn minimum_size_part_is_not_split() {
    let calls = Cell::new(0usize);
    let mock = |_: usize, _: usize| -> Result<String, String> {
        calls.set(calls.get() + 1);
        Err("FailedToDecode".to_string())
    };
    let len = WHISPER_MIN_RETRY_CHUNK_SAMPLES * 2 - 1;
    let err = transcribe_whisper_chunk_with_retry(&mock, 0, len, 3).0.unwrap_err();
    assert_eq!(calls.get(), 1);
    assert_eq!(err, "Whisper chunk failed at depth 3 (63999 samples): FailedToDecode");
}

#[test]
fn part_of_exactly_twice_the_minimum_is_not_split() {
    let calls = Cell::new(0usize);
    let mock = |_: usize, _: usize| -> Result<String, String> {
        calls.set(calls.get() + 1);
        Err("FailedToDecode".to_string())
    };
    let len = WHISPER_MIN_RETRY_CHUNK_SAMPLES * 2;
    let err = transcribe_whisper_chunk_with_retry(&mock, 0, len, 0).0.unwrap_err();
    assert_eq!(calls.get(), 1);
    assert_eq!(err, "Whisper chunk failed at depth 0 (64000 samples): FailedToDecode");
}

#[test]
fn blank_half_with_failed_half_succeeds_empty() {
    let mock = |start: usize, end: usize| -> Result<String, String> {
        if end - start == WHISPER_CHUNK_SAMPLES || start > 0 {
            Err("FailedToDecode".to_string())
        } else {
            Ok("   ".to_string())
        }
    };
    let r = transcribe_whisper_chunk_with_retry(&mock, 0, WHISPER_CHUNK_SAMPLES, 0).0;
    assert_eq!(r, Ok(String::new()));
}

#[test]
fn empty_part_is_handed_over_as_is() {
    let mock = |start: usize, end: usize| -> Result<String, String> { Ok(format!("{}-{}", start, end)) };
    assert_eq!(transcribe_whisper_chunk_with_retry(&mock, 7, 7, 0).0, Ok("7-7".to_string()));
}

#[test]
fn retryable_errors_are_classified() {
    assert!(is_retryable_whisper_error(UTF8_ERROR));
    assert!(is_retryable_whisper_error("engine: FailedToDecode"));
    assert!(is_retryable_whisper_error("UnableToCalculateSpectrogram (x)"));
    assert!(!is_retryable_whisper_error("failed to decode"));
    assert!(!is_retryable_whisper_error(""));
}

#[test]
fn merging_halves_fails_only_when_both_fail() {
    let r = merge_split_results(Err("a".to_string()), Ok("  ".to_string()), 64001, "FailedToDecode");
    assert_eq!(r, Ok(String::new()));
    let r = merge_split_results(Err("a".to_string()), Err("b".to_string()), 64001, "FailedToDecode");
    assert_eq!(
        r,
        Err("Whisper chunk failed after split retries (64001 samples): FailedToDecode".to_string())
    );
    let r = merge_split_results(Ok("x".to_string()), Ok(" y ".to_string()), 64000, "e");
    assert_eq!(r, Ok("x y".to_string()));
}
