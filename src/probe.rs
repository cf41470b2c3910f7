//! Helpers of the transcription probe: where recordings and models live,
//! shortening a transcript for display, and the probe's windowed
//! transcription, which reports a window's error as it is.
use vstd::prelude::*;
use vstd::string::StrSliceExecFns;

use crate::chunking::{
    answers, outcome_view, retry_outcome, transcribe_whisper_chunk_with_retry, window_count,
    window_end, window_start, Oracle, Outcome, WHISPER_CHUNK_SAMPLES,
};
use crate::text::{append_non_empty_transcription, merged_with, trim, trim_str};

verus! {

/// Unix path joining: an absolute `part` replaces `base`; otherwise `part` is
/// appended after a separator, unless `base` is empty or already ends in one.
pub open spec fn path_join(base: Seq<char>, part: Seq<char>) -> Seq<char> {
    if part.len() > 0 && part[0] == '/' {
        part
    } else if base.len() == 0 || base.last() == '/' {
        base + part
    } else {
        base + seq!['/'] + part
    }
}

/// Relies on `Path::join` (and `to_string_lossy`, which keeps valid UTF-8
/// as it is): joins two paths as `path_join` states, on Unix.
#[verifier::external_body]
fn join_path(base: &str, part: &str) -> (r: String)
    ensures
        r@ == path_join(base@, part@),
{
    std::path::Path::new(base).join(part).to_string_lossy().into_owned()
}

pub open spec fn app_data_dir(home: Seq<char>) -> Seq<char> {
    path_join(path_join(path_join(home, "Library"@), "Application Support"@), "com.pais.handy"@)
}

fn app_data_dir_of(home: &str) -> (r: String)
    ensures
        r@ == app_data_dir(home@),
{
    let library = join_path(home, "Library");
    let support = join_path(library.as_str(), "Application Support");
    join_path(support.as_str(), "com.pais.handy")
}

/// The directory of the recordings under the home directory `home`.
pub fn recordings_dir(home: &str) -> (r: String)
    ensures
        r@ == path_join(app_data_dir(home@), "recordings"@),
{
    let base = app_data_dir_of(home);
    join_path(base.as_str(), "recordings")
}

/// The path of the model `name` under the home directory `home`.
pub fn model_path(home: &str, name: &str) -> (r: String)
    ensures
        r@ == path_join(path_join(app_data_dir(home@), "models"@), name@),
{
    let base = app_data_dir_of(home);
    let models = join_path(base.as_str(), "models");
    join_path(models.as_str(), name)
}

/// The trimmed text, cut after `max_chars` characters with an ellipsis where
/// it is longer.
pub open spec fn shortened(s: Seq<char>, max_chars: nat) -> Seq<char> {
    let t = trim(s);
    if t.len() > max_chars {
        t.subrange(0, max_chars as int) + seq!['\u{2026}']
    } else {
        t
    }
}

/// Shortens a transcript for display.
pub fn short_text(s: &str, max_chars: usize) -> (r: String)
    ensures
        r@ == shortened(s@, max_chars as nat),
{
    let trimmed = trim_str(s);
    let len = trimmed.unicode_len();
    if len > max_chars {
        let mut out = String::from_str(trimmed.substring_char(0, max_chars));
        proof {
            reveal_strlit("\u{2026}");
        }
        out.append("\u{2026}");
        out
    } else {
        String::from_str(trimmed)
    }
}

/// Appends the trimmed `text` to `merged`, with a single separating space,
/// unless the trimmed text is empty.
pub fn append_non_empty(merged: &mut String, text: &str)
    ensures
        final(merged)@ == merged_with(old(merged)@, text@),
{
    append_non_empty_transcription(merged, text);
}

/// The outcome after the first `k` windows of `n` samples, where a window
/// that cannot be recovered ends the run with its own error.
pub open spec fn resilient_prefix(o: Oracle, n: int, k: int) -> Outcome
    decreases k,
{
    if k <= 0 {
        Ok(Seq::empty())
    } else {
        match resilient_prefix(o, n, k - 1) {
            Err(e) => Err(e),
            Ok(acc) => match retry_outcome(o, window_start(k - 1), window_end(n, k - 1), 0) {
                Ok(t) => Ok(merged_with(acc, t)),
                Err(e) => Err(e),
            },
        }
    }
}

proof fn lemma_resilient_error_persists(o: Oracle, n: int, k: int, m: int)
    requires
        0 <= k <= m,
        resilient_prefix(o, n, k) is Err,
    ensures
        resilient_prefix(o, n, m) == resilient_prefix(o, n, k),
    decreases m - k,
{
    if k < m {
        lemma_resilient_error_persists(o, n, k, m - 1);
    }
}

/// Transcribes `audio_len` samples window by window with retry by bisection,
/// joining the windows' trimmed texts with single spaces; the first window
/// that cannot be recovered ends the call with its error unchanged.
pub fn transcribe_whisper_resilient<F: Fn(usize, usize) -> Result<String, String>>(
    audio_len: usize,
    transcribe_chunk: &F,
) -> (r: Result<String, String>)
    requires
        forall|s: usize, e: usize| s <= e <= audio_len ==> #[trigger] transcribe_chunk.requires((s, e)),
    ensures
        forall|o: Oracle| #[trigger] answers(*transcribe_chunk, o) ==> outcome_view(r) == resilient_prefix(o, audio_len as int, window_count(audio_len as int)),
{
    let ghost n = audio_len as int;
    let mut merged = String::new();
    let mut start: usize = 0;
    let ghost mut index: int = 0;
    while start < audio_len
        invariant
            0 <= index,
            start < audio_len ==> start as int == window_start(index),
            start <= audio_len,
            n == audio_len as int,
            start < audio_len ==> index < window_count(n),
            start >= audio_len ==> index == window_count(n),
            forall|s: usize, e: usize| s <= e <= audio_len ==> #[trigger] transcribe_chunk.requires((s, e)),
            forall|o: Oracle| #[trigger] answers(*transcribe_chunk, o) ==> resilient_prefix(o, n, index) == Ok::<Seq<char>, Seq<char>>(merged@),
        decreases audio_len - start,
    {
        let end = if audio_len - start >= WHISPER_CHUNK_SAMPLES {
            start + WHISPER_CHUNK_SAMPLES
        } else {
            audio_len
        };
        proof {
            lemma_window_index(n, index);
        }
        assert(end as int == window_end(n, index));
        match transcribe_whisper_chunk_with_retry(transcribe_chunk, start, end, 0).0 {
            Ok(text) => {
                let ghost before = merged@;
                append_non_empty_transcription(&mut merged, text.as_str());
                assert forall|o: Oracle| #[trigger] answers(*transcribe_chunk, o) implies resilient_prefix(o, n, index + 1) == Ok::<Seq<char>, Seq<char>>(merged@) by {
                    assert(resilient_prefix(o, n, index) == Ok::<Seq<char>, Seq<char>>(before));
                }
            },
            Err(e) => {
                let r = Err(e);
                assert forall|o: Oracle| #[trigger] answers(*transcribe_chunk, o) implies outcome_view(r) == resilient_prefix(o, n, window_count(n)) by {
                    assert(resilient_prefix(o, n, index + 1) == outcome_view(r));
                    lemma_resilient_error_persists(o, n, index + 1, window_count(n));
                }
                return r;
            },
        }
        start = end;
        proof {
            index = index + 1;
        }
    }
    Ok(merged)
}

proof fn lemma_window_index(n: int, i: int)
    requires
        0 <= i,
        window_start(i) < n,
    ensures
        i < window_count(n),
        window_start(i + 1) == window_start(i) + WHISPER_CHUNK_SAMPLES,
        window_end(n, i) == if window_start(i) + WHISPER_CHUNK_SAMPLES <= n {
            window_start(i) + WHISPER_CHUNK_SAMPLES
        } else {
            n
        },
        window_end(n, i) < n ==> i + 1 < window_count(n) && window_start(i + 1) == window_end(n, i),
        window_end(n, i) >= n ==> i + 1 == window_count(n),
{
    let w = WHISPER_CHUNK_SAMPLES as int;
    assert((i + 1) * w == i * w + w) by (nonlinear_arith);
    assert(i < (n + w - 1) / w) by (nonlinear_arith)
        requires
            w > 0,
            0 <= i,
            i * w < n,
    ;
    if (i + 1) * w < n {
        assert(i + 1 < (n + w - 1) / w) by (nonlinear_arith)
            requires
                w > 0,
                0 <= i,
                (i + 1) * w < n,
        ;
    } else {
        assert(i + 1 >= (n + w - 1) / w) by (nonlinear_arith)
            requires
                w > 0,
                0 <= i,
                (i + 1) * w >= n,
        ;
    }
}

} // verus!
