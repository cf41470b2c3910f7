//! Transcription of long audio in fixed windows, with recovery of partial
//! results by bisecting a window whose inference failed.
//!
//! The library never sees the samples: a window or a part of one is named by
//! the half-open range `[start, end)` of sample indices, and the caller's
//! inference function transcribes that range of its own audio.
use vstd::prelude::*;

use crate::text::{
    append_non_empty_transcription, decimal, decimal_string, has_infix, merged_with, space_join,
    str_contains, trim,
};

verus! {

/// Samples per second that the bounded-context engine expects.
pub const WHISPER_SAMPLE_RATE: usize = 16_000;

/// Length of one window, in seconds.
pub const WHISPER_CHUNK_SECONDS: usize = 10;

/// Length of one window, in samples.
pub const WHISPER_CHUNK_SAMPLES: usize = WHISPER_SAMPLE_RATE * WHISPER_CHUNK_SECONDS;

/// Smallest part, in seconds, that a bisection may produce.
pub const WHISPER_MIN_RETRY_CHUNK_SECONDS: usize = 2;

/// Smallest part, in samples, that a bisection may produce.
pub const WHISPER_MIN_RETRY_CHUNK_SAMPLES: usize =
    WHISPER_SAMPLE_RATE * WHISPER_MIN_RETRY_CHUNK_SECONDS;

/// Deepest level of bisection.
pub const WHISPER_MAX_RETRY_SPLIT_DEPTH: u8 = 5;

/// What one inference call gives back: the text, or an error message.
pub type Outcome = Result<Seq<char>, Seq<char>>;

/// A deterministic inference function: the outcome of transcribing each range.
pub type Oracle = spec_fn(int, int) -> Outcome;

pub open spec fn outcome_view(r: Result<String, String>) -> Outcome {
    match r {
        Ok(t) => Ok(t@),
        Err(e) => Err(e@),
    }
}

/// `f` answers each range as `o` does: whatever a call of `f` returns is the
/// outcome that `o` gives to that range.
pub open spec fn answers<F: Fn(usize, usize) -> Result<String, String>>(f: F, o: Oracle) -> bool {
    forall|s: usize, e: usize, r: Result<String, String>|
        #[trigger] f.ensures((s, e), r) ==> outcome_view(r) == o(s as int, e as int)
}

/// The error messages of a decoder failure that a bisection may recover from.
pub open spec fn is_retryable(msg: Seq<char>) -> bool {
    ||| has_infix(msg, "Invalid UTF-8 detected in a string from Whisper"@)
    ||| has_infix(msg, "FailedToDecode"@)
    ||| has_infix(msg, "UnableToCalculateSpectrogram"@)
}

/// A part of `len` samples at `depth` may be bisected: the depth limit is not
/// reached and the part is longer than twice the smallest retry size.
pub open spec fn can_split(depth: int, len: int) -> bool {
    depth < WHISPER_MAX_RETRY_SPLIT_DEPTH && len > WHISPER_MIN_RETRY_CHUNK_SAMPLES * 2
}

pub open spec fn depth_error(depth: int, len: int, msg: Seq<char>) -> Seq<char> {
    "Whisper chunk failed at depth "@ + decimal(depth as nat) + " ("@ + decimal(len as nat)
        + " samples): "@ + msg
}

pub open spec fn split_error(len: int, msg: Seq<char>) -> Seq<char> {
    "Whisper chunk failed after split retries ("@ + decimal(len as nat) + " samples): "@ + msg
}

pub open spec fn window_error(index: int, total: int, msg: Seq<char>) -> Seq<char> {
    "Whisper transcription failed on chunk "@ + decimal((index + 1) as nat) + "/"@ + decimal(
        total as nat,
    ) + ": "@ + msg
}

/// The text recovered from the two halves of a bisected part: each half that
/// succeeded adds its trimmed, non-empty text, joined by one space.
pub open spec fn recovered_text(left: Outcome, right: Outcome) -> Seq<char> {
    let a = match left {
        Ok(t) => merged_with(Seq::empty(), t),
        Err(_) => Seq::empty(),
    };
    match right {
        Ok(t) => merged_with(a, t),
        Err(_) => a,
    }
}

/// The outcome of a bisected part of `len` samples whose first attempt failed
/// with `msg`: an error only where both halves failed, else the recovered
/// text, which may be empty.
pub open spec fn merge_halves(left: Outcome, right: Outcome, len: int, msg: Seq<char>) -> Outcome {
    if left is Err && right is Err {
        Err(split_error(len, msg))
    } else {
        Ok(recovered_text(left, right))
    }
}

/// The outcome of transcribing `[start, end)` at `depth` with retry by
/// bisection.
pub open spec fn retry_outcome(o: Oracle, start: int, end: int, depth: int) -> Outcome
    decreases WHISPER_MAX_RETRY_SPLIT_DEPTH - depth,
{
    match o(start, end) {
        Ok(t) => Ok(t),
        Err(m) => {
            if !can_split(depth, end - start) || !is_retryable(m) {
                Err(depth_error(depth, end - start, m))
            } else {
                let mid = start + (end - start) / 2;
                merge_halves(
                    retry_outcome(o, start, mid, depth + 1),
                    retry_outcome(o, mid, end, depth + 1),
                    end - start,
                    m,
                )
            }
        },
    }
}

/// The ranges handed to the inference function, in call order, when
/// `[start, end)` is transcribed at `depth`: the part itself, then, where it
/// is bisected, the calls for its left half and then those for its right half.
pub open spec fn retry_trace(o: Oracle, start: int, end: int, depth: int) -> Seq<(int, int)>
    decreases WHISPER_MAX_RETRY_SPLIT_DEPTH - depth,
{
    let first = seq![(start, end)];
    match o(start, end) {
        Ok(_) => first,
        Err(m) => {
            if !can_split(depth, end - start) || !is_retryable(m) {
                first
            } else {
                let mid = start + (end - start) / 2;
                first + retry_trace(o, start, mid, depth + 1) + retry_trace(o, mid, end, depth + 1)
            }
        },
    }
}

/// The number of windows of `n` samples: the last one may be shorter.
pub open spec fn window_count(n: int) -> int {
    (n + WHISPER_CHUNK_SAMPLES - 1) / (WHISPER_CHUNK_SAMPLES as int)
}

pub open spec fn window_start(i: int) -> int {
    i * WHISPER_CHUNK_SAMPLES
}

pub open spec fn window_end(n: int, i: int) -> int {
    if (i + 1) * WHISPER_CHUNK_SAMPLES <= n {
        (i + 1) * WHISPER_CHUNK_SAMPLES
    } else {
        n
    }
}

/// The outcome after the first `k` windows of `n` samples: the merged text so
/// far, or the error of the first window that failed.
pub open spec fn chunked_prefix(o: Oracle, n: int, k: int) -> Outcome
    decreases k,
{
    if k <= 0 {
        Ok(Seq::empty())
    } else {
        match chunked_prefix(o, n, k - 1) {
            Err(e) => Err(e),
            Ok(acc) => match retry_outcome(o, window_start(k - 1), window_end(n, k - 1), 0) {
                Ok(t) => Ok(merged_with(acc, t)),
                Err(e) => Err(window_error(k - 1, window_count(n), e)),
            },
        }
    }
}

/// The outcome of transcribing `n` samples window by window.
pub open spec fn chunked_outcome(o: Oracle, n: int) -> Outcome {
    chunked_prefix(o, n, window_count(n))
}

/// The ranges handed to the inference function, in call order, for the first
/// `k` windows of `n` samples; no window after one that failed is attempted.
pub open spec fn chunked_trace(o: Oracle, n: int, k: int) -> Seq<(int, int)>
    decreases k,
{
    if k <= 0 {
        Seq::empty()
    } else {
        match chunked_prefix(o, n, k - 1) {
            Err(_) => chunked_trace(o, n, k - 1),
            Ok(_) => chunked_trace(o, n, k - 1) + retry_trace(
                o,
                window_start(k - 1),
                window_end(n, k - 1),
                0,
            ),
        }
    }
}

/// The ranges handed to the inference function for `n` samples.
pub open spec fn chunked_calls(o: Oracle, n: int) -> Seq<(int, int)> {
    chunked_trace(o, n, window_count(n))
}

/// The texts of the first `k` windows, each as the first call returned it,
/// trimmed and joined in window order by single spaces.
pub open spec fn joined_windows(o: Oracle, n: int, k: int) -> Seq<char>
    decreases k,
{
    if k <= 0 {
        Seq::empty()
    } else {
        merged_with(joined_windows(o, n, k - 1), o(window_start(k - 1), window_end(n, k - 1))->Ok_0)
    }
}

/// The windows of `n` samples, in order.
pub open spec fn windows(n: int) -> Seq<(int, int)> {
    Seq::new(window_count(n) as nat, |i: int| (window_start(i), window_end(n, i)))
}

pub open spec fn pow2(k: nat) -> nat
    decreases k,
{
    if k == 0 {
        1
    } else {
        2 * pow2((k - 1) as nat)
    }
}

/// When every inference call succeeds, transcribing `n` samples calls the
/// inference function exactly once per window, `ceil(n / WHISPER_CHUNK_SAMPLES)`
/// times in all, on the windows in order, and yields the windows' texts joined
/// by single spaces in window order.
pub proof fn lemma_one_call_per_window(o: Oracle, n: int)
    requires
        n >= 0,
        forall|s: int, e: int| #[trigger] o(s, e) is Ok,
    ensures
        chunked_calls(o, n) == windows(n),
        chunked_calls(o, n).len() == window_count(n),
        chunked_outcome(o, n) == Ok::<Seq<char>, Seq<char>>(joined_windows(o, n, window_count(n))),
{
    lemma_all_succeed_prefix(o, n, window_count(n));
    assert(window_count(n) >= 0) by (nonlinear_arith)
        requires n >= 0, WHISPER_CHUNK_SAMPLES > 0;
    assert(chunked_calls(o, n) =~= windows(n));
}

proof fn lemma_all_succeed_prefix(o: Oracle, n: int, k: int)
    requires
        k >= 0,
        forall|s: int, e: int| #[trigger] o(s, e) is Ok,
    ensures
        chunked_trace(o, n, k) =~= Seq::new(k as nat, |i: int| (window_start(i), window_end(n, i))),
        chunked_prefix(o, n, k) == Ok::<Seq<char>, Seq<char>>(joined_windows(o, n, k)),
    decreases k,
{
    if k > 0 {
        lemma_all_succeed_prefix(o, n, k - 1);
        assert(o(window_start(k - 1), window_end(n, k - 1)) is Ok);
    }
}

/// Every range handed to the inference function for `[start, end)` lies
/// within it, and there are at most `2^(6 - depth) - 1` of them (at most 63
/// per window).
pub proof fn lemma_retry_trace_bounds(o: Oracle, start: int, end: int, depth: int)
    requires
        start <= end,
        0 <= depth <= WHISPER_MAX_RETRY_SPLIT_DEPTH,
    ensures
        retry_trace(o, start, end, depth)[0] == (start, end),
        1 <= retry_trace(o, start, end, depth).len() <= pow2(
            (WHISPER_MAX_RETRY_SPLIT_DEPTH + 1 - depth) as nat,
        ) - 1,
        forall|k: int|
            0 <= k < retry_trace(o, start, end, depth).len() ==> start <= (#[trigger] retry_trace(
                o,
                start,
                end,
                depth,
            )[k]).0 <= retry_trace(o, start, end, depth)[k].1 <= end,
    decreases WHISPER_MAX_RETRY_SPLIT_DEPTH - depth,
{
    let t = retry_trace(o, start, end, depth);
    let p = pow2((WHISPER_MAX_RETRY_SPLIT_DEPTH + 1 - depth) as nat);
    assert(p >= 2) by {
        assert(pow2((WHISPER_MAX_RETRY_SPLIT_DEPTH - depth) as nat) >= 1) by {
            lemma_pow2_positive((WHISPER_MAX_RETRY_SPLIT_DEPTH - depth) as nat);
        }
    }
    if let Err(m) = o(start, end) {
        if can_split(depth, end - start) && is_retryable(m) {
            let mid = start + (end - start) / 2;
            lemma_retry_trace_bounds(o, start, mid, depth + 1);
            lemma_retry_trace_bounds(o, mid, end, depth + 1);
            let l = retry_trace(o, start, mid, depth + 1);
            let r = retry_trace(o, mid, end, depth + 1);
            assert(t == seq![(start, end)] + l + r);
            assert forall|k: int| 0 <= k < t.len() implies start <= (#[trigger] t[k]).0 <= t[k].1
                <= end by {
                if k >= 1 && k < 1 + l.len() {
                    assert(t[k] == l[k - 1]);
                } else if k >= 1 + l.len() {
                    assert(t[k] == r[k - 1 - l.len()]);
                }
            }
        }
    }
}

proof fn lemma_pow2_positive(k: nat)
    ensures
        pow2(k) >= 1,
    decreases k,
{
    if k > 0 {
        lemma_pow2_positive((k - 1) as nat);
    }
}

/// A part of `[lo, hi)` in which every inference attempt fails, down to the
/// smallest part that bisection may produce, fails: nothing is recovered.
pub proof fn lemma_all_fail_range(o: Oracle, lo: int, hi: int, start: int, end: int, depth: int)
    requires
        lo <= start <= end <= hi,
        forall|s: int, e: int| lo <= s <= e <= hi ==> #[trigger] o(s, e) is Err,
    ensures
        retry_outcome(o, start, end, depth) is Err,
    decreases WHISPER_MAX_RETRY_SPLIT_DEPTH - depth,
{
    assert(o(start, end) is Err);
    let m = o(start, end)->Err_0;
    if can_split(depth, end - start) && is_retryable(m) {
        let mid = start + (end - start) / 2;
        lemma_all_fail_range(o, lo, hi, start, mid, depth + 1);
        lemma_all_fail_range(o, lo, hi, mid, end, depth + 1);
    }
}

/// A window in which every inference attempt fails, down to the smallest
/// part that bisection may produce, fails the whole transcription with an
/// error that names the window: its 1-based index and the number of windows.
/// No later window is handed to the inference function.
pub proof fn lemma_unrecoverable_window_fails(o: Oracle, n: int, i: int)
    requires
        0 <= n,
        0 <= i < window_count(n),
        chunked_prefix(o, n, i) is Ok,
        forall|s: int, e: int|
            window_start(i) <= s <= e <= window_end(n, i) ==> #[trigger] o(s, e) is Err,
    ensures
        chunked_outcome(o, n) == Err::<Seq<char>, Seq<char>>(
            window_error(i, window_count(n), retry_outcome(o, window_start(i), window_end(n, i), 0)->Err_0),
        ),
        chunked_calls(o, n) == chunked_trace(o, n, i + 1),
{
    lemma_window_bounds(n, i);
    lemma_all_fail_range(o, window_start(i), window_end(n, i), window_start(i), window_end(n, i), 0);
    lemma_prefix_error_persists(o, n, i + 1, window_count(n));
}

/// A part whose first attempt fails with a retryable error, and whose two
/// halves then succeed, yields the trimmed texts of both halves joined by one
/// space; the failure does not reach the caller. Exactly three calls are made:
/// the part, its left half, its right half.
pub proof fn lemma_recovery_by_bisection(
    o: Oracle,
    start: int,
    end: int,
    depth: int,
    left: Seq<char>,
    right: Seq<char>,
)
    requires
        can_split(depth, end - start),
        o(start, end) is Err,
        is_retryable(o(start, end)->Err_0),
        o(start, start + (end - start) / 2) == Ok::<Seq<char>, Seq<char>>(left),
        o(start + (end - start) / 2, end) == Ok::<Seq<char>, Seq<char>>(right),
    ensures
        retry_outcome(o, start, end, depth) == Ok::<Seq<char>, Seq<char>>(space_join(trim(left), trim(right))),
        retry_trace(o, start, end, depth) == seq![
            (start, end),
            (start, start + (end - start) / 2),
            (start + (end - start) / 2, end),
        ],
{
    let mid = start + (end - start) / 2;
    assert(merged_with(Seq::empty(), left) =~= trim(left));
    let text = recovered_text(
        Ok::<Seq<char>, Seq<char>>(left),
        Ok::<Seq<char>, Seq<char>>(right),
    );
    assert(text =~= space_join(trim(left), trim(right)));
    assert(retry_outcome(o, start, mid, depth + 1) == Ok::<Seq<char>, Seq<char>>(left));
    assert(retry_outcome(o, mid, end, depth + 1) == Ok::<Seq<char>, Seq<char>>(right));
    assert(retry_trace(o, start, mid, depth + 1) == seq![(start, mid)]);
    assert(retry_trace(o, mid, end, depth + 1) == seq![(mid, end)]);
    assert(retry_trace(o, start, end, depth) == seq![(start, end)] + seq![(start, mid)] + seq![
        (mid, end),
    ]);
    assert(retry_trace(o, start, end, depth) =~= seq![(start, end), (start, mid), (mid, end)]);
}

/// Whether an error message names a decoder failure that bisection may
/// recover from.
pub fn is_retryable_whisper_error(error_message: &str) -> (r: bool)
    ensures
        r == is_retryable(error_message@),
{
    str_contains(error_message, "Invalid UTF-8 detected in a string from Whisper")
        || str_contains(error_message, "FailedToDecode")
        || str_contains(error_message, "UnableToCalculateSpectrogram")
}

fn depth_error_message(depth: u8, len: usize, msg: &str) -> (r: String)
    ensures
        r@ == depth_error(depth as int, len as int, msg@),
{
    let mut s = String::from_str("Whisper chunk failed at depth ");
    s.append(decimal_string(depth as usize).as_str());
    s.append(" (");
    s.append(decimal_string(len).as_str());
    s.append(" samples): ");
    s.append(msg);
    s
}

fn split_error_message(len: usize, msg: &str) -> (r: String)
    ensures
        r@ == split_error(len as int, msg@),
{
    let mut s = String::from_str("Whisper chunk failed after split retries (");
    s.append(decimal_string(len).as_str());
    s.append(" samples): ");
    s.append(msg);
    s
}

fn window_error_message(index: usize, total: usize, msg: &str) -> (r: String)
    requires
        index < total,
    ensures
        r@ == window_error(index as int, total as int, msg@),
{
    let mut s = String::from_str("Whisper transcription failed on chunk ");
    s.append(decimal_string(index + 1).as_str());
    s.append("/");
    s.append(decimal_string(total).as_str());
    s.append(": ");
    s.append(msg);
    s
}

/// Combines the outcomes of the two halves of a part of `len` samples whose
/// first attempt failed with `error_message`.
pub fn merge_split_results(
    left: Result<String, String>,
    right: Result<String, String>,
    len: usize,
    error_message: &str,
) -> (r: Result<String, String>)
    ensures
        outcome_view(r) == merge_halves(
            outcome_view(left),
            outcome_view(right),
            len as int,
            error_message@,
        ),
{
    if left.is_err() && right.is_err() {
        return Err(split_error_message(len, error_message));
    }
    let mut recovered = String::new();
    match &left {
        Ok(text) => append_non_empty_transcription(&mut recovered, text.as_str()),
        Err(_) => {},
    }
    match &right {
        Ok(text) => append_non_empty_transcription(&mut recovered, text.as_str()),
        Err(_) => {},
    }
    Ok(recovered)
}

/// Transcribes `[start, end)`; on a retryable failure of a part that may
/// still be split, transcribes its two halves one level deeper and keeps what
/// they recover. Beside the result it gives the ranges that were handed to
/// `transcribe_chunk`, in call order.
pub fn transcribe_whisper_chunk_with_retry<F: Fn(usize, usize) -> Result<String, String>>(
    transcribe_chunk: &F,
    start: usize,
    end: usize,
    depth: u8,
) -> (r: (Result<String, String>, Ghost<Seq<(int, int)>>))
    requires
        start <= end,
        forall|s: usize, e: usize| start <= s <= e <= end ==> #[trigger] transcribe_chunk.requires((s, e)),
    ensures
        forall|o: Oracle| #[trigger] answers(*transcribe_chunk, o) ==> {
            &&& outcome_view(r.0) == retry_outcome(o, start as int, end as int, depth as int)
            &&& r.1@ == retry_trace(o, start as int, end as int, depth as int)
        },
    decreases WHISPER_MAX_RETRY_SPLIT_DEPTH - depth,
{
    let first = transcribe_chunk(start, end);
    let ghost calls = seq![(start as int, end as int)];
    match first {
        Ok(text) => (Ok(text), Ghost(calls)),
        Err(error_message) => {
            let len = end - start;
            let can_split = depth < WHISPER_MAX_RETRY_SPLIT_DEPTH && len > WHISPER_MIN_RETRY_CHUNK_SAMPLES * 2;
            if !can_split || !is_retryable_whisper_error(error_message.as_str()) {
                return (Err(depth_error_message(depth, len, error_message.as_str())), Ghost(calls));
            }
            let mid = start + len / 2;
            let (left, left_calls) = transcribe_whisper_chunk_with_retry(transcribe_chunk, start, mid, depth + 1);
            let (right, right_calls) = transcribe_whisper_chunk_with_retry(transcribe_chunk, mid, end, depth + 1);
            (
                merge_split_results(left, right, len, error_message.as_str()),
                Ghost(calls + left_calls@ + right_calls@),
            )
        },
    }
}

proof fn lemma_prefix_error_persists(o: Oracle, n: int, k: int, m: int)
    requires
        0 <= k <= m,
        chunked_prefix(o, n, k) is Err,
    ensures
        chunked_prefix(o, n, m) == chunked_prefix(o, n, k),
        chunked_trace(o, n, m) == chunked_trace(o, n, k),
    decreases m - k,
{
    if k < m {
        lemma_prefix_error_persists(o, n, k, m - 1);
    }
}

proof fn lemma_window_bounds(n: int, i: int)
    requires
        0 <= n,
        0 <= i < window_count(n),
    ensures
        window_start(i) < n,
        window_start(i) < window_end(n, i) <= n,
        window_end(n, i) - window_start(i) <= WHISPER_CHUNK_SAMPLES,
{
    let w = WHISPER_CHUNK_SAMPLES as int;
    assert(i * w < n) by (nonlinear_arith)
        requires
            w > 0,
            0 <= i,
            i < (n + w - 1) / w,
    ;
    assert((i + 1) * w == i * w + w) by (nonlinear_arith);
}

/// Transcribes `audio_len` samples in consecutive windows of
/// `WHISPER_CHUNK_SAMPLES` (the last may be shorter), in order, joining the
/// trimmed, non-empty text of each window with single spaces. The first window
/// that cannot be recovered ends the call with an error naming its 1-based
/// index and the number of windows. Beside the result it gives the ranges that
/// were handed to `transcribe_chunk`, in call order.
pub fn transcribe_whisper_with_chunking_internal<F: Fn(usize, usize) -> Result<String, String>>(
    audio_len: usize,
    transcribe_chunk: &F,
) -> (r: (Result<String, String>, Ghost<Seq<(int, int)>>))
    requires
        forall|s: usize, e: usize| s <= e <= audio_len ==> #[trigger] transcribe_chunk.requires((s, e)),
    ensures
        forall|o: Oracle| #[trigger] answers(*transcribe_chunk, o) ==> {
            &&& outcome_view(r.0) == chunked_outcome(o, audio_len as int)
            &&& r.1@ == chunked_calls(o, audio_len as int)
        },
{
    let ghost n = audio_len as int;
    let total: usize = if audio_len % WHISPER_CHUNK_SAMPLES == 0 {
        audio_len / WHISPER_CHUNK_SAMPLES
    } else {
        audio_len / WHISPER_CHUNK_SAMPLES + 1
    };
    assert(total as int == window_count(n)) by {
        let w = WHISPER_CHUNK_SAMPLES as int;
        let q = n / w;
        let rem = n % w;
        assert(n == q * w + rem && 0 <= rem < w) by (nonlinear_arith)
            requires w > 0, q == n / w, rem == n % w, n >= 0;
        assert(rem == 0 ==> (n + w - 1) / w == q) by (nonlinear_arith)
            requires w > 0, n == q * w + rem, 0 <= rem < w;
        assert(rem > 0 ==> (n + w - 1) / w == q + 1) by (nonlinear_arith)
            requires w > 0, n == q * w + rem, 0 <= rem < w;
    }
    let mut merged = String::new();
    let ghost mut calls: Seq<(int, int)> = Seq::empty();
    let mut index: usize = 0;
    while index < total
        invariant
            index <= total,
            total as int == window_count(n),
            n == audio_len as int,
            forall|s: usize, e: usize| s <= e <= audio_len ==> #[trigger] transcribe_chunk.requires((s, e)),
            forall|o: Oracle| #[trigger] answers(*transcribe_chunk, o) ==> {
                &&& chunked_prefix(o, n, index as int) == Ok::<Seq<char>, Seq<char>>(merged@)
                &&& chunked_trace(o, n, index as int) == calls
            },
        decreases total - index,
    {
        proof {
            lemma_window_bounds(n, index as int);
        }
        let start = index * WHISPER_CHUNK_SAMPLES;
        let end = if audio_len - start >= WHISPER_CHUNK_SAMPLES {
            start + WHISPER_CHUNK_SAMPLES
        } else {
            audio_len
        };
        assert(end as int == window_end(n, index as int));
        let (result, window_calls) = transcribe_whisper_chunk_with_retry(transcribe_chunk, start, end, 0);
        let ghost before_calls = calls;
        proof {
            calls = calls + window_calls@;
        }
        match result {
            Ok(text) => {
                let ghost before = merged@;
                append_non_empty_transcription(&mut merged, text.as_str());
                assert forall|o: Oracle| #[trigger] answers(*transcribe_chunk, o) implies {
                    &&& chunked_prefix(o, n, index + 1) == Ok::<Seq<char>, Seq<char>>(merged@)
                    &&& chunked_trace(o, n, index + 1) == calls
                } by {
                    assert(chunked_prefix(o, n, index as int) == Ok::<Seq<char>, Seq<char>>(before));
                    assert(chunked_trace(o, n, index as int) == before_calls);
                }
            },
            Err(error_message) => {
                let r = Err(window_error_message(index, total, error_message.as_str()));
                assert forall|o: Oracle| #[trigger] answers(*transcribe_chunk, o) implies {
                    &&& outcome_view(r) == chunked_outcome(o, n)
                    &&& calls == chunked_calls(o, n)
                } by {
                    assert(chunked_trace(o, n, index as int) == before_calls);
                    assert(chunked_prefix(o, n, index + 1) == outcome_view(r));
                    assert(chunked_trace(o, n, index + 1) == calls);
                    lemma_prefix_error_persists(o, n, index + 1, total as int);
                }
                return (r, Ghost(calls));
            },
        }
        index += 1;
    }
    (Ok(merged), Ghost(calls))
}

} // verus!
