//! The decisions of the worker-process adapter: the requests it sends, how it
//! reads the responses, when a transcription falls back to the raw encoding,
//! and what a restart replays. Spawning the process and moving bytes through
//! its pipes is the caller's part.
use vstd::prelude::*;

use crate::text::{opt_view, trim, trim_str};

verus! {

/// A request to the worker. Absent fields are left out of the JSON object.
#[derive(Clone, Debug)]
pub struct SidecarRequest {
    pub request_type: String,
    pub model_path: Option<String>,
    pub audio_path: Option<String>,
    pub language: Option<String>,
}

/// A response of the worker. Fields that it did not send are `None`.
#[derive(Clone, Debug)]
pub struct SidecarResponse {
    pub response_type: String,
    pub success: Option<bool>,
    pub text: Option<String>,
    pub error: Option<String>,
    pub model_loaded: Option<bool>,
}

fn opt_string(s: &str) -> (r: Option<String>)
    ensures
        opt_view(r) == Some(s@),
{
    Some(String::from_str(s))
}

pub fn load_request(model_path: &str) -> (r: SidecarRequest)
    ensures
        r.request_type@ == "load"@,
        opt_view(r.model_path) == Some(model_path@),
        r.audio_path is None,
        r.language is None,
{
    SidecarRequest {
        request_type: String::from_str("load"),
        model_path: opt_string(model_path),
        audio_path: None,
        language: None,
    }
}

pub fn transcribe_request(audio_path: &str, language: &str) -> (r: SidecarRequest)
    ensures
        r.request_type@ == "transcribe"@,
        r.model_path is None,
        opt_view(r.audio_path) == Some(audio_path@),
        opt_view(r.language) == Some(language@),
{
    SidecarRequest {
        request_type: String::from_str("transcribe"),
        model_path: None,
        audio_path: opt_string(audio_path),
        language: opt_string(language),
    }
}

pub fn unload_request() -> (r: SidecarRequest)
    ensures
        r.request_type@ == "unload"@,
        r.model_path is None,
        r.audio_path is None,
        r.language is None,
{
    SidecarRequest {
        request_type: String::from_str("unload"),
        model_path: None,
        audio_path: None,
        language: None,
    }
}

pub fn shutdown_request() -> (r: SidecarRequest)
    ensures
        r.request_type@ == "shutdown"@,
        r.model_path is None,
        r.audio_path is None,
        r.language is None,
{
    SidecarRequest {
        request_type: String::from_str("shutdown"),
        model_path: None,
        audio_path: None,
        language: None,
    }
}

/// Frames one encoded request as a line: the JSON text and a newline.
pub fn frame_request(json: String) -> (r: String)
    ensures
        r@ == json@ + seq!['\n'],
{
    let mut line = json;
    proof {
        reveal_strlit("\n");
    }
    line.append("\n");
    line
}

pub open spec fn empty_response_message() -> Seq<char> {
    "Sidecar returned empty response (process may have crashed)"@
}

/// Checks one line read from the worker: an empty read means the process died
/// in the middle of the request; otherwise the line, trimmed, is the JSON text
/// of the response.
pub fn check_response_line(line: &str) -> (r: Result<&str, String>)
    ensures
        line@.len() == 0 ==> r is Err && r->Err_0@ == empty_response_message(),
        line@.len() > 0 ==> r is Ok && r->Ok_0@ == trim(line@),
{
    if line.is_empty() {
        return Err(String::from_str("Sidecar returned empty response (process may have crashed)"));
    }
    Ok(trim_str(line))
}

/// The error of a response that could not be parsed.
pub fn parse_error_message(line: &str) -> (r: String)
    ensures
        r@ == "Failed to parse sidecar response: "@ + trim(line@),
{
    let mut msg = String::from_str("Failed to parse sidecar response: ");
    msg.append(trim_str(line));
    msg
}

/// The worker reported success.
pub open spec fn succeeded(r: SidecarResponse) -> bool {
    r.success == Some(true)
}

/// The error text of a response, or `default` where it carries none.
pub open spec fn error_or(r: SidecarResponse, default: Seq<char>) -> Seq<char> {
    match r.error {
        Some(e) => e@,
        None => default,
    }
}

/// The transcript of a response; a missing one is empty.
pub open spec fn text_of(r: SidecarResponse) -> Seq<char> {
    match r.text {
        Some(t) => t@,
        None => Seq::empty(),
    }
}

fn error_text(response: &SidecarResponse, default: &str) -> (r: String)
    ensures
        r@ == error_or(*response, default@),
{
    match &response.error {
        Some(e) => e.clone(),
        None => String::from_str(default),
    }
}

fn transcript(response: &SidecarResponse) -> (r: String)
    ensures
        r@ == text_of(*response),
{
    match &response.text {
        Some(t) => t.clone(),
        None => String::new(),
    }
}

/// What a `load` response means: success, or an error with the worker's
/// message.
pub fn load_response_result(response: &SidecarResponse) -> (r: Result<(), String>)
    ensures
        succeeded(*response) <==> r is Ok,
        !succeeded(*response) ==> r is Err && r->Err_0@ == "WhisperKit load failed: "@ + error_or(
            *response,
            "Unknown error loading model"@,
        ),
{
    if response.success == Some(true) {
        Ok(())
    } else {
        let mut msg = String::from_str("WhisperKit load failed: ");
        msg.append(error_text(response, "Unknown error loading model").as_str());
        Err(msg)
    }
}

/// The two encodings of the audio file handed to the worker.
#[derive(Clone, Copy, Debug, PartialEq, Eq, Structural)]
pub enum AudioEncoding {
    /// Mono 16 kHz WAV with 16-bit integer samples.
    WavPcm16,
    /// Raw little-endian 32-bit float samples.
    RawF32,
}

/// Where a transcription stands.
#[derive(Clone, Copy, Debug, PartialEq, Eq, Structural)]
pub enum FlowStage {
    AwaitWav,
    AwaitRaw,
    Done,
}

/// What the adapter does after a transcription response.
#[derive(Debug)]
pub enum FlowAction {
    /// Write the audio in this encoding and send it.
    Send(AudioEncoding),
    /// The transcription is over with this result.
    Finish(Result<String, String>),
}

pub enum FlowActionView {
    Send(AudioEncoding),
    Finish(Result<Seq<char>, Seq<char>>),
}

pub open spec fn action_view(a: FlowAction) -> FlowActionView {
    match a {
        FlowAction::Send(e) => FlowActionView::Send(e),
        FlowAction::Finish(Ok(t)) => FlowActionView::Finish(Ok(t@)),
        FlowAction::Finish(Err(e)) => FlowActionView::Finish(Err(e@)),
    }
}

/// An empty transcript of audio that is clearly not silent is not believed.
pub open spec fn suspicious_empty(r: SidecarResponse, non_silent: bool) -> bool {
    trim(text_of(r)).len() == 0 && non_silent
}

/// The step of a transcription at `stage` on a response (or a transport
/// error). The WAV attempt is believed when it succeeds with a transcript that
/// is not suspiciously empty; anything else falls back, once, to the raw
/// encoding, whose result is final.
pub open spec fn flow_step(
    stage: FlowStage,
    non_silent: bool,
    response: Result<SidecarResponse, String>,
) -> (FlowStage, FlowActionView) {
    match stage {
        FlowStage::AwaitWav => match response {
            Ok(r) => if succeeded(r) && !suspicious_empty(r, non_silent) {
                (FlowStage::Done, FlowActionView::Finish(Ok(text_of(r))))
            } else {
                (FlowStage::AwaitRaw, FlowActionView::Send(AudioEncoding::RawF32))
            },
            Err(_) => (FlowStage::AwaitRaw, FlowActionView::Send(AudioEncoding::RawF32)),
        },
        _ => match response {
            Ok(r) => if succeeded(r) {
                (FlowStage::Done, FlowActionView::Finish(Ok(text_of(r))))
            } else {
                (
                    FlowStage::Done,
                    FlowActionView::Finish(
                        Err(
                            "WhisperKit transcription failed: "@ + error_or(
                                r,
                                "Unknown transcription error"@,
                            ),
                        ),
                    ),
                )
            },
            Err(e) => (FlowStage::Done, FlowActionView::Finish(Err(e@))),
        },
    }
}

/// One transcription through the worker: first the WAV encoding, then at
/// most one fallback to the raw encoding.
pub struct TranscribeFlow {
    stage: FlowStage,
    non_silent: bool,
}

impl TranscribeFlow {
    pub closed spec fn stage(&self) -> FlowStage {
        self.stage
    }

    pub closed spec fn non_silent(&self) -> bool {
        self.non_silent
    }

    /// Starts a transcription; `non_silent` says whether the audio's RMS
    /// amplitude exceeds the silence threshold. The first request carries
    /// the WAV encoding.
    pub fn new(non_silent: bool) -> (r: (Self, AudioEncoding))
        ensures
            r.0.stage() == FlowStage::AwaitWav,
            r.0.non_silent() == non_silent,
            r.1 == AudioEncoding::WavPcm16,
    {
        (TranscribeFlow { stage: FlowStage::AwaitWav, non_silent }, AudioEncoding::WavPcm16)
    }

    pub fn is_done(&self) -> (r: bool)
        ensures
            r == (self.stage() == FlowStage::Done),
    {
        self.stage == FlowStage::Done
    }

    /// Takes the response to the last request (or the error of sending it).
    pub fn on_response(&mut self, response: Result<SidecarResponse, String>) -> (r: FlowAction)
        requires
            old(self).stage() != FlowStage::Done,
        ensures
            final(self).non_silent() == old(self).non_silent(),
            (final(self).stage(), action_view(r)) == flow_step(
                old(self).stage(),
                old(self).non_silent(),
                response,
            ),
    {
        match self.stage {
            FlowStage::AwaitWav => {
                let accepted = match &response {
                    Ok(r) => if r.success == Some(true) {
                        let text = transcript(r);
                        if trim_str(text.as_str()).is_empty() && self.non_silent {
                            None
                        } else {
                            Some(text)
                        }
                    } else {
                        None
                    },
                    Err(_) => None,
                };
                match accepted {
                    Some(text) => {
                        self.stage = FlowStage::Done;
                        FlowAction::Finish(Ok(text))
                    },
                    None => {
                        self.stage = FlowStage::AwaitRaw;
                        FlowAction::Send(AudioEncoding::RawF32)
                    },
                }
            },
            _ => {
                self.stage = FlowStage::Done;
                match response {
                    Ok(r) => if r.success == Some(true) {
                        FlowAction::Finish(Ok(transcript(&r)))
                    } else {
                        let mut msg = String::from_str("WhisperKit transcription failed: ");
                        msg.append(error_text(&r, "Unknown transcription error").as_str());
                        FlowAction::Finish(Err(msg))
                    },
                    Err(e) => FlowAction::Finish(Err(e)),
                }
            },
        }
    }
}

/// What `ensure_running` must do before a request.
#[derive(Clone, Debug)]
pub enum EnsureRunning {
    /// The process is alive: go on.
    Running,
    /// Spawn the process again, then replay a `load` of this model path if
    /// there is one.
    Restart(Option<String>),
}

/// The adapter's record of its worker: whether it is believed alive (its
/// pipes are held exactly then), and the model path last loaded, for replay.
pub struct SidecarSession {
    running: bool,
    loaded_model_path: Option<String>,
}

impl SidecarSession {
    pub closed spec fn running(&self) -> bool {
        self.running
    }

    pub closed spec fn loaded_path(&self) -> Option<Seq<char>> {
        opt_view(self.loaded_model_path)
    }

    /// Not started, no model recorded.
    pub fn new() -> (r: Self)
        ensures
            !r.running(),
            r.loaded_path() is None,
    {
        SidecarSession { running: false, loaded_model_path: None }
    }

    pub fn is_running(&self) -> (r: bool)
        ensures
            r == self.running(),
    {
        self.running
    }

    pub fn loaded_model_path(&self) -> (r: Option<String>)
        ensures
            opt_view(r) == self.loaded_path(),
    {
        match &self.loaded_model_path {
            Some(p) => Some(p.clone()),
            None => None,
        }
    }

    /// The process was spawned and its pipes taken.
    pub fn mark_started(&mut self)
        ensures
            final(self).running(),
            final(self).loaded_path() == old(self).loaded_path(),
    {
        self.running = true;
    }

    /// The process was seen to exit, or was shut down: its pipes are dropped.
    pub fn mark_exited(&mut self)
        ensures
            !final(self).running(),
            final(self).loaded_path() == old(self).loaded_path(),
    {
        self.running = false;
    }

    /// The worker confirmed the load of `model_path`.
    pub fn record_loaded(&mut self, model_path: &str)
        ensures
            final(self).running() == old(self).running(),
            final(self).loaded_path() == Some(model_path@),
    {
        self.loaded_model_path = Some(String::from_str(model_path));
    }

    /// Forgets the loaded model; returns whether an `unload` request is to be
    /// sent, which is only while the process runs.
    pub fn begin_unload(&mut self) -> (r: bool)
        ensures
            r == old(self).running(),
            final(self).running() == old(self).running(),
            final(self).loaded_path() is None,
    {
        self.loaded_model_path = None;
        self.running
    }

    /// What must happen before the next request: nothing while the process
    /// runs; otherwise a restart, with a replay of the recorded model.
    pub fn ensure_running_plan(&self) -> (r: EnsureRunning)
        ensures
            self.running() ==> r is Running,
            !self.running() ==> r is Restart && opt_view(r->Restart_0) == self.loaded_path(),
    {
        if self.running {
            EnsureRunning::Running
        } else {
            EnsureRunning::Restart(self.loaded_model_path())
        }
    }
}

/// The error of a replayed load that failed after a restart.
pub fn restore_error(model_path: &str, cause: &str) -> (r: String)
    ensures
        r@ == "Failed to restore WhisperKit model after sidecar restart: "@ + model_path@ + ": "@
            + cause@,
{
    let mut msg = String::from_str("Failed to restore WhisperKit model after sidecar restart: ");
    msg.append(model_path);
    msg.append(": ");
    msg.append(cause);
    msg
}

/// A successful response with an empty transcript, for audio known not to be
/// silent, leads to exactly one more request, in the raw encoding; whatever
/// the worker answers to it (or if sending it fails) is the final result.
pub proof fn lemma_suspicious_empty_falls_back_once(
    wav: SidecarResponse,
    raw: Result<SidecarResponse, String>,
)
    requires
        succeeded(wav),
        trim(text_of(wav)).len() == 0,
    ensures
        flow_step(FlowStage::AwaitWav, true, Ok(wav)) == (
            FlowStage::AwaitRaw,
            FlowActionView::Send(AudioEncoding::RawF32),
        ),
        flow_step(FlowStage::AwaitRaw, true, raw).0 == FlowStage::Done,
        flow_step(FlowStage::AwaitRaw, true, raw).1 is Finish,
{
}

} // verus!
