//! The single-slot engine cache: which engine is loaded, for which model, and
//! whether a load is in flight. Every transition that the manager makes under
//! its lock is a method here; the manager holds the lock and the condition
//! variable, constructs and drops the engines, and delivers the events.
use vstd::prelude::*;

use crate::text::{opt_view, str_equals};

verus! {

/// The mutually exclusive kinds of inference engine.
#[derive(Clone, Copy, Debug, PartialEq, Eq, Structural)]
pub enum EngineKind {
    Whisper,
    Parakeet,
    Moonshine,
    SenseVoice,
}

/// When an idle model is released.
#[derive(Clone, Copy, Debug, PartialEq, Eq, Structural)]
pub enum UnloadTimeout {
    Never,
    AfterSeconds(u64),
    Immediately,
}

/// A model of the catalog, as the load reads it.
#[derive(Clone, Debug)]
pub struct ModelDescriptor {
    pub id: String,
    pub name: String,
    pub engine_type: EngineKind,
    pub is_downloaded: bool,
}

/// A notification of a change of the slot, for observers.
#[derive(Clone, Debug)]
pub struct ModelStateEvent {
    pub event_type: String,
    pub model_id: Option<String>,
    pub model_name: Option<String>,
    pub error: Option<String>,
}

/// What a caller of `load` does next.
#[derive(Clone, Copy, Debug, PartialEq, Eq, Structural)]
pub enum LoadStep {
    /// Another load is in flight: wait on the condition variable, then ask again.
    Wait,
    /// The requested model is already loaded: nothing to do.
    AlreadyLoaded,
    /// The caller now owns the load: construct the engine, then `finish_load`.
    Proceed,
}

/// What a transcription request does next.
#[derive(Clone, Copy, Debug, PartialEq, Eq, Structural)]
pub enum TranscribeStep {
    /// Empty audio: the result is the empty string; the engine is not touched.
    ReturnEmpty,
    /// A load is in flight: wait on the condition variable, then ask again.
    Wait,
    /// No engine is loaded.
    NotLoaded,
    /// Run the loaded engine of this kind.
    Dispatch(EngineKind),
}

/// What the idle watcher does on one wake.
#[derive(Clone, Copy, Debug, PartialEq, Eq, Structural)]
pub enum WatcherStep {
    /// Shutdown was signalled: leave the loop.
    Exit,
    /// Nothing to do until the next wake.
    Sleep,
    /// The model has been idle too long: unload it.
    Unload,
}

pub struct LoadStateView {
    pub is_loading: bool,
    pub model: Option<Seq<char>>,
    pub engine: Option<EngineKind>,
}

/// The state that the manager's lock guards.
pub struct LoadState {
    is_loading: bool,
    current_model_id: Option<String>,
    engine: Option<EngineKind>,
}

impl View for LoadState {
    type V = LoadStateView;

    closed spec fn view(&self) -> LoadStateView {
        LoadStateView {
            is_loading: self.is_loading,
            model: opt_view(self.current_model_id),
            engine: self.engine,
        }
    }
}

/// A model id is recorded exactly while an engine is present.
pub open spec fn slot_consistent(s: LoadStateView) -> bool {
    s.model is Some <==> s.engine is Some
}

/// The state in which nothing is loaded and no load is in flight.
pub open spec fn empty_state() -> LoadStateView {
    LoadStateView { is_loading: false, model: None, engine: None }
}

/// The answer to a `load` request for `id`, and the state after it.
pub open spec fn begin_load_spec(s: LoadStateView, id: Seq<char>) -> (LoadStep, LoadStateView) {
    if s.is_loading {
        (LoadStep::Wait, s)
    } else if s.engine is Some && s.model == Some(id) {
        (LoadStep::AlreadyLoaded, s)
    } else {
        (LoadStep::Proceed, LoadStateView { is_loading: true, ..s })
    }
}

/// The state after the load of `id` ends: with the new engine installed, or
/// with the slot empty where construction failed. Either way no load is in
/// flight any more.
pub open spec fn finish_load_spec(
    s: LoadStateView,
    id: Seq<char>,
    loaded: Option<EngineKind>,
) -> LoadStateView {
    match loaded {
        Some(k) => LoadStateView { is_loading: false, model: Some(id), engine: Some(k) },
        None => LoadStateView { is_loading: false, model: None, engine: None },
    }
}

/// The state after an unload: no engine and no model id.
pub open spec fn unload_spec(s: LoadStateView) -> LoadStateView {
    LoadStateView { is_loading: s.is_loading, model: None, engine: None }
}

pub open spec fn transcribe_step_spec(s: LoadStateView, audio_len: nat) -> TranscribeStep {
    if audio_len == 0 {
        TranscribeStep::ReturnEmpty
    } else if s.is_loading {
        TranscribeStep::Wait
    } else {
        match s.engine {
            Some(k) => TranscribeStep::Dispatch(k),
            None => TranscribeStep::NotLoaded,
        }
    }
}

impl LoadState {
    pub open spec fn wf(&self) -> bool {
        slot_consistent(self@)
    }

    /// Nothing loaded, no load in flight.
    pub fn new() -> (r: Self)
        ensures
            r.wf(),
            r@ == empty_state(),
    {
        LoadState { is_loading: false, current_model_id: None, engine: None }
    }

    pub fn is_loading(&self) -> (r: bool)
        ensures
            r == self@.is_loading,
    {
        self.is_loading
    }

    pub fn is_model_loaded(&self) -> (r: bool)
        ensures
            r == (self@.engine is Some),
    {
        self.engine.is_some()
    }

    pub fn loaded_engine(&self) -> (r: Option<EngineKind>)
        ensures
            r == self@.engine,
    {
        self.engine
    }

    pub fn get_current_model(&self) -> (r: Option<String>)
        ensures
            opt_view(r) == self@.model,
    {
        match &self.current_model_id {
            Some(id) => Some(id.clone()),
            None => None,
        }
    }

    /// An engine is loaded, and for `model_id`.
    pub fn is_requested_model_loaded(&self, model_id: &str) -> (r: bool)
        ensures
            r == (self@.engine is Some && self@.model == Some(model_id@)),
    {
        match &self.current_model_id {
            Some(id) => self.engine.is_some() && str_equals(id.as_str(), model_id),
            None => false,
        }
    }

    /// Asks to load `model_id`: wait while another load is in flight, skip it
    /// when that model is already loaded, and otherwise take the load over.
    pub fn begin_load(&mut self, model_id: &str) -> (r: LoadStep)
        requires
            old(self).wf(),
        ensures
            final(self).wf(),
            (r, final(self)@) == begin_load_spec(old(self)@, model_id@),
    {
        if self.is_loading {
            return LoadStep::Wait;
        }
        if self.is_requested_model_loaded(model_id) {
            return LoadStep::AlreadyLoaded;
        }
        self.is_loading = true;
        LoadStep::Proceed
    }

    /// Ends the load of `model_id` that `begin_load` handed out: installs the
    /// engine of kind `loaded`, or, where construction failed (`None`), leaves
    /// the slot empty. Clears the loading flag in both cases.
    pub fn finish_load(&mut self, model_id: &str, loaded: Option<EngineKind>)
        requires
            old(self).wf(),
        ensures
            final(self).wf(),
            final(self)@ == finish_load_spec(old(self)@, model_id@, loaded),
    {
        match loaded {
            Some(k) => {
                self.engine = Some(k);
                self.current_model_id = Some(String::from_str(model_id));
            },
            None => {
                self.engine = None;
                self.current_model_id = None;
            },
        }
        self.is_loading = false;
    }

    /// Clears the loading flag alone, for a load that ended before any
    /// engine was constructed (an unknown or absent model).
    pub fn abandon_load(&mut self)
        requires
            old(self).wf(),
        ensures
            final(self).wf(),
            final(self)@ == (LoadStateView { is_loading: false, ..old(self)@ }),
    {
        self.is_loading = false;
    }

    /// Empties the slot, returning the kind of the engine that was loaded,
    /// whose native resources the caller then releases.
    pub fn unload_model(&mut self) -> (r: Option<EngineKind>)
        requires
            old(self).wf(),
        ensures
            final(self).wf(),
            r == old(self)@.engine,
            final(self)@ == unload_spec(old(self)@),
    {
        let r = self.engine;
        self.engine = None;
        self.current_model_id = None;
        r
    }

    /// The next step of a transcription request of `audio_len` samples.
    pub fn transcribe_step(&self, audio_len: usize) -> (r: TranscribeStep)
        ensures
            r == transcribe_step_spec(self@, audio_len as nat),
    {
        if audio_len == 0 {
            TranscribeStep::ReturnEmpty
        } else if self.is_loading {
            TranscribeStep::Wait
        } else {
            match self.engine {
                Some(k) => TranscribeStep::Dispatch(k),
                None => TranscribeStep::NotLoaded,
            }
        }
    }
}

/// Whether the model is released right after each transcription.
pub fn should_unload_immediately(policy: UnloadTimeout, model_loaded: bool) -> (r: bool)
    ensures
        r == (policy == UnloadTimeout::Immediately && model_loaded),
{
    match policy {
        UnloadTimeout::Immediately => model_loaded,
        _ => false,
    }
}

/// More than `limit_seconds` have passed from `last_ms` to `now_ms`.
pub open spec fn idle_expired(now_ms: int, last_ms: int, limit_seconds: int) -> bool {
    now_ms > last_ms && now_ms - last_ms > limit_seconds * 1000
}

pub open spec fn watcher_step_spec(
    shutdown: bool,
    policy: UnloadTimeout,
    now_ms: int,
    last_ms: int,
    model_loaded: bool,
) -> WatcherStep {
    if shutdown {
        WatcherStep::Exit
    } else {
        match policy {
            UnloadTimeout::AfterSeconds(limit) => if model_loaded && idle_expired(
                now_ms,
                last_ms,
                limit as int,
            ) {
                WatcherStep::Unload
            } else {
                WatcherStep::Sleep
            },
            _ => WatcherStep::Sleep,
        }
    }
}

/// One wake of the idle watcher: leave on shutdown; unload a loaded model
/// whose idle time exceeds a timeout given in seconds; otherwise sleep on.
/// A model released immediately after each use is not the watcher's concern.
pub fn idle_watcher_step(
    shutdown: bool,
    policy: UnloadTimeout,
    now_ms: u64,
    last_activity_ms: u64,
    model_loaded: bool,
) -> (r: WatcherStep)
    ensures
        r == watcher_step_spec(
            shutdown,
            policy,
            now_ms as int,
            last_activity_ms as int,
            model_loaded,
        ),
{
    if shutdown {
        return WatcherStep::Exit;
    }
    match policy {
        UnloadTimeout::AfterSeconds(limit) => {
            if !model_loaded || now_ms <= last_activity_ms {
                return WatcherStep::Sleep;
            }
            let idle = now_ms - last_activity_ms;
            if limit > u64::MAX / 1000 {
                assert(limit * 1000 > u64::MAX) by (nonlinear_arith)
                    requires
                        limit > u64::MAX / 1000,
                ;
                return WatcherStep::Sleep;
            }
            assert(limit * 1000 <= u64::MAX) by (nonlinear_arith)
                requires
                    limit <= u64::MAX / 1000,
            ;
            if idle > limit * 1000 {
                WatcherStep::Unload
            } else {
                WatcherStep::Sleep
            }
        },
        _ => WatcherStep::Sleep,
    }
}

pub fn loading_started_event(model_id: &str) -> (e: ModelStateEvent)
    ensures
        e.event_type@ == "loading_started"@,
        opt_view(e.model_id) == Some(model_id@),
        e.model_name is None,
        e.error is None,
{
    ModelStateEvent {
        event_type: String::from_str("loading_started"),
        model_id: Some(String::from_str(model_id)),
        model_name: None,
        error: None,
    }
}

pub fn loading_completed_event(model_id: &str, model_name: &str) -> (e: ModelStateEvent)
    ensures
        e.event_type@ == "loading_completed"@,
        opt_view(e.model_id) == Some(model_id@),
        opt_view(e.model_name) == Some(model_name@),
        e.error is None,
{
    ModelStateEvent {
        event_type: String::from_str("loading_completed"),
        model_id: Some(String::from_str(model_id)),
        model_name: Some(String::from_str(model_name)),
        error: None,
    }
}

pub fn loading_failed_event(model_id: &str, model_name: &str, error: &str) -> (e: ModelStateEvent)
    ensures
        e.event_type@ == "loading_failed"@,
        opt_view(e.model_id) == Some(model_id@),
        opt_view(e.model_name) == Some(model_name@),
        opt_view(e.error) == Some(error@),
{
    ModelStateEvent {
        event_type: String::from_str("loading_failed"),
        model_id: Some(String::from_str(model_id)),
        model_name: Some(String::from_str(model_name)),
        error: Some(String::from_str(error)),
    }
}

pub fn unloaded_event() -> (e: ModelStateEvent)
    ensures
        e.event_type@ == "unloaded"@,
        e.model_id is None,
        e.model_name is None,
        e.error is None,
{
    ModelStateEvent {
        event_type: String::from_str("unloaded"),
        model_id: None,
        model_name: None,
        error: None,
    }
}

/// The engine kind to construct for `model_id`, or why there is none: the
/// catalog lacks the model, or it is not downloaded.
pub fn resolve_model(model_id: &str, descriptor: Option<&ModelDescriptor>) -> (r: Result<EngineKind, String>)
    ensures
        descriptor is None ==> r is Err && r->Err_0@ == "Model not found: "@ + model_id@,
        descriptor is Some && !descriptor->Some_0.is_downloaded ==> r is Err && r->Err_0@
            == "Model not downloaded"@,
        descriptor is Some && descriptor->Some_0.is_downloaded ==> r == Ok::<EngineKind, String>(
            descriptor->Some_0.engine_type,
        ),
{
    match descriptor {
        None => {
            let mut msg = String::from_str("Model not found: ");
            msg.append(model_id);
            Err(msg)
        },
        Some(d) => if !d.is_downloaded {
            Err(String::from_str("Model not downloaded"))
        } else {
            Ok(d.engine_type)
        },
    }
}

/// The notification of a load that failed before construction: a model
/// that the catalog knows (but that is not downloaded) is reported with its
/// name, an unknown one without a name.
pub fn resolution_failure_event(
    model_id: &str,
    descriptor: Option<&ModelDescriptor>,
    error: &str,
) -> (e: ModelStateEvent)
    ensures
        e.event_type@ == "loading_failed"@,
        opt_view(e.model_id) == Some(model_id@),
        descriptor is Some ==> opt_view(e.model_name) == Some(descriptor->Some_0.name@),
        descriptor is None ==> e.model_name is None,
        opt_view(e.error) == Some(error@),
{
    match descriptor {
        Some(d) => loading_failed_event(model_id, d.name.as_str(), error),
        None => ModelStateEvent {
            event_type: String::from_str("loading_failed"),
            model_id: Some(String::from_str(model_id)),
            model_name: None,
            error: Some(String::from_str(error)),
        },
    }
}

pub open spec fn engine_label(kind: EngineKind) -> Seq<char> {
    match kind {
        EngineKind::Whisper => "whisper"@,
        EngineKind::Parakeet => "parakeet"@,
        EngineKind::Moonshine => "moonshine"@,
        EngineKind::SenseVoice => "SenseVoice"@,
    }
}

/// The message of a failed engine construction.
pub fn engine_load_error(kind: EngineKind, model_id: &str, error: &str) -> (r: String)
    ensures
        r@ == "Failed to load "@ + engine_label(kind) + " model "@ + model_id@ + ": "@ + error@,
{
    let mut msg = String::from_str("Failed to load ");
    let label = match kind {
        EngineKind::Whisper => "whisper",
        EngineKind::Parakeet => "parakeet",
        EngineKind::Moonshine => "moonshine",
        EngineKind::SenseVoice => "SenseVoice",
    };
    msg.append(label);
    msg.append(" model ");
    msg.append(model_id);
    msg.append(": ");
    msg.append(error);
    msg
}

/// Loading a model twice, while no other model is loaded, constructs its
/// engine once: the first request takes the load over (or finds the model
/// already loaded), and the second finds it loaded.
pub proof fn lemma_load_idempotent(s: LoadStateView, id: Seq<char>, kind: EngineKind)
    requires
        slot_consistent(s),
        !s.is_loading,
        s.model is None || s.model == Some(id),
    ensures
        (begin_load_spec(s, id).0 == LoadStep::Proceed) == (s.model is None),
        ({
            let s1 = begin_load_spec(s, id).1;
            let s2 = if begin_load_spec(s, id).0 == LoadStep::Proceed {
                finish_load_spec(s1, id, Some(kind))
            } else {
                s1
            };
            begin_load_spec(s2, id).0 == LoadStep::AlreadyLoaded
        }),
{
}

/// While one load is in flight, a load of another model waits and changes
/// nothing, and so does not construct a second engine; a transcription waits
/// too. When the first load ends, the waiter sees its result: the winner's
/// model installed (or the slot empty), and the loading flag clear.
pub proof fn lemma_loads_serialize(
    s: LoadStateView,
    a: Seq<char>,
    b: Seq<char>,
    loaded: Option<EngineKind>,
    audio_len: nat,
)
    requires
        slot_consistent(s),
        a != b,
        begin_load_spec(s, a).0 == LoadStep::Proceed,
        audio_len > 0,
    ensures
        ({
            let s1 = begin_load_spec(s, a).1;
            let s2 = finish_load_spec(s1, a, loaded);
            &&& begin_load_spec(s1, b) == (LoadStep::Wait, s1)
            &&& transcribe_step_spec(s1, audio_len) == TranscribeStep::Wait
            &&& !s2.is_loading
            &&& slot_consistent(s2)
            &&& (loaded is Some ==> s2.model == Some(a) && s2.engine == loaded)
            &&& begin_load_spec(s2, b).0 == LoadStep::Proceed
        }),
{
}

/// Transcribing empty audio right after an unload returns the empty result
/// and starts no load: the step neither waits nor dispatches.
pub proof fn lemma_empty_audio_after_unload(s: LoadStateView)
    ensures
        transcribe_step_spec(unload_spec(s), 0) == TranscribeStep::ReturnEmpty,
        slot_consistent(unload_spec(s)),
{
}

} // verus!
