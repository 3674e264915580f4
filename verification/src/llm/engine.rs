//! The engine, and its way from the first request to being ready.

use vstd::prelude::*;
use vstd::utf8::encode_utf8;

use crate::clock::{clock_can_tell, current_unix_secs, secs_since_epoch};
use crate::config::{text_view, Config, Settings};
use crate::llm::inference::InferenceJob;
use crate::llm::status::{coded_inverts_code, RuntimeStatus};
use crate::path::{
    file_name, file_name_of_joined, file_name_text, is_text_of, joined, utf8_lossy,
};
use crate::prompt::Style;

verus! {

// ── Worker ───────────────────────────────────────────────────────────────────

/// How many jobs may wait for the worker; callers block beyond that.
pub const QUEUE_CAPACITY: usize = 4;

/// A job for the worker, and how long its caller waits for the answer.
pub struct Submission {
    pub job: InferenceJob,
    pub timeout_secs: u64,
}

/// What came of a submission.
pub enum Reply<T> {
    /// The worker takes no jobs any more.
    Stopped,
    /// No answer came in time, or the worker died over it.
    Silent(String),
    /// The answer.
    Answered(Result<T, String>),
}

pub open spec fn stopped_text() -> Seq<char> {
    "inference worker has stopped"@
}

pub open spec fn silent_text(reason: Seq<char>) -> Seq<char> {
    "inference timed out or worker stopped: "@ + reason
}

/// What the caller of a job gets.
pub fn worker_result<T>(reply: Reply<T>) -> (r: Result<T, String>)
    ensures
        match reply {
            Reply::Stopped => r matches Err(e) && e@ == stopped_text(),
            Reply::Silent(reason) => r matches Err(e) && e@ == silent_text(reason@),
            Reply::Answered(answer) => r == answer,
        },
{
    match reply {
        Reply::Stopped => Err("inference worker has stopped".to_owned()),
        Reply::Silent(reason) => {
            let mut e = "inference timed out or worker stopped: ".to_owned();
            e.append(reason.as_str());
            Err(e)
        },
        Reply::Answered(answer) => answer,
    }
}

// ── Engine ───────────────────────────────────────────────────────────────────

/// What came of loading the model.
#[derive(Debug, Clone, Copy, PartialEq, Eq, Structural)]
pub enum LoadOutcome {
    /// The backend could not be initialised.
    BackendFailed,
    /// The model could not be loaded from its file.
    ModelFailed,
    Loaded,
}

/// Why there is no engine.
#[derive(Debug, Clone, Copy, PartialEq, Eq, Structural)]
pub enum LoadError {
    Backend,
    Model,
}

impl LoadError {
    pub open spec fn text(self) -> Seq<char> {
        match self {
            LoadError::Backend => "initialising llama backend"@,
            LoadError::Model => "loading model from file"@,
        }
    }

    pub fn message(&self) -> (r: &'static str)
        ensures
            r@ == self.text(),
    {
        match self {
            LoadError::Backend => "initialising llama backend",
            LoadError::Model => "loading model from file",
        }
    }
}

/// The name of the model in the file `path`.
pub open spec fn model_name_of(path: Seq<u8>) -> Seq<char> {
    match file_name(path) {
        Some(bytes) => utf8_lossy(bytes),
        None => "unknown"@,
    }
}

/// Is `name` the name of the model in the file `path`?
pub open spec fn is_model_name(name: Seq<char>, path: Seq<u8>) -> bool {
    &&& name == model_name_of(path)
    &&& file_name(path) matches Some(bytes) ==> is_text_of(name, bytes)
}

fn model_name_text(path: &Vec<u8>) -> (r: String)
    ensures
        is_model_name(r@, path@),
{
    match file_name_text(path.as_slice()) {
        Some(name) => name,
        None => "unknown".to_owned(),
    }
}

/// A loaded model.
pub struct Engine {
    pub model_name: String,
    pub config: Config,
    /// Unix timestamp (seconds) of the current inference start; 0 when idle.
    pub inference_started_at: u64,
}

/// What an [`Engine`] is.
#[verifier::ext_equal]
pub struct EngineView {
    pub model_name: Seq<char>,
    pub config: Settings,
    pub inference_started_at: u64,
}

impl View for Engine {
    type V = EngineView;

    open spec fn view(&self) -> EngineView {
        EngineView {
            model_name: self.model_name@,
            config: self.config@,
            inference_started_at: self.inference_started_at,
        }
    }
}

/// The engine of a model that was just loaded.
pub open spec fn idle_engine(settings: Settings) -> EngineView {
    EngineView {
        model_name: model_name_of(settings.model_path),
        config: settings,
        inference_started_at: 0,
    }
}

impl Engine {
    /// The engine that loading the model of `config` came to.
    pub fn load(config: Config, outcome: LoadOutcome) -> (r: Result<Engine, LoadError>)
        ensures
            match outcome {
                LoadOutcome::BackendFailed => r == Err::<Engine, LoadError>(LoadError::Backend),
                LoadOutcome::ModelFailed => r == Err::<Engine, LoadError>(LoadError::Model),
                LoadOutcome::Loaded => {
                    &&& r matches Ok(engine)
                    &&& engine@ == idle_engine(config@)
                    &&& is_model_name(engine@.model_name, config@.model_path)
                },
            },
    {
        match outcome {
            LoadOutcome::BackendFailed => Err(LoadError::Backend),
            LoadOutcome::ModelFailed => Err(LoadError::Model),
            LoadOutcome::Loaded => {
                let model_name = model_name_text(&config.model_path);
                Ok(Engine { model_name, config, inference_started_at: 0 })
            },
        }
    }

    /// The job of a fully blocking rewrite.
    pub fn rewrite(&self, text: &str, style: Style) -> (r: Submission)
        ensures
            r.job is Full,
            r.job.text() == text@,
            r.job.style() == style,
            r.timeout_secs == self@.config.inference_timeout_secs,
    {
        Submission {
            job: InferenceJob::Full { text: text.to_owned(), style },
            timeout_secs: self.config.inference_timeout_secs,
        }
    }

    /// The job of a streaming rewrite.
    pub fn rewrite_streaming(&self, text: &str, style: Style) -> (r: Submission)
        ensures
            r.job is Streaming,
            r.job.text() == text@,
            r.job.style() == style,
            r.timeout_secs == self@.config.inference_timeout_secs,
    {
        Submission {
            job: InferenceJob::Streaming { text: text.to_owned(), style },
            timeout_secs: self.config.inference_timeout_secs,
        }
    }

    pub fn model_name(&self) -> (r: String)
        ensures
            r@ == self@.model_name,
    {
        self.model_name.clone()
    }
}

// ── Manager ──────────────────────────────────────────────────────────────────

/// What happens on the way to a ready engine.
pub enum ReadyEvent {
    /// An engine is wanted.
    Requested,
    /// The model file is there, at this path.
    ModelReady(Vec<u8>),
    /// The model file could not be had.
    ModelFailed(String),
    /// The model was loaded with these settings, or not. Only the path of the
    /// model is taken from them.
    Loaded { config: Config, outcome: LoadOutcome },
    /// The thread that loaded the model died.
    LoadPanicked,
}

/// What to do next for a ready engine.
pub enum ReadyAction {
    /// See that the model file is there.
    FetchModel,
    /// Load the model with these settings.
    LoadModel(Config),
    /// The engine is ready.
    Ready,
    /// There is no engine, for this reason.
    Fail(String),
}

/// What a [`ReadyAction`] says.
#[verifier::ext_equal]
pub enum ReadyActionView {
    FetchModel,
    LoadModel(Settings),
    Ready,
    Fail(Seq<char>),
}

impl View for ReadyAction {
    type V = ReadyActionView;

    open spec fn view(&self) -> ReadyActionView {
        match self {
            ReadyAction::FetchModel => ReadyActionView::FetchModel,
            ReadyAction::LoadModel(config) => ReadyActionView::LoadModel(config@),
            ReadyAction::Ready => ReadyActionView::Ready,
            ReadyAction::Fail(reason) => ReadyActionView::Fail(reason@),
        }
    }
}

/// The state of the engine.
pub struct EngineManager {
    config: Config,
    engine: Option<Engine>,
    status: u8,
    last_error: Option<String>,
    /// Unix timestamp (seconds) of the last completed request, or of one that
    /// has arrived since; 0 = never used.
    last_active: u64,
}

/// What an [`EngineManager`] is.
#[verifier::ext_equal]
pub struct ManagerView {
    pub config: Settings,
    pub engine: Option<EngineView>,
    pub status: RuntimeStatus,
    pub last_error: Option<Seq<char>>,
    pub last_active: u64,
}

pub open spec fn engine_view(engine: Option<Engine>) -> Option<EngineView> {
    match engine {
        Some(engine) => Some(engine@),
        None => None,
    }
}

impl View for EngineManager {
    type V = ManagerView;

    closed spec fn view(&self) -> ManagerView {
        ManagerView {
            config: self.config@,
            engine: engine_view(self.engine),
            status: RuntimeStatus::coded(self.status),
            last_error: text_view(self.last_error),
            last_active: self.last_active,
        }
    }
}

impl ManagerView {
    pub open spec fn fresh(config: Settings) -> ManagerView {
        ManagerView {
            config,
            engine: None,
            status: RuntimeStatus::Idle,
            last_error: None,
            last_active: 0,
        }
    }

    /// There is an engine just when the status says so, and an error just when
    /// the status says that something failed. An engine runs under the settings,
    /// with the path where its model was found.
    pub open spec fn valid(self) -> bool {
        &&& self.engine is Some <==> self.status == RuntimeStatus::Ready
        &&& self.engine matches Some(e) ==> {
            &&& e.config == self.effective(e.config.model_path)
            &&& e.model_name == model_name_of(e.config.model_path)
        }
        &&& self.last_error is Some <==> self.status == RuntimeStatus::Failed
    }

    pub open spec fn with_status(
        self,
        status: RuntimeStatus,
        error: Option<Seq<char>>,
    ) -> ManagerView {
        ManagerView { status, last_error: error, ..self }
    }

    pub open spec fn failed(self, reason: Seq<char>) -> ManagerView {
        self.with_status(RuntimeStatus::Failed, Some(reason))
    }

    /// The settings, with the model at `path`.
    pub open spec fn effective(self, path: Seq<u8>) -> Settings {
        Settings { model_path: path, ..self.config }
    }

    /// What is to be done upon `e`.
    pub open spec fn ready_action(self, e: ReadyEvent) -> ReadyActionView {
        if self.engine is Some {
            ReadyActionView::Ready
        } else {
            match e {
                ReadyEvent::Requested => ReadyActionView::FetchModel,
                ReadyEvent::ModelReady(path) => ReadyActionView::LoadModel(self.effective(path@)),
                ReadyEvent::ModelFailed(reason) => ReadyActionView::Fail(reason@),
                ReadyEvent::Loaded { config, outcome } => match outcome {
                    LoadOutcome::BackendFailed => ReadyActionView::Fail(LoadError::Backend.text()),
                    LoadOutcome::ModelFailed => ReadyActionView::Fail(LoadError::Model.text()),
                    LoadOutcome::Loaded => ReadyActionView::Ready,
                },
                ReadyEvent::LoadPanicked => ReadyActionView::Fail(
                    "model-loading thread panicked"@,
                ),
            }
        }
    }

    /// The state after `e`.
    pub open spec fn ready_next(self, e: ReadyEvent) -> ManagerView {
        if self.engine is Some {
            self
        } else {
            match self.ready_action(e) {
                ReadyActionView::FetchModel => self.with_status(RuntimeStatus::Downloading, None),
                ReadyActionView::LoadModel(_) => self.with_status(RuntimeStatus::Loading, None),
                ReadyActionView::Fail(reason) => self.failed(reason),
                ReadyActionView::Ready => ManagerView {
                    engine: Some(idle_engine(self.effective(e->config@.model_path))),
                    ..self.with_status(RuntimeStatus::Ready, None)
                },
            }
        }
    }

    /// The status as clients see it.
    pub open spec fn status_text(self) -> Seq<char> {
        match self.last_error {
            Some(reason) if self.status == RuntimeStatus::Failed => "failed: "@ + reason,
            _ => self.status.name(),
        }
    }

    pub open spec fn touched(self, now: u64) -> ManagerView {
        ManagerView { last_active: now, ..self }
    }

    /// The seconds from the last request to `now`; 0 if there was none.
    pub open spec fn idle_for(self, now: u64) -> int {
        if self.last_active == 0 || now < self.last_active {
            0
        } else {
            now - self.last_active
        }
    }

    /// Has an inference run longer than it may at `now`?
    pub open spec fn hung_at(self, now: u64) -> bool {
        match self.engine {
            Some(engine) => {
                &&& engine.inference_started_at != 0
                &&& now - engine.inference_started_at > self.config.inference_timeout_secs
            },
            None => false,
        }
    }

    /// An inference that started at `at` is running; none if that is 0.
    pub open spec fn running_since(self, at: u64) -> ManagerView {
        ManagerView {
            engine: match self.engine {
                Some(engine) => Some(EngineView { inference_started_at: at, ..engine }),
                None => None,
            },
            ..self
        }
    }
}

impl EngineManager {
    pub fn new(config: Config) -> (r: EngineManager)
        ensures
            r@ == ManagerView::fresh(config@),
            r@.valid(),
    {
        proof {
            coded_inverts_code(RuntimeStatus::Idle);
        }
        EngineManager {
            config,
            engine: None,
            status: RuntimeStatus::Idle.as_u8(),
            last_error: None,
            last_active: 0,
        }
    }

    fn set_status(&mut self, status: RuntimeStatus, error: Option<String>)
        ensures
            final(self)@ == old(self)@.with_status(status, text_view(error)),
    {
        proof {
            coded_inverts_code(status);
        }
        self.status = status.as_u8();
        self.last_error = error;
    }

    fn fail(&mut self, reason: String) -> (r: ReadyAction)
        ensures
            final(self)@ == old(self)@.failed(reason@),
            r@ == ReadyActionView::Fail(reason@),
    {
        self.set_status(RuntimeStatus::Failed, Some(reason.clone()));
        ReadyAction::Fail(reason)
    }

    /// Take an event on the way to a ready engine, and say what to do next.
    pub fn ensure_ready(&mut self, event: ReadyEvent) -> (r: ReadyAction)
        ensures
            r@ == old(self)@.ready_action(event),
            final(self)@ == old(self)@.ready_next(event),
            old(self)@.valid() ==> final(self)@.valid(),
    {
        if self.engine.is_some() {
            return ReadyAction::Ready;
        }
        match event {
            ReadyEvent::Requested => {
                self.set_status(RuntimeStatus::Downloading, None);
                ReadyAction::FetchModel
            },
            ReadyEvent::ModelFailed(reason) => self.fail(reason),
            ReadyEvent::ModelReady(path) => {
                let mut effective = self.config.clone();
                effective.model_path = path;
                self.set_status(RuntimeStatus::Loading, None);
                ReadyAction::LoadModel(effective)
            },
            ReadyEvent::Loaded { config, outcome } => {
                let mut effective = self.config.clone();
                effective.model_path = config.model_path;
                match Engine::load(effective, outcome) {
                    Err(e) => self.fail(e.message().to_owned()),
                    Ok(engine) => {
                        self.set_status(RuntimeStatus::Ready, None);
                        self.engine = Some(engine);
                        ReadyAction::Ready
                    },
                }
            },
            ReadyEvent::LoadPanicked => self.fail("model-loading thread panicked".to_owned()),
        }
    }

    pub fn is_ready(&self) -> (r: bool)
        ensures
            r == self@.engine is Some,
    {
        self.engine.is_some()
    }

    /// The engine, once it is ready.
    pub fn engine(&self) -> (r: Option<&Engine>)
        ensures
            match r {
                Some(engine) => self@.engine == Some(engine@),
                None => self@.engine is None,
            },
    {
        self.engine.as_ref()
    }

    pub fn status(&self) -> (r: String)
        ensures
            r@ == self@.status_text(),
    {
        let status = RuntimeStatus::from_u8(self.status);
        match &self.last_error {
            Some(reason) if status == RuntimeStatus::Failed => {
                let mut r = "failed: ".to_owned();
                r.append(reason.as_str());
                r
            },
            _ => status.as_str().to_owned(),
        }
    }

    pub fn model_name(&self) -> (r: String)
        ensures
            match self@.engine {
                Some(engine) => r@ == engine.model_name,
                None => is_model_name(r@, self@.config.model_path),
            },
    {
        match &self.engine {
            Some(engine) => engine.model_name(),
            None => model_name_text(&self.config.model_path),
        }
    }

    pub fn config(&self) -> (r: &Config)
        ensures
            r@ == self@.config,
    {
        &self.config
    }

    /// Record `now` as the last active timestamp.
    pub fn touch_at(&mut self, now: u64)
        ensures
            final(self)@ == old(self)@.touched(now),
    {
        self.last_active = now;
    }

    /// Record the current time as the last active timestamp (call on each request).
    pub fn touch(&mut self)
        ensures
            exists|passed: Option<u64>| #[trigger]
                clock_can_tell(passed) && final(self)@ == old(self)@.touched(
                    secs_since_epoch(passed),
                ),
    {
        let now = current_unix_secs();
        self.touch_at(now);
    }

    /// Seconds from the last request to `now`; 0 if no request has ever been made.
    pub fn seconds_idle_at(&self, now: u64) -> (r: u64)
        ensures
            r == self@.idle_for(now),
    {
        if self.last_active == 0 {
            return 0;
        }
        now.saturating_sub(self.last_active)
    }

    /// Seconds elapsed since the last request; 0 if no request has ever been made.
    pub fn seconds_idle(&self) -> (r: u64)
        ensures
            exists|passed: Option<u64>| #[trigger]
                clock_can_tell(passed) && r == self@.idle_for(secs_since_epoch(passed)),
            self@.last_active == 0 ==> r == 0,
    {
        let now = current_unix_secs();
        self.seconds_idle_at(now)
    }

    /// Has an inference been running longer than
    /// `config.inference_timeout_secs` at `now`?
    pub fn inference_hung_at(&self, now: u64) -> (r: bool)
        ensures
            r == self@.hung_at(now),
    {
        match &self.engine {
            None => false,
            Some(engine) => {
                let start = engine.inference_started_at;
                if start == 0 {
                    return false;
                }
                now.saturating_sub(start) > self.config.inference_timeout_secs
            },
        }
    }

    /// Returns `true` when an inference has been running longer than
    /// `config.inference_timeout_secs`, indicating a likely hang.
    pub fn inference_hung(&self) -> (r: bool)
        ensures
            exists|passed: Option<u64>| #[trigger]
                clock_can_tell(passed) && r == self@.hung_at(secs_since_epoch(passed)),
            self@.engine matches Some(engine) ==> (engine.inference_started_at == 0 ==> !r),
            self@.engine is None ==> !r,
    {
        let now = current_unix_secs();
        self.inference_hung_at(now)
    }

    /// Record that an inference started at `now`.
    pub fn inference_begins_at(&mut self, now: u64)
        ensures
            final(self)@ == old(self)@.running_since(now),
    {
        match &mut self.engine {
            Some(engine) => {
                engine.inference_started_at = now;
            },
            None => {},
        }
    }

    /// Record the start time of an inference for hang detection.
    pub fn inference_begins(&mut self)
        ensures
            exists|passed: Option<u64>| #[trigger]
                clock_can_tell(passed) && final(self)@ == old(self)@.running_since(
                    secs_since_epoch(passed),
                ),
    {
        let now = current_unix_secs();
        self.inference_begins_at(now);
    }

    /// Mark inference as idle.
    pub fn inference_ends(&mut self)
        ensures
            final(self)@ == old(self)@.running_since(0),
    {
        self.inference_begins_at(0);
    }
}

// ── Laws ─────────────────────────────────────────────────────────────────────

/// Whatever happens on the way to a ready engine, a valid state stays valid.
pub proof fn readiness_keeps_the_state_valid(m: ManagerView, e: ReadyEvent)
    requires
        m.valid(),
    ensures
        m.ready_next(e).valid(),
{
}

/// Where there is no engine yet, each event leads to the next step: a request to
/// the search for the model, a model to its loading under the settings with its
/// path, a loaded model to a ready engine. What fails, fails with its own reason,
/// which is kept for the status.
pub proof fn events_lead_to_a_ready_engine(
    m: ManagerView,
    path: Vec<u8>,
    reason: String,
    config: Config,
)
    requires
        m.engine is None,
    ensures
        m.ready_action(ReadyEvent::Requested) is FetchModel,
        m.ready_next(ReadyEvent::Requested).status == RuntimeStatus::Downloading,
        m.ready_action(ReadyEvent::ModelReady(path)) == ReadyActionView::LoadModel(
            Settings { model_path: path@, ..m.config },
        ),
        m.ready_next(ReadyEvent::ModelReady(path)).status == RuntimeStatus::Loading,
        m.ready_action(ReadyEvent::ModelFailed(reason)) == ReadyActionView::Fail(reason@),
        m.ready_next(ReadyEvent::ModelFailed(reason)).last_error == Some(reason@),
        m.ready_action(ReadyEvent::LoadPanicked) == ReadyActionView::Fail(
            "model-loading thread panicked"@,
        ),
        m.ready_action(
            ReadyEvent::Loaded { config, outcome: LoadOutcome::BackendFailed },
        ) == ReadyActionView::Fail("initialising llama backend"@),
        m.ready_action(
            ReadyEvent::Loaded { config, outcome: LoadOutcome::ModelFailed },
        ) == ReadyActionView::Fail("loading model from file"@),
        ({
            let loaded = ReadyEvent::Loaded { config, outcome: LoadOutcome::Loaded };
            &&& m.ready_action(loaded) is Ready
            &&& m.ready_next(loaded).engine matches Some(engine) && engine.inference_started_at == 0
                && engine.config == (Settings { model_path: config@.model_path, ..m.config })
            &&& m.ready_next(loaded).status == RuntimeStatus::Ready
        }),
        m.ready_next(ReadyEvent::Requested).last_active == m.last_active,
        m.ready_next(ReadyEvent::Requested).config == m.config,
{
}

/// A fresh manager is idle, with its settings, without an engine, and was never
/// used.
pub proof fn managers_begin_idle(config: Settings, now: u64)
    ensures
        ({
            let m = ManagerView::fresh(config);
            &&& m.config == config
            &&& m.engine is None
            &&& m.status_text() == "idle"@
            &&& m.last_active == 0
            &&& m.idle_for(now) == 0
            &&& !m.hung_at(now)
        }),
{
}

/// The time idle is never negative, is none where the clock went back behind the
/// last request, and grows second by second otherwise. Only the last request
/// counts.
pub proof fn idle_time_grows_with_the_clock(m: ManagerView, since: u64, now: u64)
    requires
        since > 0,
        now < u64::MAX,
    ensures
        m.touched(0).idle_for(now) == 0,
        now <= since ==> m.touched(since).idle_for(now) == 0,
        now >= since ==> m.touched(since).idle_for((now + 1) as u64) == m.touched(since).idle_for(
            now,
        ) + 1,
        m.touched(since).last_active == since,
        m.touched(now).touched(since) == m.touched(since),
{
}

/// A model is called after its file, as text, where the name of the file is
/// UTF-8, and "unknown" where the path has no file name.
pub proof fn models_are_called_after_their_files(dir: Seq<u8>, name: Seq<char>)
    requires
        name.len() > 0,
        encode_utf8(name).len() > 0,
        forall|i: int| 0 <= i < encode_utf8(name).len() ==> encode_utf8(name)[i] != 0x2f,
        encode_utf8(name) != seq![0x2eu8],
        encode_utf8(name) != seq![0x2eu8, 0x2eu8],
    ensures
        model_name_of(joined(dir, encode_utf8(name))) == utf8_lossy(encode_utf8(name)),
        forall|called: Seq<char>| #[trigger]
            is_model_name(called, joined(dir, encode_utf8(name))) ==> called == name,
        model_name_of(Seq::empty()) == "unknown"@,
        model_name_of(seq![0x2fu8]) == "unknown"@,
{
    file_name_of_joined(dir, encode_utf8(name));
    vstd::utf8::encode_utf8_valid_utf8(name);
    vstd::utf8::encode_utf8_decode_utf8(name);
    crate::path::file_names_are_plain(Seq::empty());
    assert(Seq::<u8>::empty().push(0x2f) =~= seq![0x2fu8]);
    assert(file_name(Seq::empty()) is None) by {
        assert(crate::path::component_start(Seq::empty()) == 0);
        assert(Seq::<u8>::empty().skip(0) =~= Seq::empty());
    }
}

/// What the worker's caller is told where no answer came.
pub proof fn missing_answers_are_told(reason: Seq<char>)
    ensures
        stopped_text() == "inference worker has stopped"@,
        silent_text(reason) == "inference timed out or worker stopped: "@ + reason,
        LoadError::Backend.text() == "initialising llama backend"@,
        LoadError::Model.text() == "loading model from file"@,
        QUEUE_CAPACITY == 4,
{
}

/// Requests and inferences leave a valid state valid too, and the settings, the
/// status and the last error as they are.
pub proof fn timestamps_keep_the_state_valid(m: ManagerView, at: u64)
    requires
        m.valid(),
    ensures
        m.touched(at).valid(),
        m.touched(at).status_text() == m.status_text(),
        m.touched(at).config == m.config,
        m.running_since(at).valid(),
        m.running_since(at).status_text() == m.status_text(),
        m.running_since(at).config == m.config,
{
}

/// The status reads "ready" just when there is an engine, and "idle",
/// "downloading", "loading" or a failure with its reason when there is none.
pub proof fn the_status_tells_whether_the_engine_is_ready(m: ManagerView)
    requires
        m.valid(),
    ensures
        m.engine is Some <==> m.status_text() == "ready"@,
        m.engine is None ==> {
            ||| m.status_text() == "idle"@
            ||| m.status_text() == "downloading"@
            ||| m.status_text() == "loading"@
            ||| exists|reason: Seq<char>|
                m.last_error == Some(reason) && m.status_text() == "failed: "@ + reason
        },
{
    reveal_strlit("ready");
    reveal_strlit("idle");
    reveal_strlit("downloading");
    reveal_strlit("loading");
    reveal_strlit("failed: ");
    if m.engine is None {
        assert(m.status_text()[0] != "ready"@[0]);
    }
    if m.status == RuntimeStatus::Failed {
        let reason = m.last_error->Some_0;
        assert(m.last_error == Some(reason) && m.status_text() == "failed: "@ + reason);
    }
}

/// Once the engine is ready it stays ready, as it is.
pub proof fn ready_engines_stay(m: ManagerView, e: ReadyEvent)
    requires
        m.engine is Some,
    ensures
        m.ready_next(e) == m,
        m.ready_action(e) == ReadyActionView::Ready,
{
}

/// The state after all of `es`.
pub open spec fn after(m: ManagerView, es: Seq<ReadyEvent>) -> ManagerView
    decreases es.len(),
{
    if es.len() == 0 {
        m
    } else {
        after(m, es.drop_last()).ready_next(es.last())
    }
}

/// However a manager comes to its engine, the engine runs under the manager's
/// settings, with the path where the model was found, and is called after it.
pub proof fn engines_run_under_the_settings(config: Settings, es: Seq<ReadyEvent>)
    ensures
        after(ManagerView::fresh(config), es).valid(),
        after(ManagerView::fresh(config), es).config == config,
        after(ManagerView::fresh(config), es).engine matches Some(e) ==> {
            &&& e.config == (Settings { model_path: e.config.model_path, ..config })
            &&& e.model_name == model_name_of(e.config.model_path)
            &&& exists|i: int|
                0 <= i < es.len() && ((#[trigger] es[i]) matches ReadyEvent::Loaded { config: c, .. }
                    && c@.model_path == e.config.model_path)
        },
    decreases es.len(),
{
    if es.len() > 0 {
        let earlier = es.drop_last();
        engines_run_under_the_settings(config, earlier);
        let before = after(ManagerView::fresh(config), earlier);
        if before.engine is Some {
            let path = before.engine->Some_0.config.model_path;
            let i = choose|i: int|
                0 <= i < earlier.len() && ((#[trigger] earlier[i]) matches ReadyEvent::Loaded {
                    config: c,
                    ..
                } && c@.model_path == path);
            assert(es[i] == earlier[i]);
        } else {
            assert(es[es.len() - 1] == es.last());
        }
    }
}

/// The engine is made once: after it is ready, whoever asks, and however often,
/// finds that same engine, and nothing is downloaded or loaded any more.
pub proof fn the_engine_is_made_once(m: ManagerView, es: Seq<ReadyEvent>, e: ReadyEvent)
    requires
        m.engine is Some,
    ensures
        after(m, es) == m,
        after(m, es).ready_action(e) == ReadyActionView::Ready,
        m.valid() ==> after(m, es).status_text() == "ready"@,
    decreases es.len(),
{
    if es.len() > 0 {
        the_engine_is_made_once(m, es.drop_last(), e);
    }
}

/// A failure is not for good: the next request starts over, and from there a
/// model that is found and loads makes the engine ready, under the settings
/// with the path where the model was found.
pub proof fn failures_can_be_retried(m: ManagerView, reason: Seq<char>, path: Vec<u8>, config: Config)
    requires
        m.engine is None,
        config@ == m.effective(path@),
    ensures
        ({
            let failed = m.failed(reason);
            let loaded = ReadyEvent::Loaded { config, outcome: LoadOutcome::Loaded };
            let fetching = failed.ready_next(ReadyEvent::Requested);
            let loading = fetching.ready_next(ReadyEvent::ModelReady(path));
            let ready = loading.ready_next(loaded);
            &&& failed.ready_action(ReadyEvent::Requested) == ReadyActionView::FetchModel
            &&& fetching.status_text() == "downloading"@
            &&& fetching.ready_action(ReadyEvent::ModelReady(path)) == ReadyActionView::LoadModel(
                config@,
            )
            &&& loading.status_text() == "loading"@
            &&& loading.ready_action(loaded) == ReadyActionView::Ready
            &&& ready.status_text() == "ready"@
            &&& ready.engine == Some(idle_engine(config@))
            &&& ready.config == m.config
        }),
{
}

/// A failure shows its reason in the status until the next request.
pub proof fn failures_show_their_reason(m: ManagerView, e: ReadyEvent, reason: Seq<char>)
    requires
        m.engine is None,
        m.ready_action(e) == ReadyActionView::Fail(reason),
    ensures
        m.ready_next(e).status_text() == "failed: "@ + reason,
        m.ready_next(e).engine is None,
{
}

/// Once a request that arrived at `arrived` is completed at `completed`, the time
/// idle at a later `now` is the time since the completion, whatever else the
/// engine does meanwhile.
pub proof fn idle_time_counts_from_the_last_completion(
    m: ManagerView,
    arrived: u64,
    completed: u64,
    now: u64,
    e: ReadyEvent,
    at: u64,
)
    requires
        completed > 0,
        completed <= now,
    ensures
        ({
            let done = m.touched(arrived).touched(completed);
            &&& done.idle_for(now) == now - completed
            &&& done.ready_next(e).idle_for(now) == now - completed
            &&& done.running_since(at).idle_for(now) == now - completed
        }),
{
}

/// While an inference runs, the engine tells when it began, and 0 when none
/// does. Neither requests nor events on the way to a ready engine change that.
pub proof fn the_engine_tells_since_when_it_infers(m: ManagerView, at: u64, now: u64, e: ReadyEvent)
    requires
        m.engine is Some,
    ensures
        ({
            let running = m.running_since(at);
            &&& running.engine matches Some(engine) && engine.inference_started_at == at
            &&& running.touched(now).engine == running.engine
            &&& running.ready_next(e).engine == running.engine
            &&& running.running_since(0).engine matches Some(engine)
                && engine.inference_started_at == 0
        }),
{
}

/// An inference is taken for hung just when it has run longer than it may; once
/// hung it stays so until it ends, and then nothing is hung.
pub proof fn hangs_last_until_the_inference_ends(m: ManagerView, start: u64, now: u64, later: u64)
    requires
        m.engine is Some,
        start > 0,
        now <= later,
    ensures
        m.running_since(start).hung_at(now) <==> now - start > m.config.inference_timeout_secs,
        m.running_since(start).hung_at(now) ==> m.running_since(start).hung_at(later),
        !m.running_since(start).running_since(0).hung_at(later),
{
}

/// A view of an engine, or of what to do for one, holds all that it does.
pub proof fn engines_are_viewed_as_they_are(engine: Engine, a: ReadyAction)
    ensures
        engine@.model_name == engine.model_name@,
        engine@.config == engine.config@,
        engine@.inference_started_at == engine.inference_started_at,
        engine_view(Some(engine)) == Some(engine@),
        engine_view(None) is None,
        a is FetchModel <==> a@ is FetchModel,
        a is Ready <==> a@ is Ready,
        a matches ReadyAction::LoadModel(config) ==> a@ == ReadyActionView::LoadModel(config@),
        a matches ReadyAction::Fail(reason) ==> a@ == ReadyActionView::Fail(reason@),
{
}

/// There is but one name for the model of a path: the text of its file name, or
/// "unknown" where it has none.
pub proof fn models_have_one_name(called: Seq<char>, path: Seq<u8>)
    requires
        is_model_name(called, path),
    ensures
        called == model_name_of(path),
        file_name(path) matches Some(bytes) ==> is_text_of(called, bytes) && called == utf8_lossy(bytes),
        file_name(path) is None ==> called == "unknown"@,
{
}

/// Recording a request changes the time of the last request and nothing else;
/// recording an inference changes when it began and nothing else.
pub proof fn recording_changes_only_what_is_recorded(m: ManagerView, at: u64)
    ensures
        m.touched(at).engine == m.engine,
        m.touched(at).status == m.status,
        m.touched(at).last_error == m.last_error,
        m.running_since(at).last_active == m.last_active,
        m.running_since(at).status == m.status,
        m.running_since(at).last_error == m.last_error,
        m.running_since(at).engine is Some <==> m.engine is Some,
        m.engine matches Some(e) ==> m.running_since(at).engine == Some(
            EngineView { inference_started_at: at, ..e },
        ),
{
}

} // verus!
