//! The decisions of the floating window: the recording state machine that
//! push-to-talk drives, what is shown and kept when a transcription ends,
//! the hotkey poll, the clipboard retries, the first-run downloads and the
//! choice of a transcription backend.
//!
//! The window, the recorder, the network and the clipboard are driven by the
//! caller, which reports their outcome back to these functions.

use vstd::prelude::*;
use crate::config::{
    find_local_model, find_preset, local_model_presets, spec_local_model_presets,
    Config, TranscriptionService,
};
use crate::local_stt::LocalWhisper;
use crate::paths::{path_join, spec_path_join};
use crate::text::{concat_str, option_view, parse_i32, spec_parse_i32, str_eq};

verus! {

// ── Recording state machine ─────────────────────────────────────────────────

/// Where push-to-talk is.
#[derive(Clone, Copy, PartialEq, Eq, Structural, Debug)]
pub enum State {
    Idle,
    Recording,
    Processing,
}

/// The state that push-to-talk keeps between events.
pub struct Session {
    pub state: State,
    /// A model download is running; the microphone is not available then.
    pub downloading: bool,
}

/// What the window shows and logs after an event.
pub struct Feedback {
    /// The new status text, if it changes.
    pub status: Option<String>,
    /// A line for the error log.
    pub log: Option<String>,
}

/// The answer to a request to start recording.
#[derive(Clone, Copy, PartialEq, Eq, Structural, Debug)]
pub enum StartDecision {
    /// Start the recorder.
    Start,
    /// A recording or transcription is under way: ignore the request.
    Busy,
    /// A model download is running: tell the user to wait.
    Downloading,
}

pub open spec fn busy_status() -> Seq<char> {
    "模型下载中，请稍候..."@
}

pub open spec fn recording_status() -> Seq<char> {
    "录音中..."@
}

pub open spec fn processing_status() -> Seq<char> {
    "识别中..."@
}

pub open spec fn error_status() -> Seq<char> {
    "错误，看日志"@
}

pub open spec fn copied_status() -> Seq<char> {
    "已复制"@
}

/// The answer to a request to start recording in state `state`.
pub open spec fn spec_start_decision(state: State, downloading: bool) -> StartDecision {
    if state != State::Idle {
        StartDecision::Busy
    } else if downloading {
        StartDecision::Downloading
    } else {
        StartDecision::Start
    }
}

/// The state after the recorder reported on a start.
pub open spec fn spec_after_start(state: State, started: bool) -> State {
    if started {
        State::Recording
    } else {
        state
    }
}

/// The state after the recorder reported on a stop.
pub open spec fn spec_after_stop(stopped: bool) -> State {
    if stopped {
        State::Processing
    } else {
        State::Idle
    }
}

/// The state after a transcription ended.
pub open spec fn spec_after_transcription(state: State) -> State {
    if state == State::Processing {
        State::Idle
    } else {
        state
    }
}

/// The view of optional feedback text.
pub open spec fn feedback_view(f: Feedback) -> (Option<Seq<char>>, Option<Seq<char>>) {
    (option_view(f.status), option_view(f.log))
}

impl Session {
    /// A session at rest.
    pub fn new() -> (r: Session)
        ensures
            r.state == State::Idle,
            !r.downloading,
    {
        Session { state: State::Idle, downloading: false }
    }

    /// The answer to a request to start recording (see [`spec_start_decision`]),
    /// with the status to show when a download holds the microphone.
    pub fn request_start(&self) -> (r: (StartDecision, Option<String>))
        ensures
            r.0 == spec_start_decision(self.state, self.downloading),
            option_view(r.1) == (if r.0 == StartDecision::Downloading {
                Some(busy_status())
            } else {
                None
            }),
    {
        if self.state != State::Idle {
            (StartDecision::Busy, None)
        } else if self.downloading {
            (StartDecision::Downloading, Some(String::from_str("模型下载中，请稍候...")))
        } else {
            (StartDecision::Start, None)
        }
    }

    /// The recorder reported on a start that [`Session::request_start`]
    /// allowed: recording begins, or the error is logged (with a prefix that
    /// tells the hotkey from the button) and shown as an error.
    pub fn recording_started(&mut self, result: Result<(), String>, by_hotkey: bool) -> (r: Feedback)
        ensures
            final(self).state == spec_after_start(old(self).state, result is Ok),
            final(self).downloading == old(self).downloading,
            match result {
                Ok(()) => feedback_view(r) == (Some(recording_status()), None::<Seq<char>>),
                Err(e) => feedback_view(r) == (
                    Some(error_status()),
                    Some((if by_hotkey { "全局热键录音失败："@ } else { "录音失败："@ }) + e@),
                ),
            },
    {
        match result {
            Ok(()) => {
                self.state = State::Recording;
                Feedback { status: Some(String::from_str("录音中...")), log: None }
            },
            Err(e) => {
                let prefix = if by_hotkey {
                    "全局热键录音失败："
                } else {
                    "录音失败："
                };
                Feedback {
                    status: Some(String::from_str("错误，看日志")),
                    log: Some(concat_str(prefix, e.as_str())),
                }
            },
        }
    }

    /// A stop request is acted on only while recording.
    pub fn request_stop(&self) -> (r: bool)
        ensures
            r == (self.state == State::Recording),
    {
        self.state == State::Recording
    }

    /// The recorder reported on a stop that [`Session::request_stop`]
    /// allowed: the audio goes to transcription, or the error is shown and
    /// push-to-talk is idle again.
    pub fn recording_stopped(&mut self, result: Result<(), String>) -> (r: Feedback)
        ensures
            final(self).state == spec_after_stop(result is Ok),
            final(self).downloading == old(self).downloading,
            match result {
                Ok(()) => feedback_view(r) == (Some(processing_status()), None::<Seq<char>>),
                Err(e) => feedback_view(r) == (Some(e@), None::<Seq<char>>),
            },
    {
        match result {
            Ok(()) => {
                self.state = State::Processing;
                Feedback { status: Some(String::from_str("识别中...")), log: None }
            },
            Err(e) => {
                self.state = State::Idle;
                Feedback { status: Some(e), log: None }
            },
        }
    }

    /// A transcription ended with `result`: push-to-talk is idle again, and
    /// the outcome says what to copy, what to keep in the history and what
    /// to show.
    pub fn transcription_finished(&mut self, result: Result<String, String>) -> (r: Outcome)
        ensures
            final(self).state == spec_after_transcription(old(self).state),
            final(self).downloading == old(self).downloading,
            outcome_view(r) == spec_outcome(match result {
                Ok(t) => Ok(t@),
                Err(e) => Err(e@),
            }),
    {
        if self.state == State::Processing {
            self.state = State::Idle;
        }
        match result {
            Ok(t) => {
                let copy = t.clone();
                Outcome { copy: Some(copy), save: Some(t), log: None, error_status: false, hide_after_secs: 2 }
            },
            Err(e) => Outcome {
                copy: None,
                save: None,
                log: Some(concat_str("识别失败：", e.as_str())),
                error_status: true,
                hide_after_secs: 4,
            },
        }
    }

    /// The transcription went away without a result: push-to-talk is idle
    /// again, with nothing to show.
    pub fn transcription_lost(&mut self)
        ensures
            final(self).state == spec_after_transcription(old(self).state),
            final(self).downloading == old(self).downloading,
    {
        if self.state == State::Processing {
            self.state = State::Idle;
        }
    }

    /// A recording in progress is abandoned (the backend is being changed):
    /// returns whether there was one to stop.
    pub fn cancel_recording(&mut self) -> (r: bool)
        ensures
            r == (old(self).state == State::Recording),
            final(self).state == (if r { State::Idle } else { old(self).state }),
            final(self).downloading == old(self).downloading,
    {
        if self.state == State::Recording {
            self.state = State::Idle;
            true
        } else {
            false
        }
    }

    /// A model download began or ended.
    pub fn set_downloading(&mut self, downloading: bool)
        ensures
            final(self).downloading == downloading,
            final(self).state == old(self).state,
    {
        self.downloading = downloading;
    }
}

/// What to do when a transcription ended.
pub struct Outcome {
    /// Text to copy to the clipboard.
    pub copy: Option<String>,
    /// Text to keep in the history, whatever the clipboard does.
    pub save: Option<String>,
    /// A line for the error log.
    pub log: Option<String>,
    /// Show the error status now (otherwise the clipboard's result decides).
    pub error_status: bool,
    /// Hide the status after this many seconds.
    pub hide_after_secs: u64,
}

/// The view of an outcome.
pub open spec fn outcome_view(o: Outcome) -> (Option<Seq<char>>, Option<Seq<char>>, Option<Seq<char>>, bool, u64) {
    (option_view(o.copy), option_view(o.save), option_view(o.log), o.error_status, o.hide_after_secs)
}

/// What to do when a transcription ended with `result`: recognised text is
/// copied and kept in the history (independently of each other), with the
/// status hidden after two seconds; a failure is logged and shown as an
/// error for four seconds.
pub open spec fn spec_outcome(result: Result<Seq<char>, Seq<char>>) -> (
    Option<Seq<char>>,
    Option<Seq<char>>,
    Option<Seq<char>>,
    bool,
    u64,
) {
    match result {
        Ok(t) => (Some(t), Some(t), None, false, 2),
        Err(e) => (None, None, Some("识别失败："@ + e), true, 4),
    }
}

/// The status after the recognised text went to the clipboard: copied, or
/// the clipboard's error logged and an error shown.
pub fn clipboard_feedback(result: Result<(), String>) -> (r: Feedback)
    ensures
        match result {
            Ok(()) => feedback_view(r) == (Some(copied_status()), None::<Seq<char>>),
            Err(e) => feedback_view(r) == (Some(error_status()), Some("复制到剪贴板失败："@ + e@)),
        },
{
    match result {
        Ok(()) => Feedback { status: Some(String::from_str("已复制")), log: None },
        Err(e) => Feedback {
            status: Some(String::from_str("错误，看日志")),
            log: Some(concat_str("复制到剪贴板失败：", e.as_str())),
        },
    }
}

/// Running a whole push-to-talk cycle whose recorder and transcription
/// succeed leads from idle through recording and processing back to idle.
pub proof fn lemma_cycle_returns_to_idle(downloading: bool)
    requires
        !downloading,
    ensures
        spec_start_decision(State::Idle, downloading) == StartDecision::Start,
        spec_after_start(State::Idle, true) == State::Recording,
        spec_after_stop(true) == State::Processing,
        spec_after_transcription(spec_after_stop(true)) == State::Idle,
{
}

/// Recording starts only from the idle state and never while a model is
/// downloading; once something is under way, further start requests are
/// ignored.
pub proof fn lemma_start_only_when_idle(state: State, downloading: bool)
    ensures
        spec_start_decision(state, downloading) == StartDecision::Start <==> (state == State::Idle
            && !downloading),
        state != State::Idle ==> spec_start_decision(state, downloading) == StartDecision::Busy,
{
}

/// Recognised text is always kept in the history, whether or not it could
/// be copied: the history entry does not depend on the clipboard.
pub proof fn lemma_history_independent_of_clipboard(t: Seq<char>)
    ensures
        spec_outcome(Ok(t)).1 == Some(t),
        spec_outcome(Ok(t)).0 == Some(t),
{
}

// ── Hotkey polling ──────────────────────────────────────────────────────────

/// A change of the hotkey's state seen by the poll.
#[derive(Clone, Copy, PartialEq, Eq, Structural, Debug)]
pub enum Edge {
    Pressed,
    Released,
    Unchanged,
}

/// The poll's memory: whether the key was down at the last tick, and the
/// tick count.
pub struct HotkeyPoll {
    pub was_down: bool,
    pub tick: u32,
}

/// Every this many ticks the poll tries to reach the helper again.
pub const HELPER_RETRY_TICKS: u32 = 17;

/// The edge between the last tick's key state and this one's.
pub open spec fn spec_edge(was_down: bool, down: bool) -> Edge {
    if down && !was_down {
        Edge::Pressed
    } else if !down && was_down {
        Edge::Released
    } else {
        Edge::Unchanged
    }
}

/// Whether the poll should try to reach the helper at tick `tick`.
pub open spec fn spec_retry_helper(tick: u32, connected: bool) -> bool {
    !connected && tick % HELPER_RETRY_TICKS == 1
}

/// What push-to-talk does on an edge in state `state`: start on a press
/// when idle, stop on a release when recording.
pub open spec fn spec_edge_action(edge: Edge, state: State) -> Edge {
    if edge == Edge::Pressed && state == State::Idle {
        Edge::Pressed
    } else if edge == Edge::Released && state == State::Recording {
        Edge::Released
    } else {
        Edge::Unchanged
    }
}

impl HotkeyPoll {
    /// A poll that has not seen the key down.
    pub fn new() -> (r: HotkeyPoll)
        ensures
            !r.was_down,
            r.tick == 0,
    {
        HotkeyPoll { was_down: false, tick: 0 }
    }

    /// One timer tick: the key is down if the helper or the window sees it
    /// down.  Returns whether to retry reaching the helper (with the tick
    /// count advanced first, wrapping around) and the edge seen.
    pub fn tick(&mut self, helper_connected: bool, helper_down: bool, window_down: bool) -> (r: (bool, Edge))
        ensures
            final(self).tick == (if old(self).tick == u32::MAX { 0 } else { (old(self).tick + 1) as u32 }),
            r.0 == spec_retry_helper(final(self).tick, helper_connected),
            final(self).was_down == (helper_down || window_down),
            r.1 == spec_edge(old(self).was_down, helper_down || window_down),
    {
        self.tick = self.tick.wrapping_add(1);
        let retry = !helper_connected && self.tick % HELPER_RETRY_TICKS == 1;
        let down = helper_down || window_down;
        let prev = self.was_down;
        self.was_down = down;
        let edge = if down && !prev {
            Edge::Pressed
        } else if !down && prev {
            Edge::Released
        } else {
            Edge::Unchanged
        };
        (retry, edge)
    }
}

/// What push-to-talk does on an edge in state `state` (see [`spec_edge_action`]).
pub fn edge_action(edge: Edge, state: State) -> (r: Edge)
    ensures
        r == spec_edge_action(edge, state),
{
    if edge == Edge::Pressed && state == State::Idle {
        Edge::Pressed
    } else if edge == Edge::Released && state == State::Recording {
        Edge::Released
    } else {
        Edge::Unchanged
    }
}

/// Holding the key down produces exactly one press and releasing it exactly
/// one release: a press is seen only when the key was up, a release only
/// when it was down, and a steady key is no edge.
pub proof fn lemma_edges_alternate(was_down: bool, down: bool)
    ensures
        spec_edge(was_down, down) == Edge::Pressed ==> !was_down && down,
        spec_edge(was_down, down) == Edge::Released ==> was_down && !down,
        was_down == down ==> spec_edge(was_down, down) == Edge::Unchanged,
{
}

// ── Clipboard retries ───────────────────────────────────────────────────────

/// How many times the clipboard is opened before giving up.
pub const CLIPBOARD_ATTEMPTS: u32 = 5;

/// What to do after the clipboard could not be opened.
pub enum ClipboardStep {
    /// Wait this many milliseconds, then try again.
    RetryAfterMs(u64),
    /// Give up with this error.
    Fail(String),
}

/// What to do after attempt `attempt` (counted from 0) failed to open the
/// clipboard: wait 100 ms before the next of the five attempts, and give up
/// after the last.
pub open spec fn spec_clipboard_step(attempt: u32, err: Seq<char>) -> Result<u64, Seq<char>> {
    if attempt + 1 < CLIPBOARD_ATTEMPTS {
        Ok(100u64)
    } else {
        Err("打开剪贴板失败："@ + err)
    }
}

/// The view of a clipboard step.
pub open spec fn clipboard_step_view(s: ClipboardStep) -> Result<u64, Seq<char>> {
    match s {
        ClipboardStep::RetryAfterMs(ms) => Ok(ms),
        ClipboardStep::Fail(e) => Err(e@),
    }
}

/// What to do after a failed attempt (see [`spec_clipboard_step`]).
pub fn clipboard_open_failed(attempt: u32, err: &str) -> (r: ClipboardStep)
    requires
        attempt < CLIPBOARD_ATTEMPTS,
    ensures
        clipboard_step_view(r) == spec_clipboard_step(attempt, err@),
{
    if attempt + 1 < CLIPBOARD_ATTEMPTS {
        ClipboardStep::RetryAfterMs(100)
    } else {
        ClipboardStep::Fail(concat_str("打开剪贴板失败：", err))
    }
}

/// The result of setting the clipboard's text, with its error explained.
pub fn clipboard_set_result(result: Result<(), String>) -> (r: Result<(), String>)
    ensures
        match result {
            Ok(()) => r is Ok,
            Err(e) => r matches Err(m) && m@ == "复制到剪贴板失败："@ + e@,
        },
{
    match result {
        Ok(()) => Ok(()),
        Err(e) => Err(concat_str("复制到剪贴板失败：", e.as_str())),
    }
}

/// The clipboard is tried five times in all, waiting 100 ms between the
/// tries: every failed attempt but the last is followed by a 100 ms wait,
/// and the last gives up.
pub proof fn lemma_clipboard_retries_bounded(attempt: u32, err: Seq<char>)
    requires
        attempt < CLIPBOARD_ATTEMPTS,
    ensures
        attempt < 4 ==> spec_clipboard_step(attempt, err) == Ok::<u64, Seq<char>>(100),
        attempt == 4 ==> spec_clipboard_step(attempt, err) is Err,
{
}

// ── First-run downloads ─────────────────────────────────────────────────────

/// Progress of the first-run download of the FunASR runtime and the VAD model.
pub struct FirstRun {
    pub need_binary: bool,
    pub need_vad: bool,
    /// No download of the runtime has failed.
    pub binary_ok: bool,
}

/// The first-run download, when the runtime or the VAD model is missing.
pub fn first_run_plan(binary_exists: bool, vad_exists: bool) -> (r: Option<FirstRun>)
    ensures
        match r {
            Some(p) => !(binary_exists && vad_exists) && p.need_binary == !binary_exists && p.need_vad
                == !vad_exists && p.binary_ok,
            None => binary_exists && vad_exists,
        },
{
    if binary_exists && vad_exists {
        None
    } else {
        Some(FirstRun { need_binary: !binary_exists, need_vad: !vad_exists, binary_ok: true })
    }
}

impl FirstRun {
    /// The runtime download ended: the status to show when it succeeded; a
    /// failed download changes no status, and all dependencies are no
    /// longer reported ready.
    pub fn binary_done(&mut self, result: Result<(), String>) -> (r: Option<String>)
        ensures
            final(self).binary_ok == (old(self).binary_ok && result is Ok),
            final(self).need_binary == old(self).need_binary,
            final(self).need_vad == old(self).need_vad,
            option_view(r) == (match result {
                Ok(()) => Some("FunASR 引擎就绪 ✓"@),
                Err(_) => None,
            }),
    {
        match result {
            Ok(()) => Some(String::from_str("FunASR 引擎就绪 ✓")),
            Err(_) => {
                self.binary_ok = false;
                None
            },
        }
    }

    /// The VAD model download ended: the status to show.  All dependencies
    /// are reported ready only when no download failed; a failed download
    /// changes no status.
    pub fn vad_done(&self, result: Result<(), String>) -> (r: Option<String>)
        ensures
            option_view(r) == (if result is Ok && self.binary_ok {
                Some("所有依赖就绪 ✓"@)
            } else {
                None
            }),
    {
        match result {
            Ok(()) => if self.binary_ok {
                Some(String::from_str("所有依赖就绪 ✓"))
            } else {
                None
            },
            Err(_) => None,
        }
    }
}

// ── Backend selection ───────────────────────────────────────────────────────

/// The backend chosen by the saved `transcription_mode`: local for `local`
/// or a preset id, the API otherwise.
pub open spec fn spec_service_for_mode(mode: Option<Seq<char>>) -> TranscriptionService {
    match mode {
        Some(m) => if m == "local"@ || find_preset(spec_local_model_presets(), m) is Some {
            TranscriptionService::Local
        } else {
            TranscriptionService::Api
        },
        None => TranscriptionService::Api,
    }
}

/// The provider chosen by the saved `transcription_mode`, the first preset
/// when none was saved.
pub open spec fn spec_provider_for_mode(mode: Option<Seq<char>>) -> Seq<char> {
    match mode {
        Some(m) => m,
        None => spec_local_model_presets()[0].0,
    }
}

/// The settings that the window runs with.
pub struct RuntimeSettings {
    pub active_service: TranscriptionService,
    pub active_provider: String,
    pub api_base_url: String,
    pub api_key: Option<String>,
    pub api_model: String,
}

impl RuntimeSettings {
    /// The settings from the saved values (`transcription_mode`,
    /// `api_custom_url`, `api_key_custom`, `api_custom_model`), each saved
    /// value taking precedence over the configuration.
    pub fn resolve(
        saved_mode: Option<String>,
        saved_url: Option<String>,
        saved_key: Option<String>,
        saved_model: Option<String>,
        config: &Config,
    ) -> (r: RuntimeSettings)
        ensures
            r.active_service == spec_service_for_mode(option_view(saved_mode)),
            r.active_provider@ == spec_provider_for_mode(option_view(saved_mode)),
            r.api_base_url@ == (match saved_url {
                Some(u) => u@,
                None => config.api_base_url@,
            }),
            option_view(r.api_key) == (match saved_key {
                Some(k) => Some(k@),
                None => option_view(config.api_key),
            }),
            r.api_model@ == (match saved_model {
                Some(m) => m@,
                None => config.api_model@,
            }),
    {
        let service = match &saved_mode {
            Some(m) => {
                let preset = find_local_model(m.as_str());
                if str_eq(m.as_str(), "local") || preset.is_some() {
                    TranscriptionService::Local
                } else {
                    TranscriptionService::Api
                }
            },
            None => TranscriptionService::Api,
        };
        let provider = match saved_mode {
            Some(m) => m,
            None => {
                let presets = local_model_presets();
                proof {
                    assert(presets@[0]@ == spec_local_model_presets()[0]);
                }
                String::from_str(presets[0].id)
            },
        };
        let key = match saved_key {
            Some(k) => Some(k),
            None => match &config.api_key {
                Some(k) => Some(k.clone()),
                None => None,
            },
        };
        RuntimeSettings {
            active_service: service,
            active_provider: provider,
            api_base_url: match saved_url {
                Some(u) => u,
                None => config.api_base_url.clone(),
            },
            api_key: key,
            api_model: match saved_model {
                Some(m) => m,
                None => config.api_model.clone(),
            },
        }
    }

    /// The API key to send, empty when there is none.
    pub fn api_key_or_empty(&self) -> (r: String)
        ensures
            r@ == (match self.api_key {
                Some(k) => k@,
                None => Seq::<char>::empty(),
            }),
    {
        match &self.api_key {
            Some(k) => k.clone(),
            None => String::new(),
        }
    }
}

/// A local model chosen from the menu.
pub struct LocalChoice {
    pub id: String,
    pub model_path: String,
    pub url: String,
}

/// What happens to a chosen local model.
#[derive(Clone, Copy, PartialEq, Eq, Structural, Debug)]
pub enum LocalStep {
    /// The FunASR runtime is not installed.
    EngineMissing,
    /// The model is on disk: load it.
    Load,
    /// The model must be downloaded first.
    Download,
}

/// The local model chosen by the menu entry `id` in `models_dir`, when `id`
/// names a preset.
pub fn choose_local_model(id: &str, models_dir: &str) -> (r: Option<LocalChoice>)
    ensures
        match r {
            Some(c) => find_preset(spec_local_model_presets(), id@) matches Some(p) && c.id@ == p.0
                && c.model_path@ == spec_path_join(models_dir@, p.2) && c.url@ == p.4,
            None => find_preset(spec_local_model_presets(), id@) is None,
        },
{
    match find_local_model(id) {
        Some(p) => Some(
            LocalChoice {
                id: String::from_str(p.id),
                model_path: path_join(models_dir, p.file_name),
                url: String::from_str(p.url),
            },
        ),
        None => None,
    }
}

/// What happens to a chosen local model: nothing without the runtime, a
/// load when the model is on disk, a download otherwise.
pub open spec fn spec_local_step(engine_ready: bool, model_exists: bool) -> LocalStep {
    if !engine_ready {
        LocalStep::EngineMissing
    } else if model_exists {
        LocalStep::Load
    } else {
        LocalStep::Download
    }
}

/// What happens to a chosen local model (see [`spec_local_step`]).
pub fn local_step(engine_ready: bool, model_exists: bool) -> (r: LocalStep)
    ensures
        r == spec_local_step(engine_ready, model_exists),
{
    if !engine_ready {
        LocalStep::EngineMissing
    } else if model_exists {
        LocalStep::Load
    } else {
        LocalStep::Download
    }
}

// ── Transcription backend ───────────────────────────────────────────────────

/// Where a recording is sent for transcription.
#[derive(Clone, Copy, PartialEq, Eq, Structural, Debug)]
pub enum Backend {
    /// The OpenAI-compatible API.
    Api,
    /// The local FunASR engine.
    Local,
}

/// The message for local mode without a loaded engine.
pub open spec fn engine_not_ready_message() -> Seq<char> {
    "本地引擎未就绪"@
}

/// Where a recording goes: to the API in API mode, otherwise to the local
/// engine when one is loaded; local mode without an engine is an error.
pub open spec fn spec_backend(api_mode: bool, local_ready: bool) -> Result<Backend, Seq<char>> {
    if api_mode {
        Ok(Backend::Api)
    } else if local_ready {
        Ok(Backend::Local)
    } else {
        Err(engine_not_ready_message())
    }
}

/// Where a recording goes (see [`spec_backend`]).
pub fn choose_backend(api_mode: bool, local_ready: bool) -> (r: Result<Backend, String>)
    ensures
        match r {
            Ok(b) => spec_backend(api_mode, local_ready) == Ok::<Backend, Seq<char>>(b),
            Err(e) => spec_backend(api_mode, local_ready) == Err::<Backend, Seq<char>>(e@),
        },
{
    if api_mode {
        Ok(Backend::Api)
    } else if local_ready {
        Ok(Backend::Local)
    } else {
        Err(String::from_str("本地引擎未就绪"))
    }
}

/// The settings the window runs with and the local engine loaded for them.
pub struct RuntimeState {
    pub settings: RuntimeSettings,
    pub engine: Option<LocalWhisper>,
}

impl RuntimeState {
    /// The state at start: no engine is loaded yet.
    pub fn new(settings: RuntimeSettings) -> (r: RuntimeState)
        ensures
            r.settings == settings,
            r.engine is None,
    {
        RuntimeState { settings, engine: None }
    }

    /// The engine for local model `provider` has been loaded (at start, on
    /// a menu choice or after its download).  It is kept when local mode
    /// with that model is still selected, and then used for transcription;
    /// otherwise the state stays as it was.
    pub fn engine_loaded(&mut self, provider: &str, engine: LocalWhisper) -> (kept: bool)
        ensures
            kept == (old(self).settings.active_service == TranscriptionService::Local
                && old(self).settings.active_provider@ == provider@),
            final(self).settings == old(self).settings,
            final(self).engine == (if kept {
                Some(engine)
            } else {
                old(self).engine
            }),
    {
        let local = match self.settings.active_service {
            TranscriptionService::Local => true,
            TranscriptionService::Api => false,
        };
        if local && str_eq(self.settings.active_provider.as_str(), provider) {
            self.engine = Some(engine);
            true
        } else {
            false
        }
    }

    /// Where a recording goes now (see [`spec_backend`]).
    pub fn backend(&self) -> (r: Result<Backend, String>)
        ensures
            match r {
                Ok(b) => spec_backend(
                    self.settings.active_service == TranscriptionService::Api,
                    self.engine is Some,
                ) == Ok::<Backend, Seq<char>>(b),
                Err(e) => spec_backend(
                    self.settings.active_service == TranscriptionService::Api,
                    self.engine is Some,
                ) == Err::<Backend, Seq<char>>(e@),
            },
    {
        let api = match self.settings.active_service {
            TranscriptionService::Api => true,
            TranscriptionService::Local => false,
        };
        choose_backend(api, self.engine.is_some())
    }
}

/// Once the engine of the selected local model is kept, recordings go to
/// that engine.
pub proof fn lemma_kept_engine_is_used(settings: RuntimeSettings, engine: LocalWhisper)
    requires
        settings.active_service == TranscriptionService::Local,
    ensures
        ({
            let s = RuntimeState { settings, engine: Some(engine) };
            spec_backend(
                s.settings.active_service == TranscriptionService::Api,
                s.engine is Some,
            ) == Ok::<Backend, Seq<char>>(Backend::Local)
        }),
{
}

// ── Menu ────────────────────────────────────────────────────────────────────

/// An entry of the local-model menu: its label, and the action it triggers
/// (none for a notice).
pub struct MenuEntry {
    pub label: String,
    pub action: Option<String>,
}

/// The local-model menu: one entry per preset, labelled with its name and
/// size, when the runtime is installed; a notice otherwise.
pub open spec fn spec_local_menu(engine_installed: bool) -> Seq<(Seq<char>, Option<Seq<char>>)> {
    if engine_installed {
        Seq::new(
            spec_local_model_presets().len(),
            |i: int|
                (
                    spec_local_model_presets()[i].1 + " ("@ + spec_local_model_presets()[i].3 + ")"@,
                    Some("app.transcription-mode::"@ + spec_local_model_presets()[i].0),
                ),
        )
    } else {
        seq![("本地引擎未安装"@, None)]
    }
}

/// Every entry of the local-model menu selects the preset it shows: its
/// action is the mode prefix followed by an id that names that very preset,
/// and its label is that preset's name and size.
pub proof fn lemma_menu_entry_selects_its_preset(i: int)
    requires
        0 <= i < spec_local_model_presets().len(),
    ensures
        spec_local_menu(true).len() == spec_local_model_presets().len(),
        ({
            let prefix = "app.transcription-mode::"@;
            let entry = spec_local_menu(true)[i];
            let preset = spec_local_model_presets()[i];
            &&& entry.0 == preset.1 + " ("@ + preset.3 + ")"@
            &&& entry.1 matches Some(a) && a.len() >= prefix.len() && a.subrange(0, prefix.len() as int)
                == prefix && find_preset(
                spec_local_model_presets(),
                a.subrange(prefix.len() as int, a.len() as int),
            ) == Some(preset)
        }),
{
    let prefix = "app.transcription-mode::"@;
    let ps = spec_local_model_presets();
    let a = prefix + ps[i].0;
    assert(a.subrange(0, prefix.len() as int) =~= prefix);
    assert(a.subrange(prefix.len() as int, a.len() as int) =~= ps[i].0);
    crate::config::lemma_find_preset_by_id(ps[i].0);
    assert(ps.len() == 2);
}

/// The local-model menu (see [`spec_local_menu`]).
pub fn local_menu(engine_installed: bool) -> (r: Vec<MenuEntry>)
    ensures
        r.len() == spec_local_menu(engine_installed).len(),
        forall|i: int|
            0 <= i < r.len() ==> (#[trigger] r@[i].label@, option_view(r@[i].action))
                == spec_local_menu(engine_installed)[i],
{
    let mut r: Vec<MenuEntry> = Vec::new();
    if !engine_installed {
        r.push(MenuEntry { label: String::from_str("本地引擎未安装"), action: None });
        return r;
    }
    let presets = local_model_presets();
    let mut i: usize = 0;
    while i < presets.len()
        invariant
            engine_installed,
            presets.len() == spec_local_model_presets().len(),
            forall|k: int| 0 <= k < presets.len() ==> #[trigger] presets@[k]@ == spec_local_model_presets()[k],
            i <= presets.len(),
            r.len() == i,
            forall|k: int|
                0 <= k < i ==> (#[trigger] r@[k].label@, option_view(r@[k].action)) == spec_local_menu(
                    true,
                )[k],
        decreases presets.len() - i,
    {
        let p = presets[i];
        let label = concat_str(p.label, " (");
        let label = concat_str(label.as_str(), p.size_label);
        let label = concat_str(label.as_str(), ")");
        let action = concat_str("app.transcription-mode::", p.id);
        proof {
            assert(p@ == spec_local_model_presets()[i as int]);
        }
        r.push(MenuEntry { label, action: Some(action) });
        i = i + 1;
    }
    r
}

// ── Window position ─────────────────────────────────────────────────────────

/// Where the window goes at start.
#[derive(Clone, Copy, PartialEq, Eq, Structural, Debug)]
pub enum Placement {
    /// The position saved earlier.
    Saved(i32, i32),
    /// First start: the bottom-right corner, which is saved as the position.
    BottomRight(i32, i32),
    /// Nothing saved and no monitor known.
    Default,
}

/// A saved coordinate, when one was saved and it is a number.
pub open spec fn spec_saved_coordinate(s: Option<Seq<char>>) -> Option<i32> {
    match s {
        Some(v) => spec_parse_i32(v),
        None => None,
    }
}

/// Where the window goes: the saved position when both coordinates were
/// saved as numbers, otherwise 100 by 120 pixels in from the bottom-right
/// corner of the first monitor.
pub open spec fn spec_placement(
    saved_x: Option<Seq<char>>,
    saved_y: Option<Seq<char>>,
    monitor: Option<(i32, i32)>,
) -> Placement {
    match (spec_saved_coordinate(saved_x), spec_saved_coordinate(saved_y)) {
        (Some(x), Some(y)) => Placement::Saved(x, y),
        _ => match monitor {
            Some((w, h)) => Placement::BottomRight((w - 100) as i32, (h - 120) as i32),
            None => Placement::Default,
        },
    }
}

/// Where the window goes (see [`spec_placement`]).
pub fn window_placement(
    saved_x: Option<&str>,
    saved_y: Option<&str>,
    monitor: Option<(i32, i32)>,
) -> (r: Placement)
    requires
        monitor matches Some((w, h)) ==> w >= i32::MIN + 100 && h >= i32::MIN + 120,
    ensures
        r == spec_placement(
            match saved_x {
                Some(v) => Some(v@),
                None => None,
            },
            match saved_y {
                Some(v) => Some(v@),
                None => None,
            },
            monitor,
        ),
{
    let x = match saved_x {
        Some(v) => parse_i32(v),
        None => None,
    };
    let y = match saved_y {
        Some(v) => parse_i32(v),
        None => None,
    };
    match (x, y) {
        (Some(x), Some(y)) => Placement::Saved(x, y),
        _ => match monitor {
            Some((w, h)) => Placement::BottomRight(w - 100, h - 120),
            None => Placement::Default,
        },
    }
}

} // verus!
