//! The shared state of the front end and the control loop's rules: what each
//! event of a background task does to that state.

use crate::download::{human_size, spec_human_size};
use crate::logbuf::LogBuffer;
use crate::models::{
    Backend, DownloadEvent, DownloadEventView, DownloadKind, DownloadedModel, Msg, MsgView,
    RuntimeInfo, ServerStatus, ServerStatusView, Settings, StreamEvent, StreamEventView,
};
use crate::text::{
    chars_of, concat, spec_starts_with, spec_strip_prefix, starts_with, string_of, strip_prefix,
    text_is, texts_view,
};
use vstd::prelude::*;
use vstd::string::StringExecFns;

verus! {

/// The progress of a download as it is shown: bytes so far, bytes in all
/// where known, and the stage.
pub type Progress = (u64, Option<u64>, String);

/// `Progress` with its stage as a sequence of characters.
pub type ProgressView = (u64, Option<u64>, Seq<char>);

/// The one context object of the front end. Only the control loop changes
/// it; background tasks reach it through their events alone.
pub struct App {
    pub backend: Backend,
    pub status: String,
    pub runtime_dir: String,
    pub model_dir: String,
    pub server_bin: Option<String>,
    /// Whether a handle of a spawned server process is held.
    pub server_child: bool,
    pub server_url: String,
    pub model_repo: String,
    pub model_file: String,
    pub model_path: Option<String>,
    pub msgs: Vec<Msg>,
    pub runtime_progress: Option<Progress>,
    pub model_progress: Option<Progress>,
    pub server_log: LogBuffer,
    pub server_ready: bool,
    pub loaded_model: Option<String>,
    pub served_model_id: Option<String>,
    pub downloaded: Vec<DownloadedModel>,
    pub settings: Settings,
    pub available_runtimes: Vec<RuntimeInfo>,
    pub current_runtime: Option<RuntimeInfo>,
    pub server_status: ServerStatus,
    /// When the user was last seen active, in nanoseconds of a clock that
    /// never runs backwards.
    pub last_activity: u64,
}

/// The state of the front end as mathematics.
pub struct AppView {
    pub backend: Backend,
    pub status: Seq<char>,
    pub runtime_dir: Seq<char>,
    pub model_dir: Seq<char>,
    pub server_bin: Option<Seq<char>>,
    pub server_child: bool,
    pub server_url: Seq<char>,
    pub model_repo: Seq<char>,
    pub model_file: Seq<char>,
    pub model_path: Option<Seq<char>>,
    pub msgs: Seq<MsgView>,
    pub runtime_progress: Option<ProgressView>,
    pub model_progress: Option<ProgressView>,
    pub server_log: Seq<Seq<char>>,
    pub server_ready: bool,
    pub loaded_model: Option<Seq<char>>,
    pub served_model_id: Option<Seq<char>>,
    pub downloaded: Seq<DownloadedModel>,
    pub settings: Settings,
    pub available_runtimes: Seq<RuntimeInfo>,
    pub current_runtime: Option<RuntimeInfo>,
    pub server_status: ServerStatusView,
    pub last_activity: u64,
}

/// An optional text as an optional sequence of characters.
pub open spec fn opt_text(o: Option<String>) -> Option<Seq<char>> {
    match o {
        Some(s) => Some(s@),
        None => None,
    }
}

/// An optional progress with its stage as a sequence of characters.
pub open spec fn opt_progress(o: Option<Progress>) -> Option<ProgressView> {
    match o {
        Some(p) => Some((p.0, p.1, p.2@)),
        None => None,
    }
}

/// Messages with their texts as sequences of characters.
pub open spec fn msgs_view(msgs: Seq<Msg>) -> Seq<MsgView> {
    msgs.map_values(|m: Msg| m@)
}

impl View for App {
    type V = AppView;

    open spec fn view(&self) -> AppView {
        AppView {
            backend: self.backend,
            status: self.status@,
            runtime_dir: self.runtime_dir@,
            model_dir: self.model_dir@,
            server_bin: opt_text(self.server_bin),
            server_child: self.server_child,
            server_url: self.server_url@,
            model_repo: self.model_repo@,
            model_file: self.model_file@,
            model_path: opt_text(self.model_path),
            msgs: msgs_view(self.msgs@),
            runtime_progress: opt_progress(self.runtime_progress),
            model_progress: opt_progress(self.model_progress),
            server_log: self.server_log@,
            server_ready: self.server_ready,
            loaded_model: opt_text(self.loaded_model),
            served_model_id: opt_text(self.served_model_id),
            downloaded: self.downloaded@,
            settings: self.settings,
            available_runtimes: self.available_runtimes@,
            current_runtime: self.current_runtime,
            server_status: self.server_status@,
            last_activity: self.last_activity,
        }
    }
}

/// What a chat event does to the state: a token grows the last message where
/// that is the assistant's, an error shows in the status line, and the end of
/// the stream changes nothing by itself.
pub open spec fn spec_apply_stream_event(a: AppView, ev: StreamEventView) -> AppView {
    match ev {
        StreamEventView::Token(t) => {
            if a.msgs.len() > 0 && a.msgs.last().role == "assistant"@ {
                AppView {
                    msgs: a.msgs.update(
                        a.msgs.len() - 1,
                        MsgView { role: a.msgs.last().role, content: a.msgs.last().content + t },
                    ),
                    ..a
                }
            } else {
                a
            }
        },
        StreamEventView::Error(e) => AppView { status: "Chat err: "@ + e, ..a },
        StreamEventView::Done => a,
    }
}

/// Whether a chat event is terminal: the end of the stream, or an error.
pub open spec fn stream_event_is_terminal(ev: StreamEventView) -> bool {
    ev is Done || ev is Error
}

/// Chat events with their texts as sequences of characters.
pub open spec fn stream_events_view(evs: Seq<StreamEvent>) -> Seq<StreamEventView> {
    evs.map_values(|e: StreamEvent| e@)
}

/// What a run of chat events does to the state, one after the other.
pub open spec fn spec_apply_stream_events(a: AppView, evs: Seq<StreamEventView>) -> AppView
    decreases evs.len(),
{
    if evs.len() == 0 {
        a
    } else {
        spec_apply_stream_event(spec_apply_stream_events(a, evs.drop_last()), evs.last())
    }
}

/// Whether one of the chat events is terminal.
pub open spec fn stream_ended(evs: Seq<StreamEventView>) -> bool {
    exists|i: int| 0 <= i < evs.len() && stream_event_is_terminal(#[trigger] evs[i])
}

/// Whether one of the chat events is an error.
pub open spec fn stream_failed(evs: Seq<StreamEventView>) -> bool {
    exists|i: int| 0 <= i < evs.len() && (#[trigger] evs[i]) is Error
}

/// What draining the chat stream does in one tick: every event that is there
/// is applied in its order of arrival. Where the stream has come to its end
/// without an error the status line goes back to idle; an error stays in it.
pub open spec fn spec_drain_stream(a: AppView, evs: Seq<StreamEventView>) -> AppView {
    let b = spec_apply_stream_events(a, evs);
    if stream_ended(evs) && !stream_failed(evs) {
        AppView { status: "Idle"@, ..b }
    } else {
        b
    }
}

proof fn lemma_stream_ended_step(evs: Seq<StreamEventView>, k: int)
    requires
        0 <= k < evs.len(),
    ensures
        stream_ended(evs.take(k + 1)) == (stream_ended(evs.take(k)) || stream_event_is_terminal(
            evs[k],
        )),
        stream_failed(evs.take(k + 1)) == (stream_failed(evs.take(k)) || evs[k] is Error),
{
    if stream_ended(evs.take(k)) {
        let i = choose|i: int| 0 <= i < k && stream_event_is_terminal(#[trigger] evs.take(k)[i]);
        assert(evs.take(k + 1)[i] == evs.take(k)[i]);
    }
    if stream_failed(evs.take(k)) {
        let i = choose|i: int| 0 <= i < k && (#[trigger] evs.take(k)[i]) is Error;
        assert(evs.take(k + 1)[i] == evs.take(k)[i]);
    }
    if stream_event_is_terminal(evs[k]) {
        assert(stream_event_is_terminal(evs.take(k + 1)[k]));
    }
    if evs[k] is Error {
        assert(evs.take(k + 1)[k] is Error);
    }
    if stream_ended(evs.take(k + 1)) && !stream_event_is_terminal(evs[k]) {
        let i = choose|i: int|
            0 <= i < k + 1 && stream_event_is_terminal(#[trigger] evs.take(k + 1)[i]);
        assert(evs.take(k)[i] == evs.take(k + 1)[i]);
    }
    if stream_failed(evs.take(k + 1)) && !(evs[k] is Error) {
        let i = choose|i: int| 0 <= i < k + 1 && (#[trigger] evs.take(k + 1)[i]) is Error;
        assert(evs.take(k)[i] == evs.take(k + 1)[i]);
    }
}

/// What the control loop has to do outside the state after a download event.
#[derive(Clone, Copy, PartialEq, Eq, Structural, Debug)]
pub enum FollowUp {
    Nothing,
    /// List the model directory again.
    RescanModels,
    /// Look for the server binary among the unpacked files.
    LocateServerBin,
}

/// What one tick's drain of the download events leaves to do.
#[derive(Clone, Copy, PartialEq, Eq, Structural, Debug)]
pub struct DownloadDrain {
    /// Whether the event source is kept for the next tick.
    pub retain: bool,
    pub rescan_models: bool,
    pub locate_server_bin: bool,
}

/// The word that the status line uses for a kind of download.
pub open spec fn kind_label(kind: DownloadKind) -> Seq<char> {
    match kind {
        DownloadKind::Runtime => "Runtime"@,
        DownloadKind::Model => "Model"@,
    }
}

/// A total size as it is shown, `?` where it is not known.
pub open spec fn total_text(total: Option<u64>) -> Seq<char> {
    match total {
        Some(t) => spec_human_size(t),
        None => "?"@,
    }
}

/// The status line for a step of progress.
pub open spec fn progress_status(
    kind: DownloadKind,
    current: u64,
    total: Option<u64>,
    stage: Seq<char>,
) -> Seq<char> {
    kind_label(kind) + " "@ + stage + ": "@ + spec_human_size(current) + " / "@ + total_text(total)
}

/// What a download event does to the state.
pub open spec fn spec_apply_download_event(a: AppView, ev: DownloadEventView) -> AppView {
    match ev {
        DownloadEventView::Done { kind: DownloadKind::Model, dest } => AppView {
            model_path: if dest is Some {
                dest
            } else {
                a.model_path
            },
            model_progress: None,
            status: "Model ready"@,
            ..a
        },
        DownloadEventView::Done { kind: DownloadKind::Runtime, dest } => AppView {
            runtime_progress: None,
            status: "Runtime ready"@,
            ..a
        },
        DownloadEventView::Progress { kind: DownloadKind::Runtime, current, total, stage } => AppView {
            runtime_progress: Some((current, total, stage)),
            status: progress_status(DownloadKind::Runtime, current, total, stage),
            ..a
        },
        DownloadEventView::Progress { kind: DownloadKind::Model, current, total, stage } => AppView {
            model_progress: Some((current, total, stage)),
            status: progress_status(DownloadKind::Model, current, total, stage),
            ..a
        },
        DownloadEventView::Error { kind: DownloadKind::Runtime, err } => AppView {
            runtime_progress: None,
            status: "Runtime err: "@ + err,
            ..a
        },
        DownloadEventView::Error { kind: DownloadKind::Model, err } => AppView {
            model_progress: None,
            status: "Model err: "@ + err,
            ..a
        },
    }
}

/// What is left to do outside the state after a download event.
pub open spec fn download_follow_up(ev: DownloadEventView) -> FollowUp {
    match ev {
        DownloadEventView::Done { kind: DownloadKind::Model, .. } => FollowUp::RescanModels,
        DownloadEventView::Done { kind: DownloadKind::Runtime, .. } => FollowUp::LocateServerBin,
        _ => FollowUp::Nothing,
    }
}

/// Whether a download event ends its task.
pub open spec fn download_event_is_terminal(ev: DownloadEventView) -> bool {
    ev is Done || ev is Error
}

/// Download events with their texts as sequences of characters.
pub open spec fn download_events_view(evs: Seq<DownloadEvent>) -> Seq<DownloadEventView> {
    evs.map_values(|e: DownloadEvent| e@)
}

/// What a run of download events does to the state, one after the other.
pub open spec fn spec_apply_download_events(a: AppView, evs: Seq<DownloadEventView>) -> AppView
    decreases evs.len(),
{
    if evs.len() == 0 {
        a
    } else {
        spec_apply_download_event(spec_apply_download_events(a, evs.drop_last()), evs.last())
    }
}

/// Whether one of the download events ends the task.
pub open spec fn download_ended(evs: Seq<DownloadEventView>) -> bool {
    exists|i: int| 0 <= i < evs.len() && download_event_is_terminal(#[trigger] evs[i])
}

/// Whether one of the download events leaves `what` to do.
pub open spec fn asks_for(evs: Seq<DownloadEventView>, what: FollowUp) -> bool {
    exists|i: int| 0 <= i < evs.len() && download_follow_up(#[trigger] evs[i]) == what
}

/// What one tick's drain of `evs` leaves to do: the source is dropped once a
/// terminal event was seen.
pub open spec fn spec_download_drain(evs: Seq<DownloadEventView>) -> DownloadDrain {
    DownloadDrain {
        retain: !download_ended(evs),
        rescan_models: asks_for(evs, FollowUp::RescanModels),
        locate_server_bin: asks_for(evs, FollowUp::LocateServerBin),
    }
}

proof fn lemma_download_ended_step(evs: Seq<DownloadEventView>, k: int)
    requires
        0 <= k < evs.len(),
    ensures
        download_ended(evs.take(k + 1)) == (download_ended(evs.take(k))
            || download_event_is_terminal(evs[k])),
{
    if download_ended(evs.take(k)) {
        let i = choose|i: int|
            0 <= i < k && download_event_is_terminal(#[trigger] evs.take(k)[i]);
        assert(evs.take(k + 1)[i] == evs.take(k)[i]);
    }
    if download_event_is_terminal(evs[k]) {
        assert(download_event_is_terminal(evs.take(k + 1)[k]));
    }
    if download_ended(evs.take(k + 1)) && !download_event_is_terminal(evs[k]) {
        let i = choose|i: int|
            0 <= i < k + 1 && download_event_is_terminal(#[trigger] evs.take(k + 1)[i]);
        assert(evs.take(k)[i] == evs.take(k + 1)[i]);
    }
}

proof fn lemma_asks_for_step(evs: Seq<DownloadEventView>, k: int, what: FollowUp)
    requires
        0 <= k < evs.len(),
    ensures
        asks_for(evs.take(k + 1), what) == (asks_for(evs.take(k), what) || download_follow_up(
            evs[k],
        ) == what),
{
    if asks_for(evs.take(k), what) {
        let i = choose|i: int|
            0 <= i < k && download_follow_up(#[trigger] evs.take(k)[i]) == what;
        assert(evs.take(k + 1)[i] == evs.take(k)[i]);
    }
    if download_follow_up(evs[k]) == what {
        assert(download_follow_up(evs.take(k + 1)[k]) == what);
    }
    if asks_for(evs.take(k + 1), what) && download_follow_up(evs[k]) != what {
        let i = choose|i: int|
            0 <= i < k + 1 && download_follow_up(#[trigger] evs.take(k + 1)[i]) == what;
        assert(evs.take(k)[i] == evs.take(k + 1)[i]);
    }
}

/// What a line of the server's log stream does to the state: the readiness
/// sentinel marks the server as running, the model sentinel tells the served
/// model's identifier, and every line, sentinel or not, goes to the ring log.
pub open spec fn spec_apply_log_line(a: AppView, line: Seq<char>) -> AppView {
    let ready = spec_starts_with(line, "[READY]"@);
    let model = spec_strip_prefix(line, "[MODEL] "@);
    AppView {
        server_ready: ready || a.server_ready,
        server_status: if ready {
            ServerStatusView::Running
        } else {
            a.server_status
        },
        status: if ready {
            "Server ready"@
        } else {
            a.status
        },
        served_model_id: if model is Some {
            model
        } else {
            a.served_model_id
        },
        server_log: crate::logbuf::spec_log_push(a.server_log, line),
        ..a
    }
}

/// What a run of log lines does to the state, one after the other.
pub open spec fn spec_apply_log_lines(a: AppView, lines: Seq<Seq<char>>) -> AppView
    decreases lines.len(),
{
    if lines.len() == 0 {
        a
    } else {
        spec_apply_log_line(spec_apply_log_lines(a, lines.drop_last()), lines.last())
    }
}

impl App {
    /// The invariant of the state: the server log is within its capacity.
    pub open spec fn wf(&self) -> bool {
        self.server_log.wf()
    }

    /// Applies one chat event; the result says whether it is terminal.
    pub fn apply_stream_event(&mut self, ev: StreamEvent) -> (terminal: bool)
        requires
            old(self).wf(),
        ensures
            final(self).wf(),
            final(self)@ == spec_apply_stream_event(old(self)@, ev@),
            terminal == stream_event_is_terminal(ev@),
    {
        match ev {
            StreamEvent::Token(t) => {
                let n = self.msgs.len();
                if n > 0 && text_is(&self.msgs[n - 1].role, "assistant") {
                    let ghost before = self.msgs@;
                    let mut last = self.msgs.pop().unwrap();
                    last.content.append(t.as_str());
                    self.msgs.push(last);
                    assert(msgs_view(self.msgs@) =~= msgs_view(before).update(
                        n - 1,
                        MsgView { role: before[n - 1].role@, content: before[n - 1].content@ + t@ },
                    ));
                }
                assert(self@ == spec_apply_stream_event(old(self)@, ev@));
                false
            },
            StreamEvent::Error(e) => {
                self.status = concat("Chat err: ", e.as_str());
                true
            },
            StreamEvent::Done => true,
        }
    }

    /// Drains the chat stream for one tick. The result says whether the
    /// stream is kept for the next tick: it is dropped once a terminal event
    /// was seen.
    pub fn drain_stream_events(&mut self, events: Vec<StreamEvent>) -> (retain: bool)
        requires
            old(self).wf(),
        ensures
            final(self).wf(),
            final(self)@ == spec_drain_stream(old(self)@, stream_events_view(events@)),
            retain == !stream_ended(stream_events_view(events@)),
    {
        let ghost evs = stream_events_view(events@);
        let mut ended = false;
        let mut failed = false;
        for ev in it: events
            invariant
                self.wf(),
                evs == stream_events_view(it.seq()),
                self@ == spec_apply_stream_events(old(self)@, evs.take(it.index() as int)),
                ended == stream_ended(evs.take(it.index() as int)),
                failed == stream_failed(evs.take(it.index() as int)),
        {
            let ghost k = it.index() as int;
            proof {
                assert(evs.take(k + 1).drop_last() =~= evs.take(k));
                assert(evs.take(k + 1).last() == evs[k]);
                lemma_stream_ended_step(evs, k);
            }
            let is_error = match &ev {
                StreamEvent::Error(_) => true,
                _ => false,
            };
            let terminal = self.apply_stream_event(ev);
            ended = ended || terminal;
            failed = failed || is_error;
        }
        assert(evs.take(evs.len() as int) =~= evs);
        if ended && !failed {
            self.status = "Idle".to_owned();
        }
        !ended
    }

    /// Applies one download event and says what is left to do outside the
    /// state.
    pub fn apply_download_event(&mut self, ev: DownloadEvent) -> (follow_up: FollowUp)
        requires
            old(self).wf(),
        ensures
            final(self).wf(),
            final(self)@ == spec_apply_download_event(old(self)@, ev@),
            follow_up == download_follow_up(ev@),
    {
        match ev {
            DownloadEvent::Done { kind, dest } => {
                match kind {
                    DownloadKind::Model => {
                        if let Some(p) = dest {
                            self.model_path = Some(p);
                        }
                        self.model_progress = None;
                        self.status = "Model ready".to_owned();
                        FollowUp::RescanModels
                    },
                    DownloadKind::Runtime => {
                        self.runtime_progress = None;
                        self.status = "Runtime ready".to_owned();
                        FollowUp::LocateServerBin
                    },
                }
            },
            DownloadEvent::Progress { kind, current, total, stage } => {
                let mut status = match kind {
                    DownloadKind::Runtime => "Runtime".to_owned(),
                    DownloadKind::Model => "Model".to_owned(),
                };
                status.append(" ");
                status.append(stage);
                status.append(": ");
                status.append(human_size(current).as_str());
                status.append(" / ");
                match total {
                    Some(t) => status.append(human_size(t).as_str()),
                    None => status.append("?"),
                }
                self.status = status;
                match kind {
                    DownloadKind::Runtime => {
                        self.runtime_progress = Some((current, total, stage.to_owned()));
                    },
                    DownloadKind::Model => {
                        self.model_progress = Some((current, total, stage.to_owned()));
                    },
                }
                FollowUp::Nothing
            },
            DownloadEvent::Error { kind, err } => {
                match kind {
                    DownloadKind::Runtime => {
                        self.runtime_progress = None;
                        self.status = concat("Runtime err: ", err.as_str());
                    },
                    DownloadKind::Model => {
                        self.model_progress = None;
                        self.status = concat("Model err: ", err.as_str());
                    },
                }
                FollowUp::Nothing
            },
        }
    }

    /// Drains the download events for one tick: every event that is there is
    /// applied in its order of arrival. The result says what is left to do
    /// outside the state, and whether the source is kept.
    pub fn drain_download_events(&mut self, events: Vec<DownloadEvent>) -> (out: DownloadDrain)
        requires
            old(self).wf(),
        ensures
            final(self).wf(),
            final(self)@ == spec_apply_download_events(old(self)@, download_events_view(events@)),
            out == spec_download_drain(download_events_view(events@)),
    {
        let ghost evs = download_events_view(events@);
        let mut out = DownloadDrain { retain: true, rescan_models: false, locate_server_bin: false };
        for ev in it: events
            invariant
                self.wf(),
                evs == download_events_view(it.seq()),
                self@ == spec_apply_download_events(old(self)@, evs.take(it.index() as int)),
                out == spec_download_drain(evs.take(it.index() as int)),
        {
            let ghost k = it.index() as int;
            proof {
                assert(evs.take(k + 1).drop_last() =~= evs.take(k));
                assert(evs.take(k + 1).last() == evs[k]);
                lemma_download_ended_step(evs, k);
                lemma_asks_for_step(evs, k, FollowUp::RescanModels);
                lemma_asks_for_step(evs, k, FollowUp::LocateServerBin);
            }
            let terminal = match &ev {
                DownloadEvent::Progress { .. } => false,
                _ => true,
            };
            match self.apply_download_event(ev) {
                FollowUp::RescanModels => {
                    out.rescan_models = true;
                },
                FollowUp::LocateServerBin => {
                    out.locate_server_bin = true;
                },
                FollowUp::Nothing => {},
            }
            if terminal {
                out.retain = false;
            }
        }
        assert(evs.take(evs.len() as int) =~= evs);
        out
    }

    /// Applies one line of the server's log stream.
    pub fn apply_log_line(&mut self, line: String)
        requires
            old(self).wf(),
        ensures
            final(self).wf(),
            final(self)@ == spec_apply_log_line(old(self)@, line@),
    {
        let chars = chars_of(line.as_str());
        if starts_with(&chars, &chars_of("[READY]")) {
            self.server_ready = true;
            self.server_status = ServerStatus::Running;
            self.status = "Server ready".to_owned();
        }
        if let Some(rest) = strip_prefix(&chars, &chars_of("[MODEL] ")) {
            let id = string_of(&rest);
            self.served_model_id = Some(id);
        }
        self.server_log.push(line);
    }

    /// Drains the server's log stream for one tick: every line that is there
    /// is applied in its order of arrival. The stream has no terminal event
    /// and is always kept.
    pub fn drain_log_lines(&mut self, lines: Vec<String>)
        requires
            old(self).wf(),
        ensures
            final(self).wf(),
            final(self)@ == spec_apply_log_lines(old(self)@, texts_view(lines@)),
    {
        let ghost ls = texts_view(lines@);
        for line in it: lines
            invariant
                self.wf(),
                ls == texts_view(it.seq()),
                self@ == spec_apply_log_lines(old(self)@, ls.take(it.index() as int)),
        {
            let ghost k = it.index() as int;
            proof {
                assert(ls.take(k + 1).drop_last() =~= ls.take(k));
                assert(ls.take(k + 1).last() == ls[k]);
            }
            self.apply_log_line(line);
        }
        assert(ls.take(ls.len() as int) =~= ls);
    }
}

/// The state after chat events does not depend on the ticks in which they
/// were drained: applying two runs one after the other is applying them as
/// one.
pub proof fn lemma_stream_events_split(
    a: AppView,
    first: Seq<StreamEventView>,
    second: Seq<StreamEventView>,
)
    ensures
        spec_apply_stream_events(a, first + second) == spec_apply_stream_events(
            spec_apply_stream_events(a, first),
            second,
        ),
    decreases second.len(),
{
    if second.len() == 0 {
        assert(first + second =~= first);
    } else {
        assert((first + second).drop_last() =~= first + second.drop_last());
        lemma_stream_events_split(a, first, second.drop_last());
    }
}

/// The state after download events does not depend on the ticks in which
/// they were drained.
pub proof fn lemma_download_events_split(
    a: AppView,
    first: Seq<DownloadEventView>,
    second: Seq<DownloadEventView>,
)
    ensures
        spec_apply_download_events(a, first + second) == spec_apply_download_events(
            spec_apply_download_events(a, first),
            second,
        ),
    decreases second.len(),
{
    if second.len() == 0 {
        assert(first + second =~= first);
    } else {
        assert((first + second).drop_last() =~= first + second.drop_last());
        lemma_download_events_split(a, first, second.drop_last());
    }
}

/// The state after log lines does not depend on the ticks in which they
/// were drained.
pub proof fn lemma_log_lines_split(a: AppView, first: Seq<Seq<char>>, second: Seq<Seq<char>>)
    ensures
        spec_apply_log_lines(a, first + second) == spec_apply_log_lines(
            spec_apply_log_lines(a, first),
            second,
        ),
    decreases second.len(),
{
    if second.len() == 0 {
        assert(first + second =~= first);
    } else {
        assert((first + second).drop_last() =~= first + second.drop_last());
        lemma_log_lines_split(a, first, second.drop_last());
    }
}

/// The log of the state never holds more than its capacity, whatever lines
/// are drained into it.
pub proof fn lemma_state_log_bounded(a: AppView, lines: Seq<Seq<char>>)
    requires
        a.server_log.len() <= crate::logbuf::LOG_CAPACITY,
    ensures
        spec_apply_log_lines(a, lines).server_log.len() <= crate::logbuf::LOG_CAPACITY,
    decreases lines.len(),
{
    if lines.len() > 0 {
        lemma_state_log_bounded(a, lines.drop_last());
    }
}

} // verus!
