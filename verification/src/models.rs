//! The data that the parts of the library hand to each other.

use vstd::prelude::*;

verus! {

/// The accelerator family that the runtime is built for.
#[derive(Clone, Copy, PartialEq, Eq, Structural, Debug)]
pub enum Backend {
    Auto,
    Cpu,
    Cuda,
    Hip,
    Metal,
    Vulkan,
}

/// What a download fetches.
#[derive(Clone, Copy, PartialEq, Eq, Structural, Debug)]
pub enum DownloadKind {
    Runtime,
    Model,
}

/// The user's configuration, read-only to the lifecycle rules.
#[derive(Clone, Debug)]
pub struct Settings {
    pub default_runtime: Option<String>,
    pub auto_start_server: bool,
    pub auto_stop_server: bool,
    pub server_timeout_minutes: u32,
    pub theme: String,
    pub max_chat_history: usize,
}

impl Default for Settings {
    fn default() -> (s: Self)
        ensures
            s.default_runtime is None,
            s.auto_start_server,
            s.auto_stop_server,
            s.server_timeout_minutes == 30,
            s.theme@ == "dark"@,
            s.max_chat_history == 1000,
    {
        Settings {
            default_runtime: None,
            auto_start_server: true,
            auto_stop_server: true,
            server_timeout_minutes: 30,
            theme: "dark".to_owned(),
            max_chat_history: 1000,
        }
    }
}

/// A runtime that was found on this machine.
#[derive(Clone, Debug)]
pub struct RuntimeInfo {
    pub name: String,
    pub path: String,
    pub version: String,
    pub backend: Backend,
}

/// The state of the inference server as the lifecycle rules see it.
#[derive(Clone, Debug, PartialEq, Eq)]
pub enum ServerStatus {
    Stopped,
    Starting,
    Running,
    Error(String),
}

/// `ServerStatus` with its message as a sequence of characters.
pub enum ServerStatusView {
    Stopped,
    Starting,
    Running,
    Error(Seq<char>),
}

impl View for ServerStatus {
    type V = ServerStatusView;

    open spec fn view(&self) -> ServerStatusView {
        match self {
            ServerStatus::Stopped => ServerStatusView::Stopped,
            ServerStatus::Starting => ServerStatusView::Starting,
            ServerStatus::Running => ServerStatusView::Running,
            ServerStatus::Error(m) => ServerStatusView::Error(m@),
        }
    }
}

/// What a download task reports to the control loop.
#[derive(Debug, PartialEq, Eq)]
pub enum DownloadEvent {
    Progress { kind: DownloadKind, current: u64, total: Option<u64>, stage: &'static str },
    Done { kind: DownloadKind, dest: Option<String> },
    Error { kind: DownloadKind, err: String },
}

/// `DownloadEvent` with its texts as sequences of characters.
pub enum DownloadEventView {
    Progress { kind: DownloadKind, current: u64, total: Option<u64>, stage: Seq<char> },
    Done { kind: DownloadKind, dest: Option<Seq<char>> },
    Error { kind: DownloadKind, err: Seq<char> },
}

impl View for DownloadEvent {
    type V = DownloadEventView;

    open spec fn view(&self) -> DownloadEventView {
        match self {
            DownloadEvent::Progress { kind, current, total, stage } => DownloadEventView::Progress {
                kind: *kind,
                current: *current,
                total: *total,
                stage: stage@,
            },
            DownloadEvent::Done { kind, dest } => DownloadEventView::Done {
                kind: *kind,
                dest: match dest {
                    Some(d) => Some(d@),
                    None => None,
                },
            },
            DownloadEvent::Error { kind, err } => DownloadEventView::Error { kind: *kind, err: err@ },
        }
    }
}

/// What a chat stream reports to the control loop.
#[derive(Debug, PartialEq, Eq)]
pub enum StreamEvent {
    Token(String),
    Done,
    Error(String),
}

/// `StreamEvent` with its texts as sequences of characters.
pub enum StreamEventView {
    Token(Seq<char>),
    Done,
    Error(Seq<char>),
}

impl View for StreamEvent {
    type V = StreamEventView;

    open spec fn view(&self) -> StreamEventView {
        match self {
            StreamEvent::Token(t) => StreamEventView::Token(t@),
            StreamEvent::Done => StreamEventView::Done,
            StreamEvent::Error(e) => StreamEventView::Error(e@),
        }
    }
}

/// One turn of a conversation.
#[derive(Default, Clone, Debug, PartialEq, Eq)]
pub struct Msg {
    pub role: String,
    pub content: String,
}

/// `Msg` with its texts as sequences of characters.
pub struct MsgView {
    pub role: Seq<char>,
    pub content: Seq<char>,
}

impl View for Msg {
    type V = MsgView;

    open spec fn view(&self) -> MsgView {
        MsgView { role: self.role@, content: self.content@ }
    }
}

/// A model as the hub's search lists it.
#[derive(Clone, Debug)]
pub struct HFModel {
    pub id: String,
}

/// The files of one model on the hub.
#[derive(Clone, Debug)]
pub struct HFModelInfo {
    pub siblings: Vec<HFFile>,
}

/// One file of a model on the hub.
#[derive(Clone, Debug, PartialEq, Eq)]
pub struct HFFile {
    pub rfilename: String,
    pub size: Option<u64>,
}

/// A model file that lies in the model directory.
#[derive(Clone, Debug, PartialEq, Eq)]
pub struct DownloadedModel {
    pub file_name: String,
    pub path: String,
    pub size: Option<u64>,
}

/// One downloadable file of a runtime release.
#[derive(Clone, Debug)]
pub struct GhAsset {
    pub name: String,
    pub browser_download_url: String,
}

/// A runtime release with its files.
#[derive(Clone, Debug)]
pub struct GhRelease {
    pub assets: Vec<GhAsset>,
}

} // verus!
