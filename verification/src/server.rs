//! The process supervisor: how the server is launched, how its output is
//! tagged, and how readiness is probed.

use crate::app::{App, AppView};
use crate::json::{json_parsed_bytes, parse_bytes, served_model_id, spec_served_model_id};
use crate::models::{Backend, GhAsset, GhRelease};
use crate::text::{chars_of, concat, contains, spec_contains, texts_view};
use vstd::prelude::*;

verus! {

/// Why the server cannot be launched.
#[derive(Clone, Copy, PartialEq, Eq, Structural, Debug)]
pub enum StartError {
    /// No server binary is known.
    NoServer,
    /// No model file is selected.
    NoModel,
}

/// The text of a launch error.
pub open spec fn start_error_text(e: StartError) -> Seq<char> {
    match e {
        StartError::NoServer => "no server"@,
        StartError::NoModel => "no model"@,
    }
}

impl StartError {
    /// The text of the error, as it is shown.
    pub fn message(&self) -> (m: String)
        ensures
            m@ == start_error_text(*self),
    {
        match self {
            StartError::NoServer => "no server".to_owned(),
            StartError::NoModel => "no model".to_owned(),
        }
    }
}

/// What to spawn, and where to ask whether it is ready.
#[derive(Debug)]
pub struct ServerLaunch {
    pub program: String,
    pub args: Vec<String>,
    pub health_url: String,
}

/// The offload hint for a backend: accelerated backends ask for as many
/// layers as there are, the CPU for none.
pub open spec fn offload_hint(backend: Backend) -> Seq<char> {
    match backend {
        Backend::Cpu => "0"@,
        _ => "99"@,
    }
}

/// The offload hint for a backend.
pub fn gpu_layers(backend: Backend) -> (hint: &'static str)
    ensures
        hint@ == offload_hint(backend),
{
    match backend {
        Backend::Cpu => "0",
        _ => "99",
    }
}

/// The arguments of the server: the model, the offload hint, and the fixed
/// port and host.
pub open spec fn spec_server_args(model: Seq<char>, backend: Backend) -> Seq<Seq<char>> {
    seq![
        "-m"@,
        model,
        "-ngl"@,
        offload_hint(backend),
        "--port"@,
        "8080"@,
        "--host"@,
        "127.0.0.1"@,
    ]
}

/// The arguments of the server for a model and a backend.
pub fn server_args(model: &str, backend: Backend) -> (args: Vec<String>)
    ensures
        texts_view(args@) == spec_server_args(model@, backend),
{
    let mut args: Vec<String> = Vec::new();
    args.push("-m".to_owned());
    args.push(model.to_owned());
    args.push("-ngl".to_owned());
    args.push(gpu_layers(backend).to_owned());
    args.push("--port".to_owned());
    args.push("8080".to_owned());
    args.push("--host".to_owned());
    args.push("127.0.0.1".to_owned());
    assert(texts_view(args@) =~= spec_server_args(model@, backend));
    args
}

/// The address of the health endpoint of the server at `server_url`.
pub open spec fn spec_health_url(server_url: Seq<char>) -> Seq<char> {
    server_url + "/v1/models"@
}

/// What stands in the way of a launch, if anything.
pub open spec fn launch_obstacle(a: AppView) -> Option<StartError> {
    if a.server_bin is None {
        Some(StartError::NoServer)
    } else if a.model_path is None {
        Some(StartError::NoModel)
    } else {
        None
    }
}

/// The state once a launch has begun: the model counts as loaded, and
/// readiness and the served model's identifier are forgotten.
pub open spec fn spec_begin_start(a: AppView) -> AppView {
    AppView {
        loaded_model: a.model_path,
        served_model_id: None,
        server_ready: false,
        status: "Server starting…"@,
        ..a
    }
}

/// Prepares the launch of the server. Without a binary or a model nothing
/// changes and the error says which is missing; else the state is set for a
/// start and the result says what to spawn.
pub fn start_server(app: &mut App) -> (r: Result<ServerLaunch, StartError>)
    requires
        old(app).wf(),
    ensures
        final(app).wf(),
        match r {
            Ok(launch) => {
                &&& launch_obstacle(old(app)@) is None
                &&& final(app)@ == spec_begin_start(old(app)@)
                &&& Some(launch.program@) == old(app)@.server_bin
                &&& old(app)@.model_path matches Some(model) && texts_view(launch.args@)
                    == spec_server_args(model, old(app).backend)
                &&& launch.health_url@ == spec_health_url(old(app)@.server_url)
            },
            Err(e) => launch_obstacle(old(app)@) == Some(e) && final(app)@ == old(app)@,
        },
{
    let program = match &app.server_bin {
        Some(p) => p.clone(),
        None => {
            return Err(StartError::NoServer);
        },
    };
    let model = match &app.model_path {
        Some(m) => m.clone(),
        None => {
            return Err(StartError::NoModel);
        },
    };
    let args = server_args(model.as_str(), app.backend);
    let health_url = concat(app.server_url.as_str(), "/v1/models");
    app.loaded_model = Some(model);
    app.served_model_id = None;
    app.server_ready = false;
    app.status = "Server starting…".to_owned();
    Ok(ServerLaunch { program, args, health_url })
}

/// The operating system that the runtime is fetched for.
#[derive(Clone, Copy, PartialEq, Eq, Structural, Debug)]
pub enum TargetOs {
    Linux,
    Macos,
    Windows,
}

/// `which::which`, asked whether it finds the program: the answer depends on
/// the search path and on what lies on disk, so nothing is promised of it.
#[verifier::external_body]
pub fn has(cmd: &str) -> (found: bool) {
    which::which(cmd).is_ok()
}

/// The backend for a machine, from its system and from whether the tools of
/// the two vendors are installed: the most accelerated one that it has.
pub open spec fn spec_backend_for(os: TargetOs, has_nvidia: bool, has_rocm: bool) -> Backend {
    match os {
        TargetOs::Macos => Backend::Metal,
        TargetOs::Windows => if has_nvidia {
            Backend::Cuda
        } else {
            Backend::Cpu
        },
        TargetOs::Linux => if has_nvidia {
            Backend::Cuda
        } else if has_rocm {
            Backend::Hip
        } else {
            Backend::Vulkan
        },
    }
}

/// The backend for a machine whose probes answered `has_nvidia` and
/// `has_rocm`.
pub fn backend_for(os: TargetOs, has_nvidia: bool, has_rocm: bool) -> (b: Backend)
    ensures
        b == spec_backend_for(os, has_nvidia, has_rocm),
{
    match os {
        TargetOs::Macos => Backend::Metal,
        TargetOs::Windows => if has_nvidia {
            Backend::Cuda
        } else {
            Backend::Cpu
        },
        TargetOs::Linux => if has_nvidia {
            Backend::Cuda
        } else if has_rocm {
            Backend::Hip
        } else {
            Backend::Vulkan
        },
    }
}

/// Guesses the backend of this machine by looking for the vendors' tools.
/// Whatever the probes answer, the result is the backend of `os` for some
/// pair of answers; the second tool is looked for only where the first is
/// missing.
pub fn guess_backend(os: TargetOs) -> (b: Backend)
    ensures
        exists|has_nvidia: bool, has_rocm: bool| b == spec_backend_for(os, has_nvidia, has_rocm),
        os == TargetOs::Macos ==> b == Backend::Metal,
{
    match os {
        TargetOs::Macos => backend_for(os, false, false),
        TargetOs::Windows => {
            let has_nvidia = has("nvidia-smi");
            backend_for(os, has_nvidia, false)
        },
        TargetOs::Linux => {
            let has_nvidia = has("nvidia-smi");
            let has_rocm = if has_nvidia {
                false
            } else {
                has("rocm-smi")
            };
            backend_for(os, has_nvidia, has_rocm)
        },
    }
}

/// Static texts as sequences of characters.
pub open spec fn strs_view(texts: Seq<&str>) -> Seq<Seq<char>> {
    texts.map_values(|t: &str| t@)
}

/// The parts of asset names to look for, most accelerated first, for a
/// system and a backend.
pub open spec fn spec_want_asset_name(os: TargetOs, b: Backend) -> Seq<Seq<char>> {
    match os {
        TargetOs::Windows => match b {
            Backend::Cuda => seq!["win-cuda"@, "cudart-llama"@],
            Backend::Hip => seq!["win-hip-radeon"@],
            _ => seq!["win-cpu-x64"@],
        },
        TargetOs::Macos => seq!["macos-arm64"@, "macos-x64"@],
        TargetOs::Linux => match b {
            Backend::Vulkan => seq!["ubuntu-vulkan-x64"@],
            Backend::Cuda => seq!["cuda-ubuntu"@, "ubuntu-cuda"@, "cuda"@],
            _ => seq!["ubuntu-x64"@],
        },
    }
}

/// The parts of asset names to look for, in order of preference.
pub fn want_asset_name(os: TargetOs, b: Backend) -> (pats: Vec<&'static str>)
    ensures
        strs_view(pats@) == spec_want_asset_name(os, b),
{
    let mut pats: Vec<&'static str> = Vec::new();
    match os {
        TargetOs::Windows => match b {
            Backend::Cuda => {
                pats.push("win-cuda");
                pats.push("cudart-llama");
            },
            Backend::Hip => {
                pats.push("win-hip-radeon");
            },
            _ => {
                pats.push("win-cpu-x64");
            },
        },
        TargetOs::Macos => {
            pats.push("macos-arm64");
            pats.push("macos-x64");
        },
        TargetOs::Linux => match b {
            Backend::Vulkan => {
                pats.push("ubuntu-vulkan-x64");
            },
            Backend::Cuda => {
                pats.push("cuda-ubuntu");
                pats.push("ubuntu-cuda");
                pats.push("cuda");
            },
            _ => {
                pats.push("ubuntu-x64");
            },
        },
    }
    assert(strs_view(pats@) =~= spec_want_asset_name(os, b));
    pats
}

/// The first asset at or after `from` whose name holds `pat`.
pub open spec fn first_asset_with(assets: Seq<GhAsset>, pat: Seq<char>, from: int) -> Option<int>
    decreases assets.len() - from,
{
    if from < 0 || from >= assets.len() {
        None
    } else if spec_contains(assets[from].name@, pat) {
        Some(from)
    } else {
        first_asset_with(assets, pat, from + 1)
    }
}

/// The address to fetch: that of the first asset that matches the first
/// pattern which any asset matches.
pub open spec fn spec_pick_asset_url(assets: Seq<GhAsset>, pats: Seq<Seq<char>>) -> Option<
    Seq<char>,
>
    decreases pats.len(),
{
    if pats.len() == 0 {
        None
    } else {
        match first_asset_with(assets, pats[0], 0) {
            Some(i) => Some(assets[i].browser_download_url@),
            None => spec_pick_asset_url(assets, pats.drop_first()),
        }
    }
}

fn find_asset(assets: &Vec<GhAsset>, pat: &str) -> (r: Option<usize>)
    ensures
        match r {
            Some(i) => first_asset_with(assets@, pat@, 0) == Some(i as int) && i < assets.len(),
            None => first_asset_with(assets@, pat@, 0) is None,
        },
{
    let pat_chars = chars_of(pat);
    let mut i: usize = 0;
    while i < assets.len()
        invariant
            i <= assets.len(),
            pat_chars@ == pat@,
            first_asset_with(assets@, pat@, 0) == first_asset_with(assets@, pat@, i as int),
        decreases assets.len() - i,
    {
        if contains(&chars_of(assets[i].name.as_str()), &pat_chars) {
            return Some(i);
        }
        i += 1;
    }
    None
}

/// Picks the asset of a release to fetch for the patterns `pats`, which are
/// tried in their order.
pub fn pick_asset_url(rel: &GhRelease, pats: &[&str]) -> (r: Option<String>)
    ensures
        match r {
            Some(url) => spec_pick_asset_url(rel.assets@, strs_view(pats@)) == Some(url@),
            None => spec_pick_asset_url(rel.assets@, strs_view(pats@)) is None,
        },
{
    let ghost all = strs_view(pats@);
    let mut k: usize = 0;
    assert(all.skip(0) =~= all);
    while k < pats.len()
        invariant
            k <= pats.len(),
            all == strs_view(pats@),
            spec_pick_asset_url(rel.assets@, all) == spec_pick_asset_url(
                rel.assets@,
                all.skip(k as int),
            ),
        decreases pats.len() - k,
    {
        proof {
            assert(all.skip(k as int)[0] == pats@[k as int]@);
            assert(all.skip(k as int).drop_first() =~= all.skip(k + 1));
        }
        if let Some(i) = find_asset(&rel.assets, pats[k]) {
            return Some(rel.assets[i].browser_download_url.clone());
        }
        k += 1;
    }
    None
}

/// The names under which the server binary may lie, in the order in which
/// they are tried.
pub open spec fn spec_server_bin_names() -> Seq<Seq<char>> {
    seq!["llama-server"@, "server"@, "llama-server.exe"@, "server.exe"@]
}

/// The names under which the server binary may lie.
pub fn server_bin_names() -> (names: Vec<&'static str>)
    ensures
        strs_view(names@) == spec_server_bin_names(),
{
    let mut names: Vec<&'static str> = Vec::new();
    names.push("llama-server");
    names.push("server");
    names.push("llama-server.exe");
    names.push("server.exe");
    assert(strs_view(names@) =~= spec_server_bin_names());
    names
}

/// A place where the server binary may lie, and whether a file is there.
#[derive(Clone, Debug)]
pub struct BinCandidate {
    pub path: String,
    pub exists: bool,
}

/// Whether `i` is the first candidate at which a file is.
pub open spec fn is_first_present(candidates: Seq<BinCandidate>, i: int) -> bool {
    &&& 0 <= i < candidates.len()
    &&& candidates[i].exists
    &&& forall|j: int| 0 <= j < i ==> !(#[trigger] candidates[j]).exists
}

/// The server binary among the candidates: the first at which a file is.
pub fn find_server_bin(candidates: &Vec<BinCandidate>) -> (r: Option<String>)
    ensures
        match r {
            Some(p) => exists|i: int|
                is_first_present(candidates@, i) && p@ == (#[trigger] candidates@[i]).path@,
            None => forall|i: int| 0 <= i < candidates.len() ==> !(#[trigger] candidates@[i]).exists,
        },
{
    let mut i: usize = 0;
    while i < candidates.len()
        invariant
            i <= candidates.len(),
            forall|j: int| 0 <= j < i ==> !(#[trigger] candidates@[j]).exists,
        decreases candidates.len() - i,
    {
        if candidates[i].exists {
            assert(is_first_present(candidates@, i as int));
            return Some(candidates[i].path.clone());
        }
        i += 1;
    }
    None
}

/// Which stream of the server a line came from.
#[derive(Clone, Copy, PartialEq, Eq, Structural, Debug)]
pub enum LogOrigin {
    Stdout,
    Stderr,
}

/// The tag that marks the origin of a line.
pub open spec fn origin_tag(origin: LogOrigin) -> Seq<char> {
    match origin {
        LogOrigin::Stdout => "[OUT] "@,
        LogOrigin::Stderr => "[ERR] "@,
    }
}

/// A line of the server's output, tagged with its origin, as it goes into
/// the log stream.
pub fn tag_line(origin: LogOrigin, line: &str) -> (tagged: String)
    ensures
        tagged@ == origin_tag(origin) + line@,
{
    match origin {
        LogOrigin::Stdout => concat("[OUT] ", line),
        LogOrigin::Stderr => concat("[ERR] ", line),
    }
}

/// How many times the health endpoint is asked before the probe gives up.
pub const PROBE_ATTEMPTS: u32 = 60;

/// How long the probe waits after an attempt that failed, in milliseconds.
pub const PROBE_INTERVAL_MILLIS: u64 = 500;

/// How one request to the health endpoint ended.
#[derive(Debug, PartialEq, Eq)]
pub enum ProbeOutcome {
    /// The server answered with success; `model_id` is the served model's
    /// identifier where the answer names one.
    Ready { model_id: Option<String> },
    /// The request failed, or the answer was no success.
    NotReady,
}

/// `ProbeOutcome` with its text as a sequence of characters.
pub enum ProbeOutcomeView {
    Ready { model_id: Option<Seq<char>> },
    NotReady,
}

impl View for ProbeOutcome {
    type V = ProbeOutcomeView;

    open spec fn view(&self) -> ProbeOutcomeView {
        match self {
            ProbeOutcome::Ready { model_id } => ProbeOutcomeView::Ready {
                model_id: crate::app::opt_text(*model_id),
            },
            ProbeOutcome::NotReady => ProbeOutcomeView::NotReady,
        }
    }
}

/// How a request to the health endpoint ended, from whether the answer was a
/// success and from its body.
pub open spec fn spec_probe_outcome(success: bool, body: Seq<u8>) -> ProbeOutcomeView {
    if !success {
        ProbeOutcomeView::NotReady
    } else {
        ProbeOutcomeView::Ready {
            model_id: match json_parsed_bytes(body) {
                Some(doc) => spec_served_model_id(doc),
                None => None,
            },
        }
    }
}

/// Reads the served model's identifier out of a parsed answer, or finds
/// none where the body was no JSON document.
pub fn model_id_of(doc: Option<serde_json::Value>) -> (id: Option<String>)
    ensures
        crate::app::opt_text(id) == match doc {
            Some(d) => spec_served_model_id(d),
            None => None,
        },
{
    match doc {
        Some(d) => served_model_id(&d),
        None => None,
    }
}

/// How a request to the health endpoint ended, from whether the answer was a
/// success and from its body.
pub fn probe_outcome(success: bool, body: &[u8]) -> (outcome: ProbeOutcome)
    ensures
        outcome@ == spec_probe_outcome(success, body@),
{
    if !success {
        ProbeOutcome::NotReady
    } else {
        ProbeOutcome::Ready { model_id: model_id_of(parse_bytes(body)) }
    }
}

/// The sentinel lines that announce readiness: the readiness line, and the
/// model line where the served model's identifier is known.
pub open spec fn ready_lines(model_id: Option<Seq<char>>) -> Seq<Seq<char>> {
    match model_id {
        Some(id) => seq!["[READY] llama-server is ready"@, "[MODEL] "@ + id],
        None => seq!["[READY] llama-server is ready"@],
    }
}

/// What the probe does after a request.
#[derive(Debug, PartialEq, Eq)]
pub enum ProbeStep {
    /// Send these lines into the log stream and end.
    Announce { lines: Vec<String> },
    /// Wait for the interval; then ask again while attempts are left.
    Wait,
}

/// The readiness probe: it asks the health endpoint until the server
/// answers or the attempts are used up, and then ends without a word.
#[derive(Debug)]
pub struct ReadinessProbe {
    attempts_left: u32,
}

impl View for ReadinessProbe {
    type V = nat;

    closed spec fn view(&self) -> nat {
        self.attempts_left as nat
    }
}

/// The attempts that are left after a request ended as `outcome`.
pub open spec fn spec_probe_left(left: nat, outcome: ProbeOutcomeView) -> nat {
    match outcome {
        ProbeOutcomeView::Ready { .. } => 0,
        ProbeOutcomeView::NotReady => if left > 0 {
            (left - 1) as nat
        } else {
            0
        },
    }
}

/// The lines that a probe with `left` attempts sends when its requests end
/// as `outcomes`, in that order.
pub open spec fn spec_probe_run(left: nat, outcomes: Seq<ProbeOutcomeView>) -> Seq<Seq<char>>
    decreases outcomes.len(),
{
    if left == 0 || outcomes.len() == 0 {
        Seq::empty()
    } else {
        match outcomes[0] {
            ProbeOutcomeView::Ready { model_id } => ready_lines(model_id),
            ProbeOutcomeView::NotReady => spec_probe_run(
                (left - 1) as nat,
                outcomes.drop_first(),
            ),
        }
    }
}

impl ReadinessProbe {
    /// A probe with all its attempts left.
    pub fn new() -> (probe: Self)
        ensures
            probe@ == PROBE_ATTEMPTS,
    {
        ReadinessProbe { attempts_left: PROBE_ATTEMPTS }
    }

    /// How many attempts are left.
    pub fn attempts_left(&self) -> (n: u32)
        ensures
            n == self@,
    {
        self.attempts_left
    }

    /// Whether the probe is over: no request is to be made any more.
    pub fn finished(&self) -> (b: bool)
        ensures
            b == (self@ == 0),
    {
        self.attempts_left == 0
    }

    /// Takes note of how a request ended. On success the probe announces
    /// readiness and is over; else it waits, with one attempt less.
    pub fn record(&mut self, outcome: ProbeOutcome) -> (step: ProbeStep)
        requires
            old(self)@ > 0,
        ensures
            final(self)@ == spec_probe_left(old(self)@, outcome@),
            match step {
                ProbeStep::Announce { lines } => outcome@ matches ProbeOutcomeView::Ready {
                    model_id,
                } && texts_view(lines@) == ready_lines(model_id),
                ProbeStep::Wait => outcome@ is NotReady,
            },
    {
        match outcome {
            ProbeOutcome::Ready { model_id } => {
                self.attempts_left = 0;
                let mut lines: Vec<String> = Vec::new();
                lines.push("[READY] llama-server is ready".to_owned());
                if let Some(id) = model_id {
                    lines.push(concat("[MODEL] ", id.as_str()));
                }
                assert(texts_view(lines@) =~= ready_lines(crate::app::opt_text(model_id)));
                ProbeStep::Announce { lines }
            },
            ProbeOutcome::NotReady => {
                self.attempts_left = self.attempts_left - 1;
                ProbeStep::Wait
            },
        }
    }
}

/// Probe outcomes with their texts as sequences of characters.
pub open spec fn outcomes_view(outcomes: Seq<ProbeOutcome>) -> Seq<ProbeOutcomeView> {
    outcomes.map_values(|o: ProbeOutcome| o@)
}

/// The lines that a whole probe sends when its requests end as `outcomes`:
/// the probe is run on them until it is over or they are used up.
pub fn probe_lines(outcomes: Vec<ProbeOutcome>) -> (lines: Vec<String>)
    ensures
        texts_view(lines@) == spec_probe_run(PROBE_ATTEMPTS as nat, outcomes_view(outcomes@)),
{
    let ghost all = outcomes_view(outcomes@);
    let mut probe = ReadinessProbe::new();
    assert(all.skip(0) =~= all);
    for outcome in it: outcomes
        invariant
            all == outcomes_view(it.seq()),
            spec_probe_run(PROBE_ATTEMPTS as nat, all) == spec_probe_run(
                probe@,
                all.skip(it.index() as int),
            ),
    {
        let ghost k = it.index() as int;
        proof {
            assert(all.skip(k)[0] == all[k]);
            assert(all.skip(k).drop_first() =~= all.skip(k + 1));
        }
        if probe.finished() {
            return Vec::new();
        }
        match probe.record(outcome) {
            ProbeStep::Announce { lines } => {
                return lines;
            },
            ProbeStep::Wait => {},
        }
    }
    Vec::new()
}

/// A probe that never meets success sends nothing, however many requests it
/// makes.
pub proof fn lemma_probe_without_success_is_silent(left: nat, outcomes: Seq<ProbeOutcomeView>)
    requires
        forall|i: int| 0 <= i < outcomes.len() && i < left ==> (#[trigger] outcomes[i]) is NotReady,
    ensures
        spec_probe_run(left, outcomes) == Seq::<Seq<char>>::empty(),
    decreases outcomes.len(),
{
    if left > 0 && outcomes.len() > 0 {
        assert(outcomes[0] is NotReady);
        let rest = outcomes.drop_first();
        assert forall|i: int| 0 <= i < rest.len() && i < left - 1 implies (
        #[trigger] rest[i]) is NotReady by {
            assert(rest[i] == outcomes[i + 1]);
        }
        lemma_probe_without_success_is_silent((left - 1) as nat, rest);
    }
}

} // verus!
