//! Getting a runtime and a model: what is found at startup, and what a
//! request for a download leads to.

use crate::app::{opt_text, App, AppView};
use crate::download::{decimal, push_decimal};
use crate::logbuf::LogBuffer;
use crate::models::{Backend, GhRelease, RuntimeInfo, ServerStatus, ServerStatusView, Settings};
use crate::server::{
    guess_backend, pick_asset_url, spec_backend_for, spec_pick_asset_url, spec_want_asset_name,
    want_asset_name, TargetOs,
};
use crate::text::{chars_of, concat, spec_trim, string_of, trim};
use vstd::prelude::*;
use vstd::string::{StrSliceExecFns, StringExecFns};

verus! {

impl App {
    /// The state of a front end that has just come up, with its directories,
    /// its settings and the time of its start.
    pub fn new(runtime_dir: String, model_dir: String, settings: Settings, now: u64) -> (app: Self)
        ensures
            app.wf(),
            app@ == (AppView {
                backend: Backend::Auto,
                status: "Initializing..."@,
                runtime_dir: runtime_dir@,
                model_dir: model_dir@,
                server_bin: None,
                server_child: false,
                server_url: "http://127.0.0.1:8080"@,
                model_repo: "TheBloke/Mistral-7B-Instruct-v0.2-GGUF"@,
                model_file: "mistral-7b-instruct-v0.2.Q4_K_M.gguf"@,
                model_path: None,
                msgs: Seq::empty(),
                runtime_progress: None,
                model_progress: None,
                server_log: Seq::empty(),
                server_ready: false,
                loaded_model: None,
                served_model_id: None,
                downloaded: Seq::empty(),
                settings,
                available_runtimes: Seq::empty(),
                current_runtime: None,
                server_status: ServerStatusView::Stopped,
                last_activity: now,
            }),
    {
        let app = App {
            backend: Backend::Auto,
            status: "Initializing...".to_owned(),
            runtime_dir,
            model_dir,
            server_bin: None,
            server_child: false,
            server_url: "http://127.0.0.1:8080".to_owned(),
            model_repo: "TheBloke/Mistral-7B-Instruct-v0.2-GGUF".to_owned(),
            model_file: "mistral-7b-instruct-v0.2.Q4_K_M.gguf".to_owned(),
            model_path: None,
            msgs: Vec::new(),
            runtime_progress: None,
            model_progress: None,
            server_log: LogBuffer::new(),
            server_ready: false,
            loaded_model: None,
            served_model_id: None,
            downloaded: Vec::new(),
            settings,
            available_runtimes: Vec::new(),
            current_runtime: None,
            server_status: ServerStatus::Stopped,
            last_activity: now,
        };
        assert(app@.msgs =~= Seq::empty());
        assert(app@.downloaded =~= Seq::empty());
        assert(app@.available_runtimes =~= Seq::empty());
        app
    }
}

/// Whether `r` is the runtime that lies in the runtime directory, with the
/// server binary at `path`.
pub open spec fn is_local_runtime(r: RuntimeInfo, path: Seq<char>) -> bool {
    &&& r.name@ == "Local Runtime"@
    &&& r.path@ == path
    &&& r.version@ == "Unknown"@
    &&& r.backend == Backend::Auto
}

/// Whether `runtimes` is what a look into the runtime directory finds: the
/// local runtime, where the directory of binaries is there and holds the
/// server binary, else none.
pub open spec fn is_detected(
    runtimes: Seq<RuntimeInfo>,
    bin_dir_exists: bool,
    server_bin: Option<Seq<char>>,
) -> bool {
    if bin_dir_exists && server_bin is Some {
        runtimes.len() == 1 && is_local_runtime(runtimes[0], server_bin->0)
    } else {
        runtimes.len() == 0
    }
}

/// The first runtime of that name, if there is one.
pub open spec fn runtime_named(runtimes: Seq<RuntimeInfo>, name: Seq<char>, from: int) -> Option<
    int,
>
    decreases runtimes.len() - from,
{
    if from < 0 || from >= runtimes.len() {
        None
    } else if runtimes[from].name@ == name {
        Some(from)
    } else {
        runtime_named(runtimes, name, from + 1)
    }
}

/// The runtime that is taken at startup: the one that the settings name,
/// where they name one and it is there; the first, where they name none.
pub open spec fn startup_runtime(a: AppView) -> Option<int> {
    match a.settings.default_runtime {
        Some(name) => runtime_named(a.available_runtimes, name@, 0),
        None => if a.available_runtimes.len() > 0 {
            Some(0)
        } else {
            None
        },
    }
}

/// The state once the runtime for startup is taken.
pub open spec fn spec_select_startup_runtime(a: AppView) -> AppView {
    match startup_runtime(a) {
        Some(i) => AppView {
            current_runtime: Some(a.available_runtimes[i]),
            server_bin: Some(a.available_runtimes[i].path@),
            status: "Runtime ready: "@ + a.available_runtimes[i].name@,
            ..a
        },
        None => a,
    }
}

/// The status line that tells how many models lie in the model directory,
/// where there are any.
pub open spec fn spec_announce_models(a: AppView) -> AppView {
    if a.downloaded.len() > 0 {
        AppView {
            status: "Found "@ + decimal(a.downloaded.len()) + " downloaded model(s)"@,
            ..a
        }
    } else {
        a
    }
}

/// The status line that tells how many runtimes were found.
pub open spec fn spec_announce_runtimes(a: AppView) -> AppView {
    AppView { status: "Found "@ + decimal(a.available_runtimes.len()) + " runtime(s)"@, ..a }
}

/// The state once the user has taken the runtime at `index`: it is the
/// current one, and the default from now on.
pub open spec fn spec_select_runtime(a: AppView, index: int, settings: Settings) -> AppView {
    AppView {
        current_runtime: Some(a.available_runtimes[index]),
        server_bin: Some(a.available_runtimes[index].path@),
        settings,
        status: "Runtime selected: "@ + a.available_runtimes[index].name@,
        ..a
    }
}

/// Whether `new` is `old` with `default_runtime` in the place of its default
/// runtime.
pub open spec fn settings_with_default(
    old: Settings,
    new: Settings,
    default_runtime: Option<Seq<char>>,
) -> bool {
    &&& opt_text(new.default_runtime) == default_runtime
    &&& new.auto_start_server == old.auto_start_server
    &&& new.auto_stop_server == old.auto_stop_server
    &&& new.server_timeout_minutes == old.server_timeout_minutes
    &&& new.theme == old.theme
    &&& new.max_chat_history == old.max_chat_history
}

fn copy_runtime(r: &RuntimeInfo) -> (c: RuntimeInfo)
    ensures
        c == *r,
{
    RuntimeInfo {
        name: r.name.clone(),
        path: r.path.clone(),
        version: r.version.clone(),
        backend: r.backend,
    }
}

impl App {
    /// Takes note of what a look into the runtime directory has found.
    pub fn detect_runtimes(&mut self, bin_dir_exists: bool, server_bin: Option<String>)
        requires
            old(self).wf(),
        ensures
            final(self).wf(),
            is_detected(final(self)@.available_runtimes, bin_dir_exists, opt_text(server_bin)),
            final(self)@ == (AppView {
                available_runtimes: final(self)@.available_runtimes,
                ..old(self)@
            }),
    {
        self.available_runtimes.clear();
        if bin_dir_exists {
            if let Some(path) = server_bin {
                self.available_runtimes.push(
                    RuntimeInfo {
                        name: "Local Runtime".to_owned(),
                        path,
                        version: "Unknown".to_owned(),
                        backend: Backend::Auto,
                    },
                );
            }
        }
    }

    /// Tells in the status line how many models lie in the model directory,
    /// where there are any.
    pub fn announce_models(&mut self)
        requires
            old(self).wf(),
        ensures
            final(self).wf(),
            final(self)@ == spec_announce_models(old(self)@),
    {
        let count = self.downloaded.len();
        if count > 0 {
            let mut status = "Found ".to_owned();
            push_decimal(&mut status, count as u64);
            status.append(" downloaded model(s)");
            self.status = status;
        }
    }

    /// Tells in the status line how many runtimes were found.
    pub fn announce_runtimes(&mut self)
        requires
            old(self).wf(),
        ensures
            final(self).wf(),
            final(self)@ == spec_announce_runtimes(old(self)@),
    {
        let mut status = "Found ".to_owned();
        push_decimal(&mut status, self.available_runtimes.len() as u64);
        status.append(" runtime(s)");
        self.status = status;
    }

    /// The user takes the runtime at `index` of those that were found; an
    /// index past them changes nothing. The result says whether the
    /// settings have changed and are to be saved.
    pub fn select_runtime(&mut self, index: usize) -> (changed: bool)
        requires
            old(self).wf(),
        ensures
            final(self).wf(),
            changed == (index < old(self)@.available_runtimes.len()),
            changed ==> final(self)@ == spec_select_runtime(
                old(self)@,
                index as int,
                final(self).settings,
            ) && settings_with_default(
                old(self).settings,
                final(self).settings,
                Some(old(self)@.available_runtimes[index as int].name@),
            ),
            !changed ==> final(self)@ == old(self)@,
    {
        if index >= self.available_runtimes.len() {
            return false;
        }
        let runtime = copy_runtime(&self.available_runtimes[index]);
        self.server_bin = Some(runtime.path.clone());
        self.settings.default_runtime = Some(runtime.name.clone());
        self.status = concat("Runtime selected: ", runtime.name.as_str());
        self.current_runtime = Some(runtime);
        true
    }

    /// The user lets go of the current runtime: there is none from now on,
    /// nor a default.
    pub fn deselect_runtime(&mut self)
        requires
            old(self).wf(),
        ensures
            final(self).wf(),
            final(self)@ == (AppView {
                current_runtime: None,
                server_bin: None,
                settings: final(self).settings,
                status: "No runtime selected"@,
                ..old(self)@
            }),
            settings_with_default(old(self).settings, final(self).settings, None),
    {
        self.current_runtime = None;
        self.server_bin = None;
        self.settings.default_runtime = None;
        self.status = "No runtime selected".to_owned();
    }

    /// The user takes the downloaded model at `index` of the list; an index
    /// past the list changes nothing.
    pub fn use_downloaded_model(&mut self, index: usize) -> (taken: bool)
        requires
            old(self).wf(),
        ensures
            final(self).wf(),
            taken == (index < old(self)@.downloaded.len()),
            taken ==> final(self)@ == (AppView {
                model_file: old(self)@.downloaded[index as int].file_name@,
                model_repo: "(local)"@,
                model_path: Some(old(self)@.downloaded[index as int].path@),
                status: "Selected local model"@,
                ..old(self)@
            }),
            !taken ==> final(self)@ == old(self)@,
    {
        if index >= self.downloaded.len() {
            return false;
        }
        self.model_file = self.downloaded[index].file_name.clone();
        self.model_repo = "(local)".to_owned();
        self.model_path = Some(self.downloaded[index].path.clone());
        self.status = "Selected local model".to_owned();
        true
    }

    /// The user picks a file of a model on the hub to fetch.
    pub fn choose_hub_file(&mut self, repo: &str, file: &str)
        requires
            old(self).wf(),
        ensures
            final(self).wf(),
            final(self)@ == (AppView { model_repo: repo@, model_file: file@, ..old(self)@ }),
    {
        self.model_repo = repo.to_owned();
        self.model_file = file.to_owned();
    }

    /// Takes the runtime for startup from those that were found.
    pub fn select_startup_runtime(&mut self)
        requires
            old(self).wf(),
        ensures
            final(self).wf(),
            final(self)@ == spec_select_startup_runtime(old(self)@),
    {
        let mut found: Option<usize> = None;
        match &self.settings.default_runtime {
            Some(name) => {
                let mut i: usize = 0;
                while i < self.available_runtimes.len()
                    invariant_except_break
                        runtime_named(self.available_runtimes@, name@, 0) == runtime_named(
                            self.available_runtimes@,
                            name@,
                            i as int,
                        ),
                        found is None,
                    invariant
                        i <= self.available_runtimes.len(),
                    ensures
                        match found {
                            Some(k) => k < self.available_runtimes.len() && runtime_named(
                                self.available_runtimes@,
                                name@,
                                0,
                            ) == Some(k as int),
                            None => runtime_named(self.available_runtimes@, name@, 0) is None,
                        },
                    decreases self.available_runtimes.len() - i,
                {
                    if self.available_runtimes[i].name == *name {
                        found = Some(i);
                        break;
                    }
                    i += 1;
                }
            },
            None => {
                if self.available_runtimes.len() > 0 {
                    found = Some(0);
                }
            },
        }
        if let Some(i) = found {
            let runtime = copy_runtime(&self.available_runtimes[i]);
            self.server_bin = Some(runtime.path.clone());
            self.status = concat("Runtime ready: ", runtime.name.as_str());
            self.current_runtime = Some(runtime);
        }
    }
}

/// Why no runtime could be had.
#[derive(Clone, Copy, PartialEq, Eq, Structural, Debug)]
pub enum RuntimeError {
    /// The release holds no asset for the backend.
    NoMatchingAsset,
    /// The directory of binaries is there, but not the server binary.
    ServerNotFound,
}

impl RuntimeError {
    /// The text of the error, as it is shown.
    pub fn message(&self) -> (m: String)
        ensures
            m@ == match *self {
                RuntimeError::NoMatchingAsset => "No matching asset for backend"@,
                RuntimeError::ServerNotFound => "llama-server not found"@,
            },
    {
        match self {
            RuntimeError::NoMatchingAsset => "No matching asset for backend".to_owned(),
            RuntimeError::ServerNotFound => "llama-server not found".to_owned(),
        }
    }
}

/// What is to be done to have a runtime.
#[derive(Debug, PartialEq, Eq)]
pub enum RuntimeStep {
    /// Fetch the archive at `url` and unpack it.
    Download { url: String },
    /// Nothing: the runtime is in place.
    Ready,
}

/// What is to be done to have a runtime, from the asset that was picked
/// and from what lies on disk.
pub open spec fn spec_runtime_step(
    url: Option<Seq<char>>,
    bin_dir_exists: bool,
    server_bin: Option<Seq<char>>,
) -> Result<Option<Seq<char>>, RuntimeError> {
    match url {
        None => Err(RuntimeError::NoMatchingAsset),
        Some(u) => if !bin_dir_exists {
            Ok(Some(u))
        } else if server_bin is None {
            Err(RuntimeError::ServerNotFound)
        } else {
            Ok(None)
        },
    }
}

/// What asking for a runtime does to the state.
pub open spec fn spec_ensure_runtime(
    a: AppView,
    url: Option<Seq<char>>,
    bin_dir_exists: bool,
    server_bin: Option<Seq<char>>,
) -> AppView {
    match url {
        None => a,
        Some(u) => if !bin_dir_exists {
            AppView {
                runtime_progress: Some((0, None, "download"@)),
                status: "Downloading runtime…"@,
                ..a
            }
        } else if server_bin is None {
            AppView { server_bin: None, ..a }
        } else {
            AppView { server_bin, status: "Runtime ready"@, ..a }
        },
    }
}

/// The address of a model file on the hub.
pub open spec fn spec_model_url(repo: Seq<char>, file: Seq<char>) -> Seq<char> {
    "https://huggingface.co/"@ + repo + "/resolve/main/"@ + file + "?download=true"@
}

/// Why no model download was started.
#[derive(Clone, Copy, PartialEq, Eq, Structural, Debug)]
pub enum ModelError {
    /// The repository or the file is not named.
    NotSet,
}

impl ModelError {
    /// The text of the error, as it is shown.
    pub fn message(&self) -> (m: String)
        ensures
            m@ == "Set model repo and file"@,
    {
        "Set model repo and file".to_owned()
    }
}

/// What is to be done to have the model.
#[derive(Debug, PartialEq, Eq)]
pub enum ModelStep {
    /// Nothing but to list the model directory again: the file is there.
    AlreadyDownloaded,
    /// Fetch the file at `url` to `dest`.
    Download { url: String, dest: String },
}

/// Whether the model to fetch is named: neither the repository nor the file
/// is blank.
pub open spec fn model_is_named(a: AppView) -> bool {
    spec_trim(a.model_repo).len() > 0 && spec_trim(a.model_file).len() > 0
}

/// What asking for the model does to the state, where the model is named.
pub open spec fn spec_start_model_download(a: AppView, dest: Seq<char>, dest_exists: bool) -> AppView {
    if dest_exists {
        AppView { model_path: Some(dest), status: "Model already downloaded"@, ..a }
    } else {
        AppView {
            model_progress: Some((0, None, "download"@)),
            status: "Downloading model…"@,
            ..a
        }
    }
}

fn trimmed(s: &str) -> (t: String)
    ensures
        t@ == spec_trim(s@),
{
    string_of(&trim(&chars_of(s)))
}

impl App {
    /// Takes note that a runtime is being looked for.
    pub fn begin_runtime_check(&mut self)
        requires
            old(self).wf(),
        ensures
            final(self).wf(),
            final(self)@ == (AppView { status: "Checking runtime…"@, ..old(self)@ }),
    {
        self.status = "Checking runtime…".to_owned();
    }

    /// The backend to fetch a runtime for: the one that is set, or a guess
    /// for this machine where none is.
    pub fn effective_backend(&self, os: TargetOs) -> (b: Backend)
        ensures
            self.backend != Backend::Auto ==> b == self.backend,
            self.backend == Backend::Auto ==> exists|has_nvidia: bool, has_rocm: bool|
                b == spec_backend_for(os, has_nvidia, has_rocm),
    {
        if self.backend == Backend::Auto {
            guess_backend(os)
        } else {
            self.backend
        }
    }

    /// The name of the model file to fetch, without the whitespace around
    /// it, where the model is named.
    pub fn model_file_name(&self) -> (name: Option<String>)
        ensures
            match name {
                Some(n) => model_is_named(self@) && n@ == spec_trim(self@.model_file),
                None => !model_is_named(self@),
            },
    {
        let repo = trimmed(self.model_repo.as_str());
        let file = trimmed(self.model_file.as_str());
        if repo.as_str().unicode_len() == 0 || file.as_str().unicode_len() == 0 {
            None
        } else {
            Some(file)
        }
    }
}

/// Decides how to have a runtime for `backend`, with the latest release
/// at hand and with what lies on disk: whether the directory of binaries
/// is there, and the server binary that was found in it.
pub fn ensure_runtime(
    app: &mut App,
    os: TargetOs,
    backend: Backend,
    rel: &GhRelease,
    bin_dir_exists: bool,
    server_bin: Option<String>,
) -> (r: Result<RuntimeStep, RuntimeError>)
    requires
        old(app).wf(),
    ensures
        final(app).wf(),
        final(app)@ == spec_ensure_runtime(
            old(app)@,
            spec_pick_asset_url(rel.assets@, spec_want_asset_name(os, backend)),
            bin_dir_exists,
            opt_text(server_bin),
        ),
        match r {
            Ok(RuntimeStep::Download { url }) => spec_runtime_step(
                spec_pick_asset_url(rel.assets@, spec_want_asset_name(os, backend)),
                bin_dir_exists,
                opt_text(server_bin),
            ) == Ok::<Option<Seq<char>>, RuntimeError>(Some(url@)),
            Ok(RuntimeStep::Ready) => spec_runtime_step(
                spec_pick_asset_url(rel.assets@, spec_want_asset_name(os, backend)),
                bin_dir_exists,
                opt_text(server_bin),
            ) == Ok::<Option<Seq<char>>, RuntimeError>(None),
            Err(e) => spec_runtime_step(
                spec_pick_asset_url(rel.assets@, spec_want_asset_name(os, backend)),
                bin_dir_exists,
                opt_text(server_bin),
            ) == Err::<Option<Seq<char>>, RuntimeError>(e),
        },
{
    let pats = want_asset_name(os, backend);
    let url = match pick_asset_url(rel, pats.as_slice()) {
        Some(u) => u,
        None => {
            return Err(RuntimeError::NoMatchingAsset);
        },
    };
    if !bin_dir_exists {
        app.runtime_progress = Some((0, None, "download".to_owned()));
        app.status = "Downloading runtime…".to_owned();
        Ok(RuntimeStep::Download { url })
    } else {
        let found = server_bin.is_some();
        app.server_bin = server_bin;
        if !found {
            return Err(RuntimeError::ServerNotFound);
        }
        app.status = "Runtime ready".to_owned();
        Ok(RuntimeStep::Ready)
    }
}

/// Decides how to have the model, with what lies on disk: `dest` is
/// where the file belongs, and `dest_exists` whether it is there.
/// Without a name for the model nothing changes.
pub fn start_model_download(app: &mut App, dest: String, dest_exists: bool) -> (r: Result<
    ModelStep,
    ModelError,
>)
    requires
        old(app).wf(),
    ensures
        final(app).wf(),
        match r {
            Err(e) => !model_is_named(old(app)@) && final(app)@ == old(app)@,
            Ok(step) => {
                &&& model_is_named(old(app)@)
                &&& final(app)@ == spec_start_model_download(old(app)@, dest@, dest_exists)
                &&& match step {
                    ModelStep::AlreadyDownloaded => dest_exists,
                    ModelStep::Download { url, dest: to } => {
                        &&& !dest_exists
                        &&& to@ == dest@
                        &&& url@ == spec_model_url(
                            spec_trim(old(app)@.model_repo),
                            spec_trim(old(app)@.model_file),
                        )
                    },
                }
            },
        },
{
    let repo = trimmed(app.model_repo.as_str());
    let file = trimmed(app.model_file.as_str());
    if repo.as_str().unicode_len() == 0 || file.as_str().unicode_len() == 0 {
        return Err(ModelError::NotSet);
    }
    if dest_exists {
        app.model_path = Some(dest);
        app.status = "Model already downloaded".to_owned();
        return Ok(ModelStep::AlreadyDownloaded);
    }
    let mut url = "https://huggingface.co/".to_owned();
    url.append(repo.as_str());
    url.append("/resolve/main/");
    url.append(file.as_str());
    url.append("?download=true");
    app.model_progress = Some((0, None, "download".to_owned()));
    app.status = "Downloading model…".to_owned();
    Ok(ModelStep::Download { url, dest })
}

} // verus!
