//! The lifecycle controller: when the server is started by itself, when an
//! idle server is stopped, and what a stop does.

use crate::app::{spec_apply_log_line, spec_apply_log_lines, App, AppView};
use crate::models::{ServerStatus, ServerStatusView};
use crate::server::{
    launch_obstacle, lemma_probe_without_success_is_silent, spec_begin_start, spec_probe_run,
    start_error_text, start_server, ProbeOutcomeView, ServerLaunch, PROBE_ATTEMPTS,
};
use crate::text::{concat, spec_starts_with, texts_view};
use vstd::prelude::*;

verus! {

/// Nanoseconds in a minute.
pub const NANOS_PER_MINUTE: u64 = 60_000_000_000;

/// Whether the server is to be started by itself: auto-start is on, the
/// server is stopped and not ready, and no process handle is held.
pub open spec fn wants_auto_start(a: AppView) -> bool {
    &&& !a.server_ready
    &&& a.server_status is Stopped
    &&& a.settings.auto_start_server
    &&& !a.server_child
}

/// The state after a start by itself has failed with the message `err`.
pub open spec fn spec_auto_start_failed(a: AppView, err: Seq<char>) -> AppView {
    AppView {
        server_status: ServerStatusView::Error("Auto-start failed: "@ + err),
        status: "Auto-start err: "@ + err,
        ..a
    }
}

/// The state at the moment a start by itself begins.
pub open spec fn spec_auto_starting(a: AppView) -> AppView {
    AppView { server_status: ServerStatusView::Starting, status: "Auto-starting server..."@, ..a }
}

/// What the auto-start rule does to the state: where a start is wanted the
/// controller goes to `Starting`, and on from there to an error where the
/// launch cannot even be prepared.
pub open spec fn spec_ensure_server_running(a: AppView) -> AppView {
    if !wants_auto_start(a) {
        a
    } else {
        match launch_obstacle(a) {
            Some(e) => spec_auto_start_failed(spec_auto_starting(a), start_error_text(e)),
            None => spec_begin_start(spec_auto_starting(a)),
        }
    }
}

/// How long the user has been idle at the time `now`, in nanoseconds.
pub open spec fn idle_nanos(a: AppView, now: u64) -> int {
    if now >= a.last_activity {
        now - a.last_activity
    } else {
        0
    }
}

/// The idle time after which the server is stopped, in nanoseconds.
pub open spec fn timeout_nanos(a: AppView) -> int {
    a.settings.server_timeout_minutes * NANOS_PER_MINUTE
}

/// Whether the idle-timeout rule stops the server at the time `now`: auto-stop
/// is on, the server is ready, and the user has been idle for longer than the
/// configured time.
pub open spec fn idle_timed_out(a: AppView, now: u64) -> bool {
    &&& a.settings.auto_stop_server
    &&& a.server_ready
    &&& idle_nanos(a, now) > timeout_nanos(a)
}

/// The state after the server was stopped, with `status` in the status line:
/// no process handle, not ready, `Stopped`.
pub open spec fn spec_stopped(a: AppView, status: Seq<char>) -> AppView {
    AppView {
        server_child: false,
        server_ready: false,
        server_status: ServerStatusView::Stopped,
        status,
        ..a
    }
}

/// What the idle-timeout rule does to the state at the time `now`.
pub open spec fn spec_check_server_timeout(a: AppView, now: u64) -> AppView {
    if idle_timed_out(a, now) {
        spec_stopped(a, "Server auto-stopped (inactive)"@)
    } else {
        a
    }
}

/// What one tick of the control loop does to the lifecycle: the idle timeout
/// is checked, and where the user is active the activity is recorded and the
/// auto-start rule applied.
pub open spec fn spec_tick(a: AppView, now: u64, user_active: bool) -> AppView {
    let b = spec_check_server_timeout(a, now);
    if user_active {
        spec_ensure_server_running(AppView { last_activity: now, ..b })
    } else {
        b
    }
}

/// What a tick asks of the control loop outside the state.
#[derive(Debug)]
pub struct TickActions {
    /// Hard-kill the server process whose handle was held.
    pub kill_server: bool,
    /// Spawn the server.
    pub launch: Option<ServerLaunch>,
}

impl App {
    /// Applies the auto-start rule. The result is what to spawn, where a
    /// start was wanted and could be prepared.
    pub fn ensure_server_running(&mut self) -> (launch: Option<ServerLaunch>)
        requires
            old(self).wf(),
        ensures
            final(self).wf(),
            final(self)@ == spec_ensure_server_running(old(self)@),
            launch is Some <==> wants_auto_start(old(self)@) && launch_obstacle(old(self)@) is None,
            launch matches Some(l) ==> {
                &&& Some(l.program@) == old(self)@.server_bin
                &&& old(self)@.model_path matches Some(model) && texts_view(l.args@)
                    == crate::server::spec_server_args(model, old(self).backend)
                &&& l.health_url@ == crate::server::spec_health_url(old(self)@.server_url)
            },
    {
        let stopped = match &self.server_status {
            ServerStatus::Stopped => true,
            _ => false,
        };
        if !self.server_ready && stopped && self.settings.auto_start_server && !self.server_child {
            self.server_status = ServerStatus::Starting;
            self.status = "Auto-starting server...".to_owned();
            match start_server(self) {
                Ok(launch) => Some(launch),
                Err(e) => {
                    let msg = e.message();
                    self.auto_start_failed(msg.as_str());
                    None
                },
            }
        } else {
            None
        }
    }

    /// Records that a start by itself has failed: the controller goes to
    /// `Error` with the message.
    pub fn auto_start_failed(&mut self, err: &str)
        requires
            old(self).wf(),
        ensures
            final(self).wf(),
            final(self)@ == spec_auto_start_failed(old(self)@, err@),
    {
        self.server_status = ServerStatus::Error(concat("Auto-start failed: ", err));
        self.status = concat("Auto-start err: ", err);
    }

    /// Records that the server process was spawned and its handle is held.
    pub fn server_spawned(&mut self)
        requires
            old(self).wf(),
        ensures
            final(self).wf(),
            final(self)@ == (AppView { server_child: true, ..old(self)@ }),
    {
        self.server_child = true;
    }

    /// Applies the idle-timeout rule at the time `now`. The result says
    /// whether a process is to be killed: the one whose handle was held.
    pub fn check_server_timeout(&mut self, now: u64) -> (kill: bool)
        requires
            old(self).wf(),
        ensures
            final(self).wf(),
            final(self)@ == spec_check_server_timeout(old(self)@, now),
            kill == (idle_timed_out(old(self)@, now) && old(self).server_child),
    {
        if self.settings.auto_stop_server && self.server_ready {
            let idle: u64 = if now >= self.last_activity {
                now - self.last_activity
            } else {
                0
            };
            let timeout: u128 = (self.settings.server_timeout_minutes as u128) * (
            NANOS_PER_MINUTE as u128);
            if (idle as u128) > timeout {
                let kill = self.server_child;
                self.server_child = false;
                self.server_ready = false;
                self.server_status = ServerStatus::Stopped;
                self.status = "Server auto-stopped (inactive)".to_owned();
                return kill;
            }
        }
        false
    }

    /// Records that the user is active at the time `now`.
    pub fn mark_activity(&mut self, now: u64)
        requires
            old(self).wf(),
        ensures
            final(self).wf(),
            final(self)@ == (AppView { last_activity: now, ..old(self)@ }),
    {
        self.last_activity = now;
    }

    /// Stops the server at the user's word, from whatever state. The result
    /// says whether a process is to be killed: the one whose handle was held.
    pub fn stop_server(&mut self) -> (kill: bool)
        requires
            old(self).wf(),
        ensures
            final(self).wf(),
            final(self)@ == spec_stopped(old(self)@, "Server stopped"@),
            kill == old(self).server_child,
    {
        let kill = self.server_child;
        self.server_child = false;
        self.server_ready = false;
        self.server_status = ServerStatus::Stopped;
        self.status = "Server stopped".to_owned();
        kill
    }

    /// One tick of the lifecycle rules at the time `now`.
    pub fn tick(&mut self, now: u64, user_active: bool) -> (actions: TickActions)
        requires
            old(self).wf(),
        ensures
            final(self).wf(),
            final(self)@ == spec_tick(old(self)@, now, user_active),
            actions.kill_server == (idle_timed_out(old(self)@, now) && old(self).server_child),
            actions.launch is Some ==> user_active,
    {
        let kill_server = self.check_server_timeout(now);
        let launch = if user_active {
            self.mark_activity(now);
            self.ensure_server_running()
        } else {
            None
        };
        TickActions { kill_server, launch }
    }
}

/// A server that is running and ready, with auto-stop on, whose user has
/// been idle for longer than the timeout, is stopped by the next check: the
/// controller is `Stopped`, not ready, and holds no process handle. A tick
/// does the same; only where the user is active in that very tick may the
/// auto-start rule lead on from `Stopped`, and the handle stays absent.
pub proof fn lemma_idle_server_is_stopped(a: AppView, now: u64, user_active: bool)
    requires
        a.settings.auto_stop_server,
        a.server_status is Running,
        a.server_ready,
        idle_nanos(a, now) > timeout_nanos(a),
    ensures
        spec_check_server_timeout(a, now).server_status is Stopped,
        !spec_check_server_timeout(a, now).server_child,
        !spec_check_server_timeout(a, now).server_ready,
        !spec_tick(a, now, user_active).server_child,
        !spec_tick(a, now, user_active).server_ready,
        !(user_active && a.settings.auto_start_server) ==> spec_tick(
            a,
            now,
            user_active,
        ).server_status is Stopped,
{
}

/// The controller enters `Running` only together with readiness: a line
/// with the readiness sentinel sets both, and no other line touches either.
pub proof fn lemma_running_comes_with_readiness(a: AppView, line: Seq<char>)
    ensures
        spec_starts_with(line, "[READY]"@) ==> spec_apply_log_line(a, line).server_status is Running
            && spec_apply_log_line(a, line).server_ready,
        !spec_starts_with(line, "[READY]"@) ==> spec_apply_log_line(a, line).server_status
            == a.server_status && spec_apply_log_line(a, line).server_ready == a.server_ready,
{
}

/// Lines without the readiness sentinel leave the controller's status and
/// its readiness as they were.
pub proof fn lemma_lines_without_sentinel_keep_status(a: AppView, lines: Seq<Seq<char>>)
    requires
        forall|i: int| 0 <= i < lines.len() ==> !spec_starts_with(#[trigger] lines[i], "[READY]"@),
    ensures
        spec_apply_log_lines(a, lines).server_status == a.server_status,
        spec_apply_log_lines(a, lines).server_ready == a.server_ready,
        spec_apply_log_lines(a, lines).server_child == a.server_child,
        spec_apply_log_lines(a, lines).settings == a.settings,
    decreases lines.len(),
{
    if lines.len() > 0 {
        let front = lines.drop_last();
        assert forall|i: int| 0 <= i < front.len() implies !spec_starts_with(
            #[trigger] front[i],
            "[READY]"@,
        ) by {
            assert(front[i] == lines[i]);
        }
        lemma_lines_without_sentinel_keep_status(a, front);
        assert(!spec_starts_with(lines[lines.len() - 1], "[READY]"@));
    }
}

/// A probe that uses up its attempts without success leaves a starting
/// controller in `Starting`: it sends no line, so the drain of its lines
/// changes nothing, and no tick of the lifecycle rules moves a controller
/// that is starting and not ready. No error is ever shown.
pub proof fn lemma_exhausted_probe_leaves_starting(
    a: AppView,
    outcomes: Seq<ProbeOutcomeView>,
    now: u64,
    user_active: bool,
)
    requires
        a.server_status is Starting,
        !a.server_ready,
        forall|i: int|
            0 <= i < outcomes.len() && i < PROBE_ATTEMPTS ==> (#[trigger] outcomes[i]) is NotReady,
    ensures
        spec_probe_run(PROBE_ATTEMPTS as nat, outcomes) == Seq::<Seq<char>>::empty(),
        spec_apply_log_lines(a, spec_probe_run(PROBE_ATTEMPTS as nat, outcomes)) == a,
        spec_tick(a, now, user_active).server_status is Starting,
        !spec_tick(a, now, user_active).server_ready,
{
    lemma_probe_without_success_is_silent(PROBE_ATTEMPTS as nat, outcomes);
}

} // verus!
