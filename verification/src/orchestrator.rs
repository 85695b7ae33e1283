//! Backend orchestration: the owned orchestrator state, the switch plan,
//! and the apply session — a state machine that decides every process
//! operation of one `apply` call. The caller performs each requested
//! operation (kill, liveness check, spawn, run) and feeds the outcome
//! back; the machine decides what follows. No process I/O happens here.

use vstd::prelude::*;
use crate::backend::{
    apply_command,
    apply_command_spec,
    clear_command,
    clear_command_spec,
    daemon_name,
    daemon_name_spec,
    has_daemon,
    monitor_command,
    monitor_command_spec,
    per_monitor,
    preload_command,
    preload_command_spec,
    start_command,
    start_command_spec,
    supports_clear,
    WallpaperBackend,
};
use crate::monitors::{monitors_of, parse_monitors};
use crate::scanner::views_of;
use vstd::string::StringExecFns;

verus! {

/// A process operation the caller must perform for the session.
pub enum ProcRequest {
    /// Terminate every process of this name (absence is not an error).
    KillProcess { name: String },
    /// Report whether a process of this name is alive.
    CheckRunning { name: String },
    /// Spawn the command without waiting for it to finish.
    SpawnProcess { command: String },
    /// Sleep `millis`, then report whether `name` is alive.
    WaitThenCheck { name: String, millis: u64 },
    /// Run the command to completion and report its outcome.
    RunCommand { command: String },
    /// Run the monitor listing query and hand back its output lines.
    QueryMonitors,
}

/// The outcome of one performed request.
pub enum ProcEvent {
    /// The kill was issued.
    Killed,
    /// Liveness answer for `CheckRunning` and `WaitThenCheck`.
    RunningStatus { running: bool },
    /// Whether the spawn itself succeeded; `detail` describes a failure.
    SpawnResult { ok: bool, detail: String },
    /// Exit outcome and captured output of a `RunCommand`.
    CommandResult { success: bool, output: String },
    /// The monitor query's lines, or its failure output when `ok` is false.
    MonitorsResult { ok: bool, lines: Vec<String>, output: String },
}

/// Why an apply failed.
pub enum ApplyError {
    /// The backend's daemon did not confirm running within the timeout.
    Startup { daemon: String },
    /// An external command failed; `output` holds what it printed.
    CommandFailed { command: String, output: String },
    /// A per-monitor command failed on the named monitor.
    MonitorFailed { monitor: String, output: String },
    /// The backend applies per monitor but zero monitors were detected.
    NoMonitors,
}

/// What the session asks next: another operation, or the final verdict.
pub enum ApplyStep {
    Request { request: ProcRequest },
    Finished { result: Result<(), ApplyError> },
}

/// Where the session stands.
#[derive(PartialEq, Eq, Structural, Debug, Clone, Copy)]
pub enum ApplyPhase {
    /// Defensively killing the other backends' daemons.
    Killing,
    /// Asked whether the backend's own daemon runs.
    CheckingDaemon,
    /// Asked to spawn the daemon.
    AwaitSpawn,
    /// Asked for the fixed wait and liveness recheck after the spawn.
    AwaitRecheck,
    /// The preload command is running (per-monitor backend).
    Preloading,
    /// The monitor listing query is running.
    QueryingMonitors,
    /// The command for one monitor is running.
    ApplyingMonitor,
    /// Asked to spawn the self-forking apply command.
    AwaitApplySpawn,
    /// Waiting out the fixed delay before probing the forked painter.
    ProbingApply,
    /// A single-shot apply command is running.
    RunningApply,
    /// The session is over; it accepts no further event.
    Done,
}

/// One `apply(path)` in flight.
pub struct ApplySession {
    pub kind: WallpaperBackend,
    pub path: String,
    /// Daemon names of the other backends, killed defensively first.
    pub kills: Vec<String>,
    pub next_kill: usize,
    /// The per-monitor target list is known (memoized or freshly queried).
    pub have_monitors: bool,
    /// The target list came from a fresh query, so the caller should
    /// memoize it on success.
    pub queried: bool,
    pub monitors: Vec<String>,
    pub next_monitor: usize,
    pub phase: ApplyPhase,
}

/// Daemon names every apply kills before starting: those of the daemon
/// backends other than the active one, in a fixed order.
pub open spec fn kills_of(kind: WallpaperBackend) -> Seq<Seq<char>> {
    (if kind != WallpaperBackend::Hyprpaper {
        seq!["hyprpaper"@]
    } else {
        Seq::empty()
    }) + (if kind != WallpaperBackend::Swaybg {
        seq!["swaybg"@]
    } else {
        Seq::empty()
    }) + (if kind != WallpaperBackend::Swww {
        seq!["swww-daemon"@]
    } else {
        Seq::empty()
    })
}

pub open spec fn step_is_kill(r: ApplyStep, name: Seq<char>) -> bool {
    match r {
        ApplyStep::Request { request: ProcRequest::KillProcess { name: n } } => n@ == name,
        _ => false,
    }
}

pub open spec fn step_is_check(r: ApplyStep, name: Seq<char>) -> bool {
    match r {
        ApplyStep::Request { request: ProcRequest::CheckRunning { name: n } } => n@ == name,
        _ => false,
    }
}

pub open spec fn step_is_spawn(r: ApplyStep, command: Seq<char>) -> bool {
    match r {
        ApplyStep::Request { request: ProcRequest::SpawnProcess { command: c } } => c@ == command,
        _ => false,
    }
}

pub open spec fn step_is_wait_check(r: ApplyStep, name: Seq<char>, millis: u64) -> bool {
    match r {
        ApplyStep::Request { request: ProcRequest::WaitThenCheck { name: n, millis: m } } => n@
            == name && m == millis,
        _ => false,
    }
}

pub open spec fn step_is_run(r: ApplyStep, command: Seq<char>) -> bool {
    match r {
        ApplyStep::Request { request: ProcRequest::RunCommand { command: c } } => c@ == command,
        _ => false,
    }
}

pub open spec fn step_is_query(r: ApplyStep) -> bool {
    match r {
        ApplyStep::Request { request: ProcRequest::QueryMonitors } => true,
        _ => false,
    }
}

pub open spec fn step_is_ok(r: ApplyStep) -> bool {
    match r {
        ApplyStep::Finished { result } => result is Ok,
        _ => false,
    }
}

pub open spec fn step_is_err_startup(r: ApplyStep, daemon: Seq<char>) -> bool {
    match r {
        ApplyStep::Finished { result: Err(ApplyError::Startup { daemon: d }) } => d@ == daemon,
        _ => false,
    }
}

pub open spec fn step_is_err_command(r: ApplyStep, command: Seq<char>, output: Seq<char>) -> bool {
    match r {
        ApplyStep::Finished {
            result: Err(ApplyError::CommandFailed { command: c, output: o }),
        } => c@ == command && o@ == output,
        _ => false,
    }
}

pub open spec fn step_is_err_monitor(r: ApplyStep, monitor: Seq<char>, output: Seq<char>) -> bool {
    match r {
        ApplyStep::Finished {
            result: Err(ApplyError::MonitorFailed { monitor: m, output: o }),
        } => m@ == monitor && o@ == output,
        _ => false,
    }
}

pub open spec fn step_is_err_no_monitors(r: ApplyStep) -> bool {
    match r {
        ApplyStep::Finished { result: Err(ApplyError::NoMonitors) } => true,
        _ => false,
    }
}

impl ApplySession {
    /// Internal consistency of a session between steps.
    pub open spec fn wf(&self) -> bool {
        &&& self.next_kill <= self.kills@.len()
        &&& views_of(self.kills@) == kills_of(self.kind)
        &&& self.next_monitor <= self.monitors@.len()
        &&& !(self.phase is Done) ==> self.kind != WallpaperBackend::Disabled
        &&& self.phase is Killing ==> self.next_kill < self.kills@.len()
        &&& self.phase is ApplyingMonitor ==> self.have_monitors && self.next_monitor
            < self.monitors@.len()
        &&& (self.phase is CheckingDaemon || self.phase is AwaitSpawn || self.phase
            is AwaitRecheck) ==> has_daemon(self.kind)
        &&& (self.phase is Preloading || self.phase is QueryingMonitors || self.phase
            is ApplyingMonitor) ==> per_monitor(self.kind)
        &&& (self.phase is AwaitApplySpawn || self.phase is ProbingApply) ==> self.kind
            == WallpaperBackend::Swaybg
        &&& self.phase is RunningApply ==> (self.kind == WallpaperBackend::Swww || self.kind
            == WallpaperBackend::Wallutils || self.kind == WallpaperBackend::Feh)
    }

    /// The event kind the session's outstanding request calls for.
    pub open spec fn expects(&self, ev: ProcEvent) -> bool {
        match self.phase {
            ApplyPhase::Killing => ev is Killed,
            ApplyPhase::CheckingDaemon => ev is RunningStatus,
            ApplyPhase::AwaitSpawn => ev is SpawnResult,
            ApplyPhase::AwaitRecheck => ev is RunningStatus,
            ApplyPhase::Preloading => ev is CommandResult,
            ApplyPhase::QueryingMonitors => ev is MonitorsResult,
            ApplyPhase::ApplyingMonitor => ev is CommandResult,
            ApplyPhase::AwaitApplySpawn => ev is SpawnResult,
            ApplyPhase::ProbingApply => ev is RunningStatus,
            ApplyPhase::RunningApply => ev is CommandResult,
            ApplyPhase::Done => false,
        }
    }
}

/// The session `s` has just entered its apply stage for `kind` and `path`,
/// and `r` is the request that stage opens with.
pub open spec fn begun(kind: WallpaperBackend, path: Seq<char>, s: ApplySession, r: ApplyStep)
    -> bool {
    if kind == WallpaperBackend::Hyprpaper {
        s.phase is Preloading && step_is_run(r, preload_command_spec(path))
    } else if kind == WallpaperBackend::Swaybg {
        s.phase is AwaitApplySpawn && step_is_spawn(r, apply_command_spec(kind, path))
    } else {
        s.phase is RunningApply && step_is_run(r, apply_command_spec(kind, path))
    }
}

impl ApplySession {
    /// Enters the apply stage once the daemon question is settled.
    fn begin_apply(&mut self) -> (r: ApplyStep)
        requires
            old(self).wf(),
            old(self).kind != WallpaperBackend::Disabled,
        ensures
            final(self).wf(),
            final(self).kind == old(self).kind,
            final(self).path == old(self).path,
            final(self).kills == old(self).kills,
            final(self).have_monitors == old(self).have_monitors,
            final(self).queried == old(self).queried,
            final(self).monitors == old(self).monitors,
            begun(old(self).kind, old(self).path@, *final(self), r),
    {
        match self.kind {
            WallpaperBackend::Hyprpaper => {
                self.phase = ApplyPhase::Preloading;
                ApplyStep::Request {
                    request: ProcRequest::RunCommand { command: preload_command(self.path.as_str()) },
                }
            },
            WallpaperBackend::Swaybg => {
                self.phase = ApplyPhase::AwaitApplySpawn;
                let cmd: Option<String> = apply_command(self.kind, self.path.as_str());
                ApplyStep::Request {
                    request: ProcRequest::SpawnProcess { command: cmd.unwrap() },
                }
            },
            _ => {
                self.phase = ApplyPhase::RunningApply;
                let cmd: Option<String> = apply_command(self.kind, self.path.as_str());
                ApplyStep::Request {
                    request: ProcRequest::RunCommand { command: cmd.unwrap() },
                }
            },
        }
    }

    /// Enters the per-monitor stage once the target list is in
    /// `self.monitors`: an empty list is the hard `NoMonitors` failure.
    fn begin_monitors(&mut self) -> (r: ApplyStep)
        requires
            old(self).wf(),
            old(self).kind == WallpaperBackend::Hyprpaper,
            old(self).have_monitors,
        ensures
            final(self).wf(),
            final(self).kind == old(self).kind,
            final(self).path == old(self).path,
            final(self).kills == old(self).kills,
            final(self).have_monitors == old(self).have_monitors,
            final(self).queried == old(self).queried,
            final(self).monitors == old(self).monitors,
            old(self).monitors@.len() == 0 ==> final(self).phase is Done && step_is_err_no_monitors(
                r,
            ),
            old(self).monitors@.len() > 0 ==> final(self).phase is ApplyingMonitor && final(self).next_monitor == 0 && step_is_run(
                r,
                monitor_command_spec(old(self).monitors@[0]@, old(self).path@),
            ),
    {
        if self.monitors.len() == 0 {
            self.phase = ApplyPhase::Done;
            ApplyStep::Finished { result: Err(ApplyError::NoMonitors) }
        } else {
            self.phase = ApplyPhase::ApplyingMonitor;
            self.next_monitor = 0;
            let cmd: String = monitor_command(self.monitors[0].as_str(), self.path.as_str());
            ApplyStep::Request { request: ProcRequest::RunCommand { command: cmd } }
        }
    }
}

/// Starts one apply: for the `Disabled` kind the session finishes at once
/// with success and zero requests; otherwise it opens with the first
/// defensive kill. A memoized monitor list may be handed in; without one a
/// per-monitor backend queries afresh.
pub fn start_apply(
    kind: WallpaperBackend,
    path: String,
    cached_monitors: Option<Vec<String>>,
) -> (r: (ApplySession, ApplyStep))
    ensures
        r.0.wf(),
        r.0.kind == kind,
        r.0.path == path,
        kind == WallpaperBackend::Disabled ==> r.0.phase is Done && step_is_ok(r.1),
        kind != WallpaperBackend::Disabled ==> r.0.phase is Killing && r.0.next_kill == 0
            && step_is_kill(r.1, kills_of(kind)[0]),
        match cached_monitors {
            Some(ms) => r.0.have_monitors && !r.0.queried && r.0.monitors == ms,
            None => !r.0.have_monitors && !r.0.queried,
        },
{
    let (have_monitors, monitors): (bool, Vec<String>) = match cached_monitors {
        Some(ms) => (true, ms),
        None => (false, Vec::new()),
    };
    let mut kills: Vec<String> = Vec::new();
    if kind != WallpaperBackend::Hyprpaper {
        kills.push(String::from_str("hyprpaper"));
    }
    if kind != WallpaperBackend::Swaybg {
        kills.push(String::from_str("swaybg"));
    }
    if kind != WallpaperBackend::Swww {
        kills.push(String::from_str("swww-daemon"));
    }
    proof {
        assert(views_of(kills@) =~= kills_of(kind));
    }
    if kind == WallpaperBackend::Disabled {
        let session = ApplySession {
            kind,
            path,
            kills,
            next_kill: 0,
            have_monitors,
            queried: false,
            monitors,
            next_monitor: 0,
            phase: ApplyPhase::Done,
        };
        return (session, ApplyStep::Finished { result: Ok(()) });
    }
    let first: String = kills[0].clone();
    let session = ApplySession {
        kind,
        path,
        kills,
        next_kill: 0,
        have_monitors,
        queried: false,
        monitors,
        next_monitor: 0,
        phase: ApplyPhase::Killing,
    };
    (session, ApplyStep::Request { request: ProcRequest::KillProcess { name: first } })
}

impl ApplySession {
    /// Feeds the outcome of the outstanding request into the session and
    /// returns what the caller must do next. Every transition is stated
    /// below, case by the phase the session was in.
    pub fn on_event(&mut self, ev: &ProcEvent) -> (r: ApplyStep)
        requires
            old(self).wf(),
            old(self).expects(*ev),
        ensures
            final(self).wf(),
            final(self).kind == old(self).kind,
            final(self).path == old(self).path,
            final(self).kills == old(self).kills,
            !(old(self).phase is QueryingMonitors) ==> final(self).have_monitors == old(self).have_monitors && final(self).queried == old(self).queried && final(self).monitors
                == old(self).monitors,
            // Defensive kills, one by one, then the daemon question.
            old(self).phase is Killing ==> ({
                let nk = old(self).next_kill + 1;
                &&& nk < old(self).kills@.len() ==> final(self).phase is Killing && final(self).next_kill == nk && step_is_kill(r, kills_of(old(self).kind)[nk as int])
                &&& nk == old(self).kills@.len() && has_daemon(old(self).kind) ==> final(self).phase is CheckingDaemon && step_is_check(r, daemon_name_spec(old(self).kind))
                &&& nk == old(self).kills@.len() && !has_daemon(old(self).kind) ==> begun(
                    old(self).kind,
                    old(self).path@,
                    *final(self),
                    r,
                )
            }),
            // ensure_running: found running, or spawn it.
            old(self).phase is CheckingDaemon ==> (*ev matches ProcEvent::RunningStatus {
                running,
            } ==> if running {
                begun(old(self).kind, old(self).path@, *final(self), r)
            } else {
                final(self).phase is AwaitSpawn && step_is_spawn(
                    r,
                    start_command_spec(old(self).kind),
                )
            }),
            // The spawn itself failed, or wait out the fixed timeout.
            old(self).phase is AwaitSpawn ==> (*ev matches ProcEvent::SpawnResult {
                ok,
                detail,
            } ==> if ok {
                final(self).phase is AwaitRecheck && step_is_wait_check(
                    r,
                    daemon_name_spec(old(self).kind),
                    1000,
                )
            } else {
                final(self).phase is Done && step_is_err_startup(
                    r,
                    daemon_name_spec(old(self).kind),
                )
            }),
            // The recheck decides: confirmed, or a startup failure.
            old(self).phase is AwaitRecheck ==> (*ev matches ProcEvent::RunningStatus {
                running,
            } ==> if running {
                begun(old(self).kind, old(self).path@, *final(self), r)
            } else {
                final(self).phase is Done && step_is_err_startup(
                    r,
                    daemon_name_spec(old(self).kind),
                )
            }),
            // Preload outcome; then memoized monitors or a fresh query.
            old(self).phase is Preloading ==> (*ev matches ProcEvent::CommandResult {
                success,
                output,
            } ==> if !success {
                final(self).phase is Done && step_is_err_command(
                    r,
                    preload_command_spec(old(self).path@),
                    output@,
                )
            } else if old(self).have_monitors {
                &&& old(self).monitors@.len() == 0 ==> final(self).phase is Done
                    && step_is_err_no_monitors(r)
                &&& old(self).monitors@.len() > 0 ==> final(self).phase is ApplyingMonitor && final(self).next_monitor == 0 && step_is_run(
                    r,
                    monitor_command_spec(old(self).monitors@[0]@, old(self).path@),
                )
            } else {
                final(self).phase is QueryingMonitors && step_is_query(r)
            }),
            // The query's lines are parsed; zero monitors is a hard failure.
            old(self).phase is QueryingMonitors ==> (*ev matches ProcEvent::MonitorsResult {
                ok,
                lines,
                output,
            } ==> if !ok {
                final(self).phase is Done && step_is_err_command(
                    r,
                    "hyprctl monitors"@,
                    output@,
                )
            } else {
                &&& final(self).have_monitors
                &&& final(self).queried
                &&& views_of(final(self).monitors@) == monitors_of(views_of(lines@))
                &&& monitors_of(views_of(lines@)).len() == 0 ==> final(self).phase is Done
                    && step_is_err_no_monitors(r)
                &&& monitors_of(views_of(lines@)).len() > 0 ==> final(self).phase
                    is ApplyingMonitor && final(self).next_monitor == 0 && step_is_run(
                    r,
                    monitor_command_spec(views_of(final(self).monitors@)[0], old(self).path@),
                )
            }),
            // Per-monitor commands in listed order, aborting at the first
            // failure and naming the monitor that failed.
            old(self).phase is ApplyingMonitor ==> (*ev matches ProcEvent::CommandResult {
                success,
                output,
            } ==> if !success {
                final(self).phase is Done && step_is_err_monitor(
                    r,
                    old(self).monitors@[old(self).next_monitor as int]@,
                    output@,
                )
            } else {
                ({
                    let nm = old(self).next_monitor + 1;
                    &&& nm < old(self).monitors@.len() ==> final(self).phase is ApplyingMonitor
                        && final(self).next_monitor == nm && step_is_run(
                        r,
                        monitor_command_spec(old(self).monitors@[nm as int]@, old(self).path@),
                    )
                    &&& nm == old(self).monitors@.len() ==> final(self).phase is Done && step_is_ok(
                        r,
                    )
                })
            }),
            // The forked painter: spawn outcome, then the delayed probe.
            old(self).phase is AwaitApplySpawn ==> (*ev matches ProcEvent::SpawnResult {
                ok,
                detail,
            } ==> if ok {
                final(self).phase is ProbingApply && step_is_wait_check(r, "swaybg"@, 500)
            } else {
                final(self).phase is Done && step_is_err_command(
                    r,
                    apply_command_spec(old(self).kind, old(self).path@),
                    detail@,
                )
            }),
            old(self).phase is ProbingApply ==> (*ev matches ProcEvent::RunningStatus {
                running,
            } ==> if running {
                final(self).phase is Done && step_is_ok(r)
            } else {
                final(self).phase is Done && step_is_err_command(
                    r,
                    apply_command_spec(old(self).kind, old(self).path@),
                    "swaybg failed to start or crashed immediately"@,
                )
            }),
            // A single-shot apply command's outcome is the verdict.
            old(self).phase is RunningApply ==> (*ev matches ProcEvent::CommandResult {
                success,
                output,
            } ==> if success {
                final(self).phase is Done && step_is_ok(r)
            } else {
                final(self).phase is Done && step_is_err_command(
                    r,
                    apply_command_spec(old(self).kind, old(self).path@),
                    output@,
                )
            }),
    {
        match self.phase {
            ApplyPhase::Killing => {
                let klen: usize = self.kills.len();
                let nk: usize = self.next_kill + 1;
                if nk < klen {
                    self.next_kill = nk;
                    let name: String = self.kills[nk].clone();
                    proof {
                        assert(name@ == kills_of(self.kind)[nk as int]);
                    }
                    ApplyStep::Request { request: ProcRequest::KillProcess { name } }
                } else {
                    match daemon_name(self.kind) {
                        Some(d) => {
                            self.next_kill = nk;
                            self.phase = ApplyPhase::CheckingDaemon;
                            ApplyStep::Request {
                                request: ProcRequest::CheckRunning { name: d.to_owned() },
                            }
                        },
                        None => self.begin_apply(),
                    }
                }
            },
            ApplyPhase::CheckingDaemon => {
                match ev {
                    ProcEvent::RunningStatus { running } => {
                        if *running {
                            self.begin_apply()
                        } else {
                            self.phase = ApplyPhase::AwaitSpawn;
                            let cmd: Option<&'static str> = start_command(self.kind);
                            ApplyStep::Request {
                                request: ProcRequest::SpawnProcess {
                                    command: cmd.unwrap().to_owned(),
                                },
                            }
                        }
                    },
                    _ => {
                        proof {
                            assert(false);
                        }
                        ApplyStep::Finished { result: Ok(()) }
                    },
                }
            },
            ApplyPhase::AwaitSpawn => {
                match ev {
                    ProcEvent::SpawnResult { ok, detail } => {
                        if *ok {
                            self.phase = ApplyPhase::AwaitRecheck;
                            let d: Option<&'static str> = daemon_name(self.kind);
                            ApplyStep::Request {
                                request: ProcRequest::WaitThenCheck {
                                    name: d.unwrap().to_owned(),
                                    millis: 1000,
                                },
                            }
                        } else {
                            self.phase = ApplyPhase::Done;
                            let d: Option<&'static str> = daemon_name(self.kind);
                            ApplyStep::Finished {
                                result: Err(ApplyError::Startup { daemon: d.unwrap().to_owned() }),
                            }
                        }
                    },
                    _ => {
                        proof {
                            assert(false);
                        }
                        ApplyStep::Finished { result: Ok(()) }
                    },
                }
            },
            ApplyPhase::AwaitRecheck => {
                match ev {
                    ProcEvent::RunningStatus { running } => {
                        if *running {
                            self.begin_apply()
                        } else {
                            self.phase = ApplyPhase::Done;
                            let d: Option<&'static str> = daemon_name(self.kind);
                            ApplyStep::Finished {
                                result: Err(ApplyError::Startup { daemon: d.unwrap().to_owned() }),
                            }
                        }
                    },
                    _ => {
                        proof {
                            assert(false);
                        }
                        ApplyStep::Finished { result: Ok(()) }
                    },
                }
            },
            ApplyPhase::Preloading => {
                match ev {
                    ProcEvent::CommandResult { success, output } => {
                        if !*success {
                            self.phase = ApplyPhase::Done;
                            ApplyStep::Finished {
                                result: Err(
                                    ApplyError::CommandFailed {
                                        command: preload_command(self.path.as_str()),
                                        output: output.clone(),
                                    },
                                ),
                            }
                        } else if self.have_monitors {
                            self.begin_monitors()
                        } else {
                            self.phase = ApplyPhase::QueryingMonitors;
                            ApplyStep::Request { request: ProcRequest::QueryMonitors }
                        }
                    },
                    _ => {
                        proof {
                            assert(false);
                        }
                        ApplyStep::Finished { result: Ok(()) }
                    },
                }
            },
            ApplyPhase::QueryingMonitors => {
                match ev {
                    ProcEvent::MonitorsResult { ok, lines, output } => {
                        if !*ok {
                            self.phase = ApplyPhase::Done;
                            ApplyStep::Finished {
                                result: Err(
                                    ApplyError::CommandFailed {
                                        command: String::from_str("hyprctl monitors"),
                                        output: output.clone(),
                                    },
                                ),
                            }
                        } else {
                            self.monitors = parse_monitors(lines);
                            self.have_monitors = true;
                            self.queried = true;
                            self.next_monitor = 0;
                            self.begin_monitors()
                        }
                    },
                    _ => {
                        proof {
                            assert(false);
                        }
                        ApplyStep::Finished { result: Ok(()) }
                    },
                }
            },
            ApplyPhase::ApplyingMonitor => {
                match ev {
                    ProcEvent::CommandResult { success, output } => {
                        if !*success {
                            let m: String = self.monitors[self.next_monitor].clone();
                            self.phase = ApplyPhase::Done;
                            ApplyStep::Finished {
                                result: Err(
                                    ApplyError::MonitorFailed {
                                        monitor: m,
                                        output: output.clone(),
                                    },
                                ),
                            }
                        } else {
                            let mlen: usize = self.monitors.len();
                            let nm: usize = self.next_monitor + 1;
                            if nm < mlen {
                                self.next_monitor = nm;
                                let cmd: String = monitor_command(
                                    self.monitors[nm].as_str(),
                                    self.path.as_str(),
                                );
                                ApplyStep::Request { request: ProcRequest::RunCommand { command: cmd } }
                            } else {
                                self.next_monitor = nm;
                                self.phase = ApplyPhase::Done;
                                ApplyStep::Finished { result: Ok(()) }
                            }
                        }
                    },
                    _ => {
                        proof {
                            assert(false);
                        }
                        ApplyStep::Finished { result: Ok(()) }
                    },
                }
            },
            ApplyPhase::AwaitApplySpawn => {
                match ev {
                    ProcEvent::SpawnResult { ok, detail } => {
                        if *ok {
                            self.phase = ApplyPhase::ProbingApply;
                            ApplyStep::Request {
                                request: ProcRequest::WaitThenCheck {
                                    name: String::from_str("swaybg"),
                                    millis: 500,
                                },
                            }
                        } else {
                            self.phase = ApplyPhase::Done;
                            let cmd: Option<String> = apply_command(self.kind, self.path.as_str());
                            ApplyStep::Finished {
                                result: Err(
                                    ApplyError::CommandFailed {
                                        command: cmd.unwrap(),
                                        output: detail.clone(),
                                    },
                                ),
                            }
                        }
                    },
                    _ => {
                        proof {
                            assert(false);
                        }
                        ApplyStep::Finished { result: Ok(()) }
                    },
                }
            },
            ApplyPhase::ProbingApply => {
                match ev {
                    ProcEvent::RunningStatus { running } => {
                        self.phase = ApplyPhase::Done;
                        if *running {
                            ApplyStep::Finished { result: Ok(()) }
                        } else {
                            let cmd: Option<String> = apply_command(self.kind, self.path.as_str());
                            ApplyStep::Finished {
                                result: Err(
                                    ApplyError::CommandFailed {
                                        command: cmd.unwrap(),
                                        output: String::from_str(
                                            "swaybg failed to start or crashed immediately",
                                        ),
                                    },
                                ),
                            }
                        }
                    },
                    _ => {
                        proof {
                            assert(false);
                        }
                        ApplyStep::Finished { result: Ok(()) }
                    },
                }
            },
            ApplyPhase::RunningApply => {
                match ev {
                    ProcEvent::CommandResult { success, output } => {
                        self.phase = ApplyPhase::Done;
                        if *success {
                            ApplyStep::Finished { result: Ok(()) }
                        } else {
                            let cmd: Option<String> = apply_command(self.kind, self.path.as_str());
                            ApplyStep::Finished {
                                result: Err(
                                    ApplyError::CommandFailed {
                                        command: cmd.unwrap(),
                                        output: output.clone(),
                                    },
                                ),
                            }
                        }
                    },
                    _ => {
                        proof {
                            assert(false);
                        }
                        ApplyStep::Finished { result: Ok(()) }
                    },
                }
            },
            ApplyPhase::Done => {
                proof {
                    assert(false);
                }
                ApplyStep::Finished { result: Ok(()) }
            },
        }
    }
}

/// A session that is done accepts no further event: in particular, once a
/// per-monitor apply has failed for want of monitors, no per-monitor
/// command can ever be requested from that session.
pub proof fn lemma_done_accepts_nothing(s: ApplySession, ev: ProcEvent)
    requires
        s.phase is Done,
    ensures
        !s.expects(ev),
{
}

/// One step of a switch: clear the old backend's wallpapers, or terminate
/// its daemon (absence of the process is not an error).
pub enum SwitchAction {
    RunClear { command: String },
    KillDaemon { name: String },
}

impl View for SwitchAction {
    type V = (bool, Seq<char>);

    open spec fn view(&self) -> (bool, Seq<char>) {
        match self {
            SwitchAction::RunClear { command } => (true, command@),
            SwitchAction::KillDaemon { name } => (false, name@),
        }
    }
}

/// The stop/clear operations a switch away from `kind` issues: its clear
/// command when it supports clearing, then its daemon kill when it has one.
pub open spec fn switch_plan(kind: WallpaperBackend) -> Seq<(bool, Seq<char>)> {
    (if supports_clear(kind) {
        seq![(true, clear_command_spec(kind))]
    } else {
        Seq::empty()
    }) + (if has_daemon(kind) {
        seq![(false, daemon_name_spec(kind))]
    } else {
        Seq::empty()
    })
}

/// The orchestrator's durable state: the active backend kind, whether its
/// daemon was confirmed running, the memoized monitor list, and the last
/// successfully applied path.
pub struct OrchestratorState {
    pub kind: WallpaperBackend,
    pub daemon_confirmed: bool,
    pub monitors: Option<Vec<String>>,
    pub last_applied: Option<String>,
}

impl OrchestratorState {
    pub fn new(kind: WallpaperBackend) -> (r: OrchestratorState)
        ensures
            r.kind == kind,
            !r.daemon_confirmed,
            r.monitors is None,
            r.last_applied is None,
    {
        OrchestratorState { kind, daemon_confirmed: false, monitors: None, last_applied: None }
    }

    /// Switches the active backend. Same kind: a no-op with an empty plan.
    /// Otherwise the old kind's stop/clear plan comes back, and the state
    /// moves to the new kind with its daemon unconfirmed; the caller
    /// performs the plan and persists the new kind.
    pub fn switch_backend(&mut self, new_kind: WallpaperBackend) -> (plan: Vec<SwitchAction>)
        ensures
            new_kind == old(self).kind ==> plan@.len() == 0 && *final(self) == *old(self),
            new_kind != old(self).kind ==> final(self).kind == new_kind && !final(self).daemon_confirmed && final(self).monitors == old(self).monitors && final(self).last_applied == old(self).last_applied && views_of(plan@) == switch_plan(
                old(self).kind,
            ),
    {
        if new_kind == self.kind {
            return Vec::new();
        }
        let mut plan: Vec<SwitchAction> = Vec::new();
        match clear_command(self.kind) {
            Some(c) => plan.push(SwitchAction::RunClear { command: c.to_owned() }),
            None => {},
        }
        match daemon_name(self.kind) {
            Some(d) => plan.push(SwitchAction::KillDaemon { name: d.to_owned() }),
            None => {},
        }
        proof {
            assert(views_of(plan@) =~= switch_plan(self.kind));
        }
        self.kind = new_kind;
        self.daemon_confirmed = false;
        plan
    }

    /// Records a successful apply: the path becomes the last applied one,
    /// the daemon counts as confirmed, and a freshly queried monitor list
    /// is memoized. The caller persists the pair.
    pub fn record_applied(&mut self, path: String, fresh_monitors: Option<Vec<String>>)
        ensures
            final(self).kind == old(self).kind,
            final(self).daemon_confirmed,
            final(self).last_applied == Some(path),
            match fresh_monitors {
                Some(ms) => final(self).monitors == Some(ms),
                None => final(self).monitors == old(self).monitors,
            },
    {
        self.last_applied = Some(path);
        self.daemon_confirmed = true;
        match fresh_monitors {
            Some(ms) => {
                self.monitors = Some(ms);
            },
            None => {},
        }
    }
}

/// Switching discipline: a switch away from an active kind issues exactly
/// that kind's clear command (when it supports clearing) and then its
/// daemon kill (when it has one) — and `switch_backend` leaves the state
/// on the new kind, so every later apply session carries the new kind.
pub proof fn lemma_switch_discipline(old_kind: WallpaperBackend, new_kind: WallpaperBackend)
    requires
        old_kind != new_kind,
    ensures
        supports_clear(old_kind) ==> switch_plan(old_kind)[0] == (
            true,
            clear_command_spec(old_kind),
        ),
        has_daemon(old_kind) ==> switch_plan(old_kind).last() == (
            false,
            daemon_name_spec(old_kind),
        ),
        switch_plan(old_kind).len() == (if supports_clear(old_kind) {
            1int
        } else {
            0int
        }) + (if has_daemon(old_kind) {
            1int
        } else {
            0int
        }),
{
}

} // verus!
