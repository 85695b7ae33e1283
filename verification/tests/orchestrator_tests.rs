use hyprwall::backend::{
    apply_command, backend_from_name, backend_name, clear_command, daemon_name, monitor_command,
    preload_command, start_command, WallpaperBackend,
};
use hyprwall::monitors::{monitor_of, parse_monitors};
use hyprwall::orchestrator::{
    start_apply, ApplyError, ApplySession, ApplyStep, OrchestratorState, ProcEvent, ProcRequest,
    SwitchAction,
};

fn req(step: ApplyStep) -> ProcRequest {
    match step {
        ApplyStep::Request { request } => request,
        ApplyStep::Finished { .. } => panic!("expected a request, session finished"),
    }
}

fn verdict(step: ApplyStep) -> Result<(), ApplyError> {
    match step {
        ApplyStep::Finished { result } => result,
        ApplyStep::Request { .. } => panic!("expected a verdict, session asked for more"),
    }
}

fn kill_name(step: ApplyStep) -> String {
    match req(step) {
        ProcRequest::KillProcess { name } => name,
        _ => panic!("expected a kill request"),
    }
}

fn run_command(step: ApplyStep) -> String {
    match req(step) {
        ProcRequest::RunCommand { command } => command,
        _ => panic!("expected a run request"),
    }
}

fn ok_command() -> ProcEvent {
    ProcEvent::CommandResult { success: true, output: String::new() }
}

fn failed_command(output: &str) -> ProcEvent {
    ProcEvent::CommandResult { success: false, output: output.to_string() }
}

fn running(running: bool) -> ProcEvent {
    ProcEvent::RunningStatus { running }
}

fn spawned(ok: bool) -> ProcEvent {
    ProcEvent::SpawnResult { ok, detail: if ok { String::new() } else { "spawn failed".to_string() } }
}

fn monitor_lines(lines: &[&str]) -> ProcEvent {
    ProcEvent::MonitorsResult {
        ok: true,
        lines: lines.iter().map(|l| l.to_string()).collect(),
        output: String::new(),
    }
}

/// Runs the defensive kills that open every non-disabled session and
/// returns the step that follows them.
fn drain_kills(session: &mut ApplySession, mut step: ApplyStep, expected: &[&str]) -> ApplyStep {
    for (i, name) in expected.iter().enumerate() {
        assert_eq!(kill_name(step), *name, "kill {i}");
        step = session.on_event(&ProcEvent::Killed);
    }
    step
}

#[test]
fn disabled_backend_applies_with_zero_commands() {
    // The no-op kind reports success and never asks for a process call.
    let (_s, step) = start_apply(WallpaperBackend::Disabled, "/w/a.png".to_string(), None);
    assert!(verdict(step).is_ok());
}

#[test]
fn hyprpaper_apply_runs_preload_query_and_per_monitor_commands() {
    let (mut s, step) = start_apply(WallpaperBackend::Hyprpaper, "/w/a.png".to_string(), None);
    let step = drain_kills(&mut s, step, &["swaybg", "swww-daemon"]);
    match req(step) {
        ProcRequest::CheckRunning { name } => assert_eq!(name, "hyprpaper"),
        _ => panic!("expected a liveness check"),
    }
    let step = s.on_event(&running(true));
    assert_eq!(run_command(step), "hyprctl hyprpaper preload \"/w/a.png\"");
    let step = s.on_event(&ok_command());
    assert!(matches!(req(step), ProcRequest::QueryMonitors));
    let step = s.on_event(&monitor_lines(&[
        "Monitor eDP-1 (ID 0):",
        "\t1920x1080@60",
        "Monitor HDMI-A-1 (ID 1):",
    ]));
    assert_eq!(run_command(step), "hyprctl hyprpaper wallpaper \"eDP-1,/w/a.png\"");
    let step = s.on_event(&ok_command());
    assert_eq!(run_command(step), "hyprctl hyprpaper wallpaper \"HDMI-A-1,/w/a.png\"");
    let step = s.on_event(&ok_command());
    assert!(verdict(step).is_ok());
    assert!(s.queried);
    assert_eq!(s.monitors, vec!["eDP-1".to_string(), "HDMI-A-1".to_string()]);
}

#[test]
fn daemon_missing_is_spawned_then_confirmed() {
    let (mut s, step) = start_apply(WallpaperBackend::Swww, "/w/a.gif".to_string(), None);
    let step = drain_kills(&mut s, step, &["hyprpaper", "swaybg"]);
    match req(step) {
        ProcRequest::CheckRunning { name } => assert_eq!(name, "swww-daemon"),
        _ => panic!("expected a liveness check"),
    }
    let step = s.on_event(&running(false));
    match req(step) {
        ProcRequest::SpawnProcess { command } => assert_eq!(command, "swww-daemon 2>/dev/null"),
        _ => panic!("expected a daemon spawn"),
    }
    let step = s.on_event(&spawned(true));
    match req(step) {
        ProcRequest::WaitThenCheck { name, millis } => {
            assert_eq!(name, "swww-daemon");
            assert_eq!(millis, 1000);
        },
        _ => panic!("expected the wait-and-recheck"),
    }
    let step = s.on_event(&running(true));
    assert_eq!(run_command(step), "swww img \"/w/a.gif\"");
    let step = s.on_event(&ok_command());
    assert!(verdict(step).is_ok());
}

#[test]
fn daemon_that_never_confirms_is_a_startup_error() {
    let (mut s, step) = start_apply(WallpaperBackend::Hyprpaper, "/w/a.png".to_string(), None);
    let step = drain_kills(&mut s, step, &["swaybg", "swww-daemon"]);
    let step = s.on_event(&running(false));
    assert!(matches!(req(step), ProcRequest::SpawnProcess { .. }));
    let step = s.on_event(&spawned(true));
    assert!(matches!(req(step), ProcRequest::WaitThenCheck { .. }));
    let step = s.on_event(&running(false));
    match verdict(step) {
        Err(ApplyError::Startup { daemon }) => assert_eq!(daemon, "hyprpaper"),
        other => panic!("expected a startup error, got {:?}", other.is_ok()),
    }
}

#[test]
fn zero_monitors_is_a_hard_failure_with_no_per_monitor_command() {
    // A per-monitor backend with zero detected monitors: NoMonitors comes
    // back as the verdict, so no per-monitor command is ever requested.
    let (mut s, step) = start_apply(WallpaperBackend::Hyprpaper, "/w/a.png".to_string(), None);
    let step = drain_kills(&mut s, step, &["swaybg", "swww-daemon"]);
    let step = s.on_event(&running(true));
    assert!(run_command(step).starts_with("hyprctl hyprpaper preload"));
    let step = s.on_event(&ok_command());
    assert!(matches!(req(step), ProcRequest::QueryMonitors));
    let step = s.on_event(&monitor_lines(&["no monitors here", "just noise"]));
    assert!(matches!(verdict(step), Err(ApplyError::NoMonitors)));
}

#[test]
fn cached_empty_monitor_list_fails_the_same_way() {
    let (mut s, step) = start_apply(
        WallpaperBackend::Hyprpaper,
        "/w/a.png".to_string(),
        Some(Vec::new()),
    );
    let step = drain_kills(&mut s, step, &["swaybg", "swww-daemon"]);
    let step = s.on_event(&running(true));
    let step = s.on_event(&ok_command());
    assert!(matches!(verdict(step), Err(ApplyError::NoMonitors)));
}

#[test]
fn cached_monitors_skip_the_query() {
    let cached = vec!["DP-1".to_string()];
    let (mut s, step) = start_apply(
        WallpaperBackend::Hyprpaper,
        "/w/a.png".to_string(),
        Some(cached),
    );
    let step = drain_kills(&mut s, step, &["swaybg", "swww-daemon"]);
    let step = s.on_event(&running(true));
    let step = s.on_event(&ok_command());
    assert_eq!(run_command(step), "hyprctl hyprpaper wallpaper \"DP-1,/w/a.png\"");
    let step = s.on_event(&ok_command());
    assert!(verdict(step).is_ok());
    assert!(!s.queried);
}

#[test]
fn per_monitor_failure_names_the_monitor_and_aborts() {
    let (mut s, step) = start_apply(WallpaperBackend::Hyprpaper, "/w/a.png".to_string(), None);
    let step = drain_kills(&mut s, step, &["swaybg", "swww-daemon"]);
    let step = s.on_event(&running(true));
    let step = s.on_event(&ok_command());
    let step = s.on_event(&monitor_lines(&["Monitor eDP-1 (ID 0):", "Monitor DP-2 (ID 1):"]));
    assert_eq!(run_command(step), "hyprctl hyprpaper wallpaper \"eDP-1,/w/a.png\"");
    let step = s.on_event(&failed_command("no such monitor"));
    match verdict(step) {
        Err(ApplyError::MonitorFailed { monitor, output }) => {
            assert_eq!(monitor, "eDP-1");
            assert_eq!(output, "no such monitor");
        },
        _ => panic!("expected the failing monitor to be named"),
    }
}

#[test]
fn swaybg_probe_detects_silent_crash() {
    let (mut s, step) = start_apply(WallpaperBackend::Swaybg, "/w/a.png".to_string(), None);
    let step = drain_kills(&mut s, step, &["hyprpaper", "swww-daemon"]);
    let step = s.on_event(&running(true));
    match req(step) {
        ProcRequest::SpawnProcess { command } => {
            assert_eq!(command, "swaybg -i \"/w/a.png\" -m fill &")
        },
        _ => panic!("expected the forking apply spawn"),
    }
    let step = s.on_event(&spawned(true));
    match req(step) {
        ProcRequest::WaitThenCheck { name, millis } => {
            assert_eq!(name, "swaybg");
            assert_eq!(millis, 500);
        },
        _ => panic!("expected the delayed probe"),
    }
    let step = s.on_event(&running(false));
    match verdict(step) {
        Err(ApplyError::CommandFailed { command, output }) => {
            assert_eq!(command, "swaybg -i \"/w/a.png\" -m fill &");
            assert_eq!(output, "swaybg failed to start or crashed immediately");
        },
        _ => panic!("expected a command failure"),
    }
}

#[test]
fn single_shot_apply_failure_carries_the_output() {
    let (mut s, step) = start_apply(WallpaperBackend::Feh, "/w/a.png".to_string(), None);
    let step = drain_kills(&mut s, step, &["hyprpaper", "swaybg", "swww-daemon"]);
    assert_eq!(run_command(step), "feh --bg-fill \"/w/a.png\"");
    let step = s.on_event(&failed_command("feh: no X display"));
    match verdict(step) {
        Err(ApplyError::CommandFailed { command, output }) => {
            assert_eq!(command, "feh --bg-fill \"/w/a.png\"");
            assert_eq!(output, "feh: no X display");
        },
        _ => panic!("expected a command failure"),
    }
}

#[test]
fn wallutils_has_no_daemon_to_confirm() {
    let (mut s, step) = start_apply(WallpaperBackend::Wallutils, "/w/a.png".to_string(), None);
    let step = drain_kills(&mut s, step, &["hyprpaper", "swaybg", "swww-daemon"]);
    assert_eq!(run_command(step), "setwallpaper \"/w/a.png\"");
    let step = s.on_event(&ok_command());
    assert!(verdict(step).is_ok());
}

#[test]
fn switching_issues_old_kinds_stop_and_clear_first() {
    // Switching away from swww issues swww's clear and daemon kill, and
    // only then is the state on the new kind.
    let mut st = OrchestratorState::new(WallpaperBackend::Swww);
    let plan = st.switch_backend(WallpaperBackend::Feh);
    assert_eq!(plan.len(), 2);
    match &plan[0] {
        SwitchAction::RunClear { command } => assert_eq!(command, "swww clear"),
        _ => panic!("expected the clear command first"),
    }
    match &plan[1] {
        SwitchAction::KillDaemon { name } => assert_eq!(name, "swww-daemon"),
        _ => panic!("expected the daemon kill"),
    }
    assert_eq!(st.kind, WallpaperBackend::Feh);
    assert!(!st.daemon_confirmed);
}

#[test]
fn switching_to_the_same_kind_is_a_no_op() {
    let mut st = OrchestratorState::new(WallpaperBackend::Feh);
    let plan = st.switch_backend(WallpaperBackend::Feh);
    assert!(plan.is_empty());
    assert_eq!(st.kind, WallpaperBackend::Feh);
}

#[test]
fn switching_from_a_daemonless_kind_has_an_empty_plan() {
    let mut st = OrchestratorState::new(WallpaperBackend::Feh);
    let plan = st.switch_backend(WallpaperBackend::Swww);
    assert!(plan.is_empty());
    assert_eq!(st.kind, WallpaperBackend::Swww);
}

#[test]
fn successful_apply_is_recorded_and_monitors_memoized() {
    let mut st = OrchestratorState::new(WallpaperBackend::Hyprpaper);
    st.record_applied("/w/a.png".to_string(), Some(vec!["eDP-1".to_string()]));
    assert_eq!(st.last_applied.as_deref(), Some("/w/a.png"));
    assert!(st.daemon_confirmed);
    assert_eq!(st.monitors, Some(vec!["eDP-1".to_string()]));
    st.record_applied("/w/b.png".to_string(), None);
    assert_eq!(st.last_applied.as_deref(), Some("/w/b.png"));
    assert_eq!(st.monitors, Some(vec!["eDP-1".to_string()]));
}

#[test]
fn monitor_lines_parse_second_field_of_marked_lines() {
    let lines: Vec<String> = vec![
        "Monitor eDP-1 (ID 0):".to_string(),
        "\t1920x1080@60.0 at 0x0".to_string(),
        "Monitor  DP-3 (ID 1):".to_string(),
        "Monitorish nonsense".to_string(),
        "Monitor ".to_string(),
    ];
    let ms = parse_monitors(&lines);
    assert_eq!(ms, vec!["eDP-1".to_string(), "DP-3".to_string()]);
    assert_eq!(monitor_of("Monitor HDMI-A-1 (ID 2):"), Some("HDMI-A-1".to_string()));
    assert_eq!(monitor_of("something else"), None);
}

#[test]
fn backend_names_round_trip_and_parse_case_insensitively() {
    let kinds = [
        WallpaperBackend::Disabled,
        WallpaperBackend::Hyprpaper,
        WallpaperBackend::Swaybg,
        WallpaperBackend::Swww,
        WallpaperBackend::Wallutils,
        WallpaperBackend::Feh,
    ];
    for k in kinds {
        assert_eq!(backend_from_name(backend_name(k)), Some(k));
    }
    assert_eq!(backend_from_name("none"), Some(WallpaperBackend::Disabled));
    assert_eq!(backend_from_name("HyprPaper"), Some(WallpaperBackend::Hyprpaper));
    assert_eq!(backend_from_name("SWWW"), Some(WallpaperBackend::Swww));
    assert_eq!(backend_from_name("plasma"), None);
    assert_eq!(backend_from_name(""), None);
}

#[test]
fn capability_table_matches_each_tool() {
    assert_eq!(daemon_name(WallpaperBackend::Hyprpaper), Some("hyprpaper"));
    assert_eq!(daemon_name(WallpaperBackend::Swww), Some("swww-daemon"));
    assert_eq!(daemon_name(WallpaperBackend::Feh), None);
    assert_eq!(daemon_name(WallpaperBackend::Disabled), None);
    assert_eq!(start_command(WallpaperBackend::Swaybg), Some("swaybg"));
    assert_eq!(clear_command(WallpaperBackend::Hyprpaper), Some("hyprctl hyprpaper unload all"));
    assert_eq!(clear_command(WallpaperBackend::Swww), Some("swww clear"));
    assert_eq!(clear_command(WallpaperBackend::Feh), None);
    assert_eq!(preload_command("/a b.png"), "hyprctl hyprpaper preload \"/a b.png\"");
    assert_eq!(monitor_command("DP-1", "/a.png"), "hyprctl hyprpaper wallpaper \"DP-1,/a.png\"");
    assert_eq!(
        apply_command(WallpaperBackend::Swww, "/a.png"),
        Some("swww img \"/a.png\"".to_string())
    );
    assert_eq!(apply_command(WallpaperBackend::Hyprpaper, "/a.png"), None);
    assert_eq!(apply_command(WallpaperBackend::Disabled, "/a.png"), None);
}
