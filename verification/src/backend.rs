//! The wallpaper backend kinds and their capability table: daemon process
//! name, apply-command templates, per-monitor and animated-format support.

use vstd::prelude::*;
use crate::strutil::{lower, str_eq_ci};
use vstd::string::{StrSliceExecFns, StringExecFns};

verus! {

/// One of the interchangeable external wallpaper-setting tools, plus a
/// no-op `Disabled` kind that applies nothing and always succeeds.
#[derive(Clone, Copy, PartialEq, Eq, Structural, Debug)]
pub enum WallpaperBackend {
    Disabled,
    Hyprpaper,
    Swaybg,
    Swww,
    Wallutils,
    Feh,
}

/// The kind keeps a long-lived daemon process running.
pub open spec fn has_daemon(kind: WallpaperBackend) -> bool {
    kind == WallpaperBackend::Hyprpaper || kind == WallpaperBackend::Swaybg || kind
        == WallpaperBackend::Swww
}

/// The kind applies one command per attached monitor.
pub open spec fn per_monitor(kind: WallpaperBackend) -> bool {
    kind == WallpaperBackend::Hyprpaper
}

/// The kind can display animated images.
pub open spec fn supports_animated(kind: WallpaperBackend) -> bool {
    kind == WallpaperBackend::Swww
}

/// Whether the kind can display animated images, for the scanner's
/// accepted-format set.
pub fn backend_supports_animated(kind: WallpaperBackend) -> (r: bool)
    ensures
        r == supports_animated(kind),
{
    kind == WallpaperBackend::Swww
}

/// The kind has a "clear all wallpapers" command.
pub open spec fn supports_clear(kind: WallpaperBackend) -> bool {
    kind == WallpaperBackend::Hyprpaper || kind == WallpaperBackend::Swww
}

/// The kind's apply command forks a painter process without confirming
/// readiness, so success is probed by a liveness check after a fixed delay.
pub open spec fn apply_forks(kind: WallpaperBackend) -> bool {
    kind == WallpaperBackend::Swaybg
}

/// Daemon process name of a kind that has one.
pub open spec fn daemon_name_spec(kind: WallpaperBackend) -> Seq<char> {
    match kind {
        WallpaperBackend::Hyprpaper => "hyprpaper"@,
        WallpaperBackend::Swaybg => "swaybg"@,
        WallpaperBackend::Swww => "swww-daemon"@,
        _ => Seq::empty(),
    }
}

/// Daemon process name, or `None` for one-shot tools and `Disabled`.
pub fn daemon_name(kind: WallpaperBackend) -> (r: Option<&'static str>)
    ensures
        r is Some <==> has_daemon(kind),
        r is Some ==> r->0@ == daemon_name_spec(kind),
{
    match kind {
        WallpaperBackend::Hyprpaper => Some("hyprpaper"),
        WallpaperBackend::Swaybg => Some("swaybg"),
        WallpaperBackend::Swww => Some("swww-daemon"),
        _ => None,
    }
}

/// Command that starts the kind's daemon.
pub open spec fn start_command_spec(kind: WallpaperBackend) -> Seq<char> {
    match kind {
        WallpaperBackend::Hyprpaper => "hyprpaper"@,
        WallpaperBackend::Swaybg => "swaybg"@,
        WallpaperBackend::Swww => "swww-daemon 2>/dev/null"@,
        _ => Seq::empty(),
    }
}

pub fn start_command(kind: WallpaperBackend) -> (r: Option<&'static str>)
    ensures
        r is Some <==> has_daemon(kind),
        r is Some ==> r->0@ == start_command_spec(kind),
{
    match kind {
        WallpaperBackend::Hyprpaper => Some("hyprpaper"),
        WallpaperBackend::Swaybg => Some("swaybg"),
        WallpaperBackend::Swww => Some("swww-daemon 2>/dev/null"),
        _ => None,
    }
}

/// Command that clears every wallpaper the kind has put up.
pub open spec fn clear_command_spec(kind: WallpaperBackend) -> Seq<char> {
    match kind {
        WallpaperBackend::Hyprpaper => "hyprctl hyprpaper unload all"@,
        WallpaperBackend::Swww => "swww clear"@,
        _ => Seq::empty(),
    }
}

pub fn clear_command(kind: WallpaperBackend) -> (r: Option<&'static str>)
    ensures
        r is Some <==> supports_clear(kind),
        r is Some ==> r->0@ == clear_command_spec(kind),
{
    match kind {
        WallpaperBackend::Hyprpaper => Some("hyprctl hyprpaper unload all"),
        WallpaperBackend::Swww => Some("swww clear"),
        _ => None,
    }
}

/// Persisted name of each kind.
pub open spec fn backend_name_spec(kind: WallpaperBackend) -> Seq<char> {
    match kind {
        WallpaperBackend::Disabled => "none"@,
        WallpaperBackend::Hyprpaper => "hyprpaper"@,
        WallpaperBackend::Swaybg => "swaybg"@,
        WallpaperBackend::Swww => "swww"@,
        WallpaperBackend::Wallutils => "wallutils"@,
        WallpaperBackend::Feh => "feh"@,
    }
}

pub fn backend_name(kind: WallpaperBackend) -> (r: &'static str)
    ensures
        r@ == backend_name_spec(kind),
{
    match kind {
        WallpaperBackend::Disabled => "none",
        WallpaperBackend::Hyprpaper => "hyprpaper",
        WallpaperBackend::Swaybg => "swaybg",
        WallpaperBackend::Swww => "swww",
        WallpaperBackend::Wallutils => "wallutils",
        WallpaperBackend::Feh => "feh",
    }
}

/// The kind whose name matches `s` up to ASCII case, if any.
pub open spec fn backend_of_name(s: Seq<char>) -> Option<WallpaperBackend> {
    if lower(s) == lower("none"@) {
        Some(WallpaperBackend::Disabled)
    } else if lower(s) == lower("hyprpaper"@) {
        Some(WallpaperBackend::Hyprpaper)
    } else if lower(s) == lower("swaybg"@) {
        Some(WallpaperBackend::Swaybg)
    } else if lower(s) == lower("swww"@) {
        Some(WallpaperBackend::Swww)
    } else if lower(s) == lower("wallutils"@) {
        Some(WallpaperBackend::Wallutils)
    } else if lower(s) == lower("feh"@) {
        Some(WallpaperBackend::Feh)
    } else {
        None
    }
}

pub fn backend_from_name(s: &str) -> (r: Option<WallpaperBackend>)
    ensures
        r == backend_of_name(s@),
{
    if str_eq_ci(s, "none") {
        Some(WallpaperBackend::Disabled)
    } else if str_eq_ci(s, "hyprpaper") {
        Some(WallpaperBackend::Hyprpaper)
    } else if str_eq_ci(s, "swaybg") {
        Some(WallpaperBackend::Swaybg)
    } else if str_eq_ci(s, "swww") {
        Some(WallpaperBackend::Swww)
    } else if str_eq_ci(s, "wallutils") {
        Some(WallpaperBackend::Wallutils)
    } else if str_eq_ci(s, "feh") {
        Some(WallpaperBackend::Feh)
    } else {
        None
    }
}

/// Every kind's persisted name parses back to that kind: the backend choice
/// survives a round trip through the settings file.
pub proof fn lemma_backend_name_round_trip(kind: WallpaperBackend)
    ensures
        backend_of_name(backend_name_spec(kind)) == Some(kind),
{
    reveal_strlit("none");
    reveal_strlit("hyprpaper");
    reveal_strlit("swaybg");
    reveal_strlit("swww");
    reveal_strlit("wallutils");
    reveal_strlit("feh");
    assert(lower("none"@) =~= lower("none"@));
    match kind {
        WallpaperBackend::Disabled => {
        },
        WallpaperBackend::Hyprpaper => {
            assert(lower("hyprpaper"@)[0] != lower("none"@)[0]);
        },
        WallpaperBackend::Swaybg => {
            assert(lower("swaybg"@).len() != lower("none"@).len());
            assert(lower("swaybg"@).len() != lower("hyprpaper"@).len());
        },
        WallpaperBackend::Swww => {
            assert(lower("swww"@)[0] != lower("none"@)[0]);
            assert(lower("swww"@).len() != lower("hyprpaper"@).len());
            assert(lower("swww"@).len() != lower("swaybg"@).len());
        },
        WallpaperBackend::Wallutils => {
            assert(lower("wallutils"@).len() != lower("none"@).len());
            assert(lower("wallutils"@)[0] != lower("hyprpaper"@)[0]);
            assert(lower("wallutils"@).len() != lower("swaybg"@).len());
            assert(lower("wallutils"@).len() != lower("swww"@).len());
        },
        WallpaperBackend::Feh => {
            assert(lower("feh"@).len() != lower("none"@).len());
            assert(lower("feh"@).len() != lower("hyprpaper"@).len());
            assert(lower("feh"@).len() != lower("swaybg"@).len());
            assert(lower("feh"@).len() != lower("swww"@).len());
            assert(lower("feh"@).len() != lower("wallutils"@).len());
        },
    }
}

/// Command that preloads `path` into hyprpaper's store.
pub open spec fn preload_command_spec(path: Seq<char>) -> Seq<char> {
    "hyprctl hyprpaper preload \""@ + path + "\""@
}

pub fn preload_command(path: &str) -> (r: String)
    ensures
        r@ == preload_command_spec(path@),
{
    let mut s: String = String::from_str("hyprctl hyprpaper preload \"");
    s.append(path);
    s.append("\"");
    s
}

/// Command that applies `path` to one named monitor (hyprpaper).
pub open spec fn monitor_command_spec(monitor: Seq<char>, path: Seq<char>) -> Seq<char> {
    "hyprctl hyprpaper wallpaper \""@ + monitor + ","@ + path + "\""@
}

pub fn monitor_command(monitor: &str, path: &str) -> (r: String)
    ensures
        r@ == monitor_command_spec(monitor@, path@),
{
    let mut s: String = String::from_str("hyprctl hyprpaper wallpaper \"");
    s.append(monitor);
    s.append(",");
    s.append(path);
    s.append("\"");
    s
}

/// Single-shot apply command for the kinds that take one (everything but
/// `Disabled` and the per-monitor hyprpaper).
pub open spec fn apply_command_spec(kind: WallpaperBackend, path: Seq<char>) -> Seq<char> {
    match kind {
        WallpaperBackend::Swaybg => "swaybg -i \""@ + path + "\" -m fill &"@,
        WallpaperBackend::Swww => "swww img \""@ + path + "\""@,
        WallpaperBackend::Wallutils => "setwallpaper \""@ + path + "\""@,
        WallpaperBackend::Feh => "feh --bg-fill \""@ + path + "\""@,
        _ => Seq::empty(),
    }
}

pub fn apply_command(kind: WallpaperBackend, path: &str) -> (r: Option<String>)
    ensures
        r is Some <==> (kind != WallpaperBackend::Disabled && !per_monitor(kind)),
        r is Some ==> r->0@ == apply_command_spec(kind, path@),
{
    match kind {
        WallpaperBackend::Swaybg => {
            let mut s: String = String::from_str("swaybg -i \"");
            s.append(path);
            s.append("\" -m fill &");
            Some(s)
        },
        WallpaperBackend::Swww => {
            let mut s: String = String::from_str("swww img \"");
            s.append(path);
            s.append("\"");
            Some(s)
        },
        WallpaperBackend::Wallutils => {
            let mut s: String = String::from_str("setwallpaper \"");
            s.append(path);
            s.append("\"");
            Some(s)
        },
        WallpaperBackend::Feh => {
            let mut s: String = String::from_str("feh --bg-fill \"");
            s.append(path);
            s.append("\"");
            Some(s)
        },
        _ => None,
    }
}

} // verus!
