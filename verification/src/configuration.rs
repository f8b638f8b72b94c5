//! Where the watcher runs: the WSL distribution and the watcher script.
use crate::text::{push_str, string_of};
use vstd::prelude::*;

verus! {

/// The WSL distribution and the path of the watcher script inside it.
#[derive(Clone, Debug)]
pub struct Configuration {
    pub distro: String,
    pub watcher_path: String,
}

/// Value name under which the distribution is stored.
pub fn distro_value_name() -> (r: &'static str)
    ensures
        r@ == "Distro"@,
{
    "Distro"
}

/// Value name under which the watcher path is stored.
pub fn watcher_path_value_name() -> (r: &'static str)
    ensures
        r@ == "WatcherPath"@,
{
    "WatcherPath"
}

/// The sources that a configuration is resolved from, each `None` when it is
/// not set: the stored values and the environment variables
/// `HERDR_WSL_DISTRO`, `HERDR_WATCHER_PATH` and `HERDR_CODEX_HOME`.
pub struct ConfigurationSources {
    pub stored_distro: Option<String>,
    pub stored_watcher_path: Option<String>,
    pub env_distro: Option<String>,
    pub env_watcher_path: Option<String>,
    pub env_codex_home: Option<String>,
}

/// The first source that is set, in order of precedence.
pub open spec fn first_of(a: Option<String>, b: Option<String>, fallback: Seq<char>) -> Seq<char> {
    match a {
        Some(s) => s@,
        None => match b {
            Some(s) => s@,
            None => fallback,
        },
    }
}

/// The watcher path below a Codex home directory.
pub open spec fn watcher_below(home: Seq<char>) -> Seq<char> {
    home + "/bin/herdr-night-watch.py"@
}

/// Resolves the configuration: the stored value first, then the environment,
/// then the defaults ("Ubuntu" and the watcher below the default Codex home).
/// A Codex home from the environment places the watcher below it.
pub fn resolve(sources: ConfigurationSources) -> (r: Configuration)
    ensures
        r.distro@ == first_of(sources.stored_distro, sources.env_distro, "Ubuntu"@),
        r.watcher_path@ == (match sources.stored_watcher_path {
            Some(s) => s@,
            None => match sources.env_watcher_path {
                Some(s) => s@,
                None => match sources.env_codex_home {
                    Some(h) => watcher_below(h@),
                    None => "/home/user/.codex/bin/herdr-night-watch.py"@,
                },
            },
        }),
{
    let ConfigurationSources {
        stored_distro,
        stored_watcher_path,
        env_distro,
        env_watcher_path,
        env_codex_home,
    } = sources;
    let distro = match stored_distro {
        Some(s) => s,
        None => match env_distro {
            Some(s) => s,
            None => string_of(&['U', 'b', 'u', 'n', 't', 'u']),
        },
    };
    proof {
        reveal_strlit("Ubuntu");
    }
    let watcher_path = match stored_watcher_path {
        Some(s) => s,
        None => match env_watcher_path {
            Some(s) => s,
            None => match env_codex_home {
                Some(h) => {
                    let mut p = h;
                    push_str(&mut p, "/bin/herdr-night-watch.py");
                    p
                },
                None => {
                    let mut p = String::new();
                    push_str(&mut p, "/home/user/.codex/bin/herdr-night-watch.py");
                    p
                },
            },
        },
    };
    Configuration { distro, watcher_path }
}

/// The per-user key of programs that start with Windows.
pub fn autostart_run_key() -> (r: &'static str)
    ensures
        r@ == "Software\\Microsoft\\Windows\\CurrentVersion\\Run"@,
{
    "Software\\Microsoft\\Windows\\CurrentVersion\\Run"
}

/// The value under which the tray app starts with Windows.
pub fn autostart_value_name() -> (r: &'static str)
    ensures
        r@ == "HerdrNightWatchTray"@,
{
    "HerdrNightWatchTray"
}

/// The command that starts the tray app: its path in double quotes.
pub fn autostart_command(executable: &str) -> (r: String)
    ensures
        r@ == "\""@ + executable@ + "\""@,
{
    let mut s = String::new();
    push_str(&mut s, "\"");
    push_str(&mut s, executable);
    push_str(&mut s, "\"");
    s
}

} // verus!
