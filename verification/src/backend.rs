//! The watcher's state as the tray app sees it, and the commands that drive
//! the watcher.
use crate::text::{
    trim, trimmed,
    chars_of, dec, push_chars, push_dec, push_str, string_of, trim_start_char,
    trim_start_matching,
};
use vstd::prelude::*;

verus! {

#[derive(Debug, Clone, Copy, PartialEq, Eq, Structural)]
pub enum CompletionAction {
    Sleep,
    Shutdown,
}

impl CompletionAction {
    /// Reads the watcher's wire value: "sleep" is sleep, anything else is
    /// shutdown.
    pub fn from_wire(value: &str) -> (r: Self)
        ensures
            r == (if value@ == "sleep"@ {
                CompletionAction::Sleep
            } else {
                CompletionAction::Shutdown
            }),
    {
        let chars = chars_of(value);
        if crate::text::eq_str(&chars, "sleep") {
            CompletionAction::Sleep
        } else {
            CompletionAction::Shutdown
        }
    }

    /// The watcher's wire value.
    pub fn as_wire(self) -> (r: &'static str)
        ensures
            r@ == wire(self),
    {
        match self {
            CompletionAction::Sleep => "sleep",
            CompletionAction::Shutdown => "shutdown",
        }
    }
}

/// Wire value of a completion action.
pub open spec fn wire(action: CompletionAction) -> Seq<char> {
    match action {
        CompletionAction::Sleep => "sleep"@,
        CompletionAction::Shutdown => "shutdown"@,
    }
}

/// Herdr's report on its agents.
#[derive(Debug, Clone, PartialEq, Eq)]
pub struct AgentSummary {
    pub available: bool,
    pub total: usize,
    pub working: usize,
    pub idle: usize,
    pub done: usize,
    pub blocked: usize,
    pub unknown: usize,
}

impl Default for AgentSummary {
    fn default() -> (r: Self)
        ensures
            !r.available,
            r.total == 0,
            r.working == 0,
            r.idle == 0,
            r.done == 0,
            r.blocked == 0,
            r.unknown == 0,
    {
        AgentSummary {
            available: false,
            total: 0,
            working: 0,
            idle: 0,
            done: 0,
            blocked: 0,
            unknown: 0,
        }
    }
}

#[derive(Debug, Clone, PartialEq, Eq)]
pub enum WatchStatus {
    Off { agents: AgentSummary, completion_action: CompletionAction, warning_seconds: u64 },
    Watching {
        targets: usize,
        live_scope: bool,
        observe_only: bool,
        quiet: bool,
        demo: bool,
        agents: AgentSummary,
        completion_action: CompletionAction,
        warning_seconds: u64,
    },
    ShutdownWarning {
        targets: usize,
        live_scope: bool,
        demo: bool,
        observe_only: bool,
        warning_seconds: u64,
        seconds_remaining: u64,
        agents: AgentSummary,
        completion_action: CompletionAction,
        network_triggered: bool,
    },
    Finished {
        outcome: String,
        agents: AgentSummary,
        completion_action: CompletionAction,
        warning_seconds: u64,
    },
}

/// The completion action that a status carries.
pub open spec fn status_action(status: WatchStatus) -> CompletionAction {
    match status {
        WatchStatus::Off { completion_action, .. } => completion_action,
        WatchStatus::Watching { completion_action, .. } => completion_action,
        WatchStatus::ShutdownWarning { completion_action, .. } => completion_action,
        WatchStatus::Finished { completion_action, .. } => completion_action,
    }
}

/// The warning period that a status carries.
pub open spec fn status_warning_seconds(status: WatchStatus) -> u64 {
    match status {
        WatchStatus::Off { warning_seconds, .. } => warning_seconds,
        WatchStatus::Watching { warning_seconds, .. } => warning_seconds,
        WatchStatus::ShutdownWarning { warning_seconds, .. } => warning_seconds,
        WatchStatus::Finished { warning_seconds, .. } => warning_seconds,
    }
}

/// The agent report that a status carries.
pub open spec fn status_agents(status: WatchStatus) -> AgentSummary {
    match status {
        WatchStatus::Off { agents, .. } => agents,
        WatchStatus::Watching { agents, .. } => agents,
        WatchStatus::ShutdownWarning { agents, .. } => agents,
        WatchStatus::Finished { agents, .. } => agents,
    }
}

pub fn completion_action(status: &WatchStatus) -> (r: CompletionAction)
    ensures
        r == status_action(*status),
{
    match status {
        WatchStatus::Off { completion_action, .. } => *completion_action,
        WatchStatus::Watching { completion_action, .. } => *completion_action,
        WatchStatus::ShutdownWarning { completion_action, .. } => *completion_action,
        WatchStatus::Finished { completion_action, .. } => *completion_action,
    }
}

pub fn warning_seconds(status: &WatchStatus) -> (r: u64)
    ensures
        r == status_warning_seconds(*status),
{
    match status {
        WatchStatus::Off { warning_seconds, .. } => *warning_seconds,
        WatchStatus::Watching { warning_seconds, .. } => *warning_seconds,
        WatchStatus::ShutdownWarning { warning_seconds, .. } => *warning_seconds,
        WatchStatus::Finished { warning_seconds, .. } => *warning_seconds,
    }
}

// ---------------------------------------------------------------------------
// The watcher's status report
// ---------------------------------------------------------------------------

/// The agents part of the watcher's `--status` report.
#[derive(Debug, Clone)]
pub struct LiveAgentsPayload {
    pub available: bool,
    pub total: usize,
    pub working: usize,
    pub idle: usize,
    pub done: usize,
    pub blocked: usize,
    pub unknown: usize,
}

/// The active run in the watcher's `--status` report.
#[derive(Debug, Clone)]
pub struct RunState {
    pub demo: bool,
    pub dry_run: bool,
    pub warning_seconds: u64,
    pub all_terminal_since: Option<String>,
    pub outcome: Option<String>,
    pub monitoring_scope: String,
    pub completion_action: String,
    /// Pane ids of the monitored targets.
    pub targets: Vec<String>,
}

/// A pending shutdown warning in the watcher's `--status` report.
#[derive(Debug, Clone)]
pub struct ShutdownWarningPayload {
    pub cancelable_until: String,
    pub seconds_remaining: u64,
    pub reason: String,
}

/// The watcher's `--status` report.
#[derive(Debug, Clone)]
pub struct StatusPayload {
    pub state: Option<RunState>,
    pub shutdown_warning: Option<ShutdownWarningPayload>,
    pub live_agents: LiveAgentsPayload,
    pub preferred_completion_action: String,
    pub preferred_warning_seconds: u64,
}

pub open spec fn agents_of(p: LiveAgentsPayload) -> AgentSummary {
    AgentSummary {
        available: p.available,
        total: p.total,
        working: p.working,
        idle: p.idle,
        done: p.done,
        blocked: p.blocked,
        unknown: p.unknown,
    }
}

pub open spec fn action_of_wire(value: Seq<char>) -> CompletionAction {
    if value == "sleep"@ {
        CompletionAction::Sleep
    } else {
        CompletionAction::Shutdown
    }
}

/// Converts the watcher's report into the displayed status.
#[verifier::spinoff_prover]
pub fn status_from_payload(payload: StatusPayload) -> (r: WatchStatus)
    ensures
        ({
            let agents = agents_of(payload.live_agents);
            let preferred_action = action_of_wire(payload.preferred_completion_action@);
            let preferred_seconds = if payload.preferred_warning_seconds == 0 {
                300
            } else {
                payload.preferred_warning_seconds
            };
            match payload.state {
                None => r == WatchStatus::Off {
                    agents,
                    completion_action: preferred_action,
                    warning_seconds: preferred_seconds,
                },
                Some(state) => {
                    let action = action_of_wire(state.completion_action@);
                    let live_scope = state.monitoring_scope@ == "live_agents"@;
                    match state.outcome {
                        Some(outcome) => r == WatchStatus::Finished {
                            outcome,
                            agents,
                            completion_action: preferred_action,
                            warning_seconds: preferred_seconds,
                        },
                        None => match payload.shutdown_warning {
                            Some(warning) => r == WatchStatus::ShutdownWarning {
                                targets: state.targets@.len() as usize,
                                live_scope,
                                demo: state.demo,
                                observe_only: state.dry_run,
                                warning_seconds: state.warning_seconds,
                                seconds_remaining: warning.seconds_remaining,
                                agents,
                                completion_action: action,
                                network_triggered: warning.reason@ == "network_unavailable"@,
                            },
                            None => r == WatchStatus::Watching {
                                targets: state.targets@.len() as usize,
                                live_scope,
                                observe_only: state.dry_run,
                                quiet: state.all_terminal_since is Some,
                                demo: state.demo,
                                agents,
                                completion_action: action,
                                warning_seconds: state.warning_seconds,
                            },
                        },
                    }
                },
            }
        }),
{
    let agents = AgentSummary {
        available: payload.live_agents.available,
        total: payload.live_agents.total,
        working: payload.live_agents.working,
        idle: payload.live_agents.idle,
        done: payload.live_agents.done,
        blocked: payload.live_agents.blocked,
        unknown: payload.live_agents.unknown,
    };
    let preferred_completion_action = CompletionAction::from_wire(
        payload.preferred_completion_action.as_str(),
    );
    let preferred_warning_seconds = if payload.preferred_warning_seconds == 0 {
        300
    } else {
        payload.preferred_warning_seconds
    };
    let state = match payload.state {
        None => {
            return WatchStatus::Off {
                agents,
                completion_action: preferred_completion_action,
                warning_seconds: preferred_warning_seconds,
            };
        },
        Some(state) => state,
    };
    let completion_action = CompletionAction::from_wire(state.completion_action.as_str());
    let targets = state.targets.len();
    let scope = chars_of(state.monitoring_scope.as_str());
    let live_scope = crate::text::eq_str(&scope, "live_agents");
    match state.outcome {
        Some(outcome) => {
            return WatchStatus::Finished {
                outcome,
                agents,
                completion_action: preferred_completion_action,
                warning_seconds: preferred_warning_seconds,
            };
        },
        None => {},
    }
    match payload.shutdown_warning {
        Some(warning) => {
            let reason = chars_of(warning.reason.as_str());
            WatchStatus::ShutdownWarning {
                targets,
                live_scope,
                demo: state.demo,
                observe_only: state.dry_run,
                warning_seconds: state.warning_seconds,
                seconds_remaining: warning.seconds_remaining,
                agents,
                completion_action,
                network_triggered: crate::text::eq_str(&reason, "network_unavailable"),
            }
        },
        None => WatchStatus::Watching {
            targets,
            live_scope,
            observe_only: state.dry_run,
            quiet: state.all_terminal_since.is_some(),
            demo: state.demo,
            agents,
            completion_action,
            warning_seconds: state.warning_seconds,
        },
    }
}

// ---------------------------------------------------------------------------
// Commands
// ---------------------------------------------------------------------------

/// Where the watcher lives: the WSL distribution and the Codex home inside it.
#[derive(Debug, Clone)]
pub struct BackendEnvironment {
    pub distro: String,
    pub codex_home: String,
}

/// A process to run: program, arguments, and the label that its error
/// messages carry.
#[derive(Debug, Clone)]
pub struct BackendCommand {
    pub program: String,
    pub args: Vec<String>,
    pub label: &'static str,
}

/// `{codex_home}/bin/herdr-night-watch.py`.
pub open spec fn watcher_path_of(codex_home: Seq<char>) -> Seq<char> {
    codex_home + "/bin/herdr-night-watch.py"@
}

pub fn watcher_path(env: &BackendEnvironment) -> (r: String)
    ensures
        r@ == watcher_path_of(env.codex_home@),
{
    let mut r = env.codex_home.clone();
    push_str(&mut r, "/bin/herdr-night-watch.py");
    r
}

/// A WSL path with `/` turned into `\`.
pub open spec fn backslashed(s: Seq<char>) -> Seq<char> {
    s.map_values(|c: char| if c == '/' { '\\' } else { c })
}

/// `\\wsl.localhost\{distro}\{codex_home without leading /, with \}\windows\{script}`.
pub open spec fn windows_script_path_of(
    distro: Seq<char>,
    codex_home: Seq<char>,
    script: Seq<char>,
) -> Seq<char> {
    "\\\\wsl.localhost\\"@ + distro + "\\"@ + backslashed(trim_start_char(codex_home, '/'))
        + "\\windows\\"@ + script
}

pub fn windows_script_path(env: &BackendEnvironment, script: &str) -> (r: String)
    ensures
        r@ == windows_script_path_of(env.distro@, env.codex_home@, script@),
{
    let home = chars_of(env.codex_home.as_str());
    let trimmed = trim_start_matching(&home, '/');
    let mut path: Vec<char> = Vec::new();
    let mut i: usize = 0;
    while i < trimmed.len()
        invariant
            i <= trimmed@.len(),
            path@ == backslashed(trimmed@.take(i as int)),
        decreases trimmed@.len() - i,
    {
        let c = trimmed[i];
        path.push(
            if c == '/' {
                '\\'
            } else {
                c
            },
        );
        i += 1;
        assert(path@ =~= backslashed(trimmed@.take(i as int)));
    }
    assert(trimmed@.take(trimmed@.len() as int) == trimmed@);
    let mut r = String::new();
    push_str(&mut r, "\\\\wsl.localhost\\");
    push_str(&mut r, env.distro.as_str());
    push_str(&mut r, "\\");
    push_chars(&mut r, &path);
    push_str(&mut r, "\\windows\\");
    push_str(&mut r, script);
    assert(r@ =~= windows_script_path_of(env.distro@, env.codex_home@, script@));
    r
}

fn owned(s: &str) -> (r: String)
    ensures
        r@ == s@,
{
    let chars = chars_of(s);
    string_of(&chars)
}

/// `wsl.exe -d {distro} --exec /usr/bin/python3 {watcher} {args…}`.
pub open spec fn watcher_args(env: BackendEnvironment, extra: Seq<Seq<char>>) -> Seq<Seq<char>> {
    seq!["-d"@, env.distro@, "--exec"@, "/usr/bin/python3"@, watcher_path_of(env.codex_home@)]
        + extra
}

/// `powershell.exe -NoProfile -ExecutionPolicy Bypass -File {script path} {args…}`.
pub open spec fn powershell_args(env: BackendEnvironment, script: Seq<char>, extra: Seq<
    Seq<char>,
>) -> Seq<Seq<char>> {
    seq![
        "-NoProfile"@,
        "-ExecutionPolicy"@,
        "Bypass"@,
        "-File"@,
        windows_script_path_of(env.distro@, env.codex_home@, script),
    ] + extra
}

/// The character views of a list of strings.
pub open spec fn string_views(v: Seq<String>) -> Seq<Seq<char>> {
    Seq::new(v.len(), |i: int| v[i]@)
}

fn watcher_command(env: &BackendEnvironment, label: &'static str) -> (r: BackendCommand)
    ensures
        r.program@ == "wsl.exe"@,
        string_views(r.args@) == watcher_args(*env, seq![]),
        r.label == label,
{
    let mut args: Vec<String> = Vec::new();
    args.push(owned("-d"));
    args.push(env.distro.clone());
    args.push(owned("--exec"));
    args.push(owned("/usr/bin/python3"));
    args.push(watcher_path(env));
    assert(string_views(args@) =~= watcher_args(*env, seq![]));
    BackendCommand { program: owned("wsl.exe"), args, label }
}

fn powershell_command(env: &BackendEnvironment, script: &str, label: &'static str) -> (r:
    BackendCommand)
    ensures
        r.program@ == "powershell.exe"@,
        string_views(r.args@) == powershell_args(*env, script@, seq![]),
        r.label == label,
{
    let mut args: Vec<String> = Vec::new();
    args.push(owned("-NoProfile"));
    args.push(owned("-ExecutionPolicy"));
    args.push(owned("Bypass"));
    args.push(owned("-File"));
    args.push(windows_script_path(env, script));
    assert(string_views(args@) =~= powershell_args(*env, script@, seq![]));
    BackendCommand { program: owned("powershell.exe"), args, label }
}

fn push_arg(cmd: &mut BackendCommand, arg: String)
    ensures
        final(cmd).program == old(cmd).program,
        final(cmd).label == old(cmd).label,
        string_views(final(cmd).args@) == string_views(old(cmd).args@).push(arg@),
{
    cmd.args.push(arg);
    assert(string_views(cmd.args@) =~= string_views(old(cmd).args@).push(arg@));
}

/// The watcher's status query.
pub fn status_command(env: &BackendEnvironment) -> (r: BackendCommand)
    ensures
        r.program@ == "wsl.exe"@,
        string_views(r.args@) == watcher_args(*env, seq!["--status"@]),
        r.label@ == "Herdr-Statusabfrage"@,
{
    let mut cmd = watcher_command(env, "Herdr-Statusabfrage");
    push_arg(&mut cmd, owned("--status"));
    cmd
}

/// Starts a night run, or an observation run without power action.
pub fn start(env: &BackendEnvironment, observe_only: bool) -> (r: BackendCommand)
    ensures
        r.program@ == "powershell.exe"@,
        string_views(r.args@) == powershell_args(
            *env,
            "Start-HerdrNightWatch.ps1"@,
            if observe_only {
                seq!["-DryRun"@]
            } else {
                seq![]
            },
        ),
        r.label@ == "Herdr-Nachtwächter"@,
{
    let mut cmd = powershell_command(env, "Start-HerdrNightWatch.ps1", "Herdr-Nachtwächter");
    if observe_only {
        push_arg(&mut cmd, owned("-DryRun"));
    }
    assert(string_views(cmd.args@) =~= powershell_args(
        *env,
        "Start-HerdrNightWatch.ps1"@,
        if observe_only {
            seq!["-DryRun"@]
        } else {
            seq![]
        },
    ));
    cmd
}

/// Starts the demo run.
pub fn demo(env: &BackendEnvironment) -> (r: BackendCommand)
    ensures
        r.program@ == "powershell.exe"@,
        string_views(r.args@) == powershell_args(*env, "Start-HerdrNightWatch.ps1"@, seq!["-Demo"@]),
        r.label@ == "Herdr-Nachtwächter-Demo"@,
{
    let mut cmd = powershell_command(env, "Start-HerdrNightWatch.ps1", "Herdr-Nachtwächter-Demo");
    push_arg(&mut cmd, owned("-Demo"));
    cmd
}

/// Stops the night run; `source` names who cancelled.
pub fn stop(env: &BackendEnvironment, source: &str) -> (r: BackendCommand)
    ensures
        r.program@ == "powershell.exe"@,
        string_views(r.args@) == powershell_args(
            *env,
            "Stop-HerdrNightWatch.ps1"@,
            seq!["-CancelSource"@, source@],
        ),
        r.label@ == "Herdr-Nachtwächter"@,
{
    let mut cmd = powershell_command(env, "Stop-HerdrNightWatch.ps1", "Herdr-Nachtwächter");
    push_arg(&mut cmd, owned("-CancelSource"));
    push_arg(&mut cmd, owned(source));
    assert(string_views(cmd.args@) =~= powershell_args(
        *env,
        "Stop-HerdrNightWatch.ps1"@,
        seq!["-CancelSource"@, source@],
    ));
    cmd
}

/// Confirms the completion at once (skips the rest of the warning period).
pub fn confirm_completion(env: &BackendEnvironment) -> (r: BackendCommand)
    ensures
        r.program@ == "wsl.exe"@,
        string_views(r.args@) == watcher_args(*env, seq!["--confirm"@]),
        r.label@ == "Sofortiger Abschluss"@,
{
    let mut cmd = watcher_command(env, "Sofortiger Abschluss");
    push_arg(&mut cmd, owned("--confirm"));
    cmd
}

/// Stores the preferred completion action.
pub fn set_completion_action(env: &BackendEnvironment, action: CompletionAction) -> (r:
    BackendCommand)
    ensures
        r.program@ == "wsl.exe"@,
        string_views(r.args@) == watcher_args(
            *env,
            seq!["--set-completion-action"@, wire(action)],
        ),
        r.label@ == "Abschlussmodus"@,
{
    let mut cmd = watcher_command(env, "Abschlussmodus");
    push_arg(&mut cmd, owned("--set-completion-action"));
    push_arg(&mut cmd, owned(action.as_wire()));
    assert(string_views(cmd.args@) =~= watcher_args(
        *env,
        seq!["--set-completion-action"@, wire(action)],
    ));
    cmd
}

/// Stores the preferred warning period.
pub fn set_warning_seconds(env: &BackendEnvironment, seconds: u64) -> (r: BackendCommand)
    ensures
        r.program@ == "wsl.exe"@,
        string_views(r.args@) == watcher_args(
            *env,
            seq!["--set-warning-seconds"@, dec(seconds as nat)],
        ),
        r.label@ == "Warnfrist"@,
{
    let mut cmd = watcher_command(env, "Warnfrist");
    push_arg(&mut cmd, owned("--set-warning-seconds"));
    let mut n = String::new();
    push_dec(&mut n, seconds);
    push_arg(&mut cmd, n);
    assert(string_views(cmd.args@) =~= watcher_args(
        *env,
        seq!["--set-warning-seconds"@, dec(seconds as nat)],
    ));
    cmd
}

/// `\\wsl.localhost\{distro}\home\user\.local\state\herdr-night-watch\watch.log`,
/// opened with Notepad.
pub fn open_log(env: &BackendEnvironment) -> (r: BackendCommand)
    ensures
        r.program@ == "notepad.exe"@,
        string_views(r.args@) == seq![
            "\\\\wsl.localhost\\"@ + env.distro@
                + "\\home\\user\\.local\\state\\herdr-night-watch\\watch.log"@,
        ],
        r.label@ == "Protokoll"@,
{
    let mut path = String::new();
    push_str(&mut path, "\\\\wsl.localhost\\");
    push_str(&mut path, env.distro.as_str());
    push_str(&mut path, "\\home\\user\\.local\\state\\herdr-night-watch\\watch.log");
    let mut args: Vec<String> = Vec::new();
    args.push(path);
    assert(string_views(args@) =~= seq![
        "\\\\wsl.localhost\\"@ + env.distro@
            + "\\home\\user\\.local\\state\\herdr-night-watch\\watch.log"@,
    ]);
    BackendCommand { program: owned("notepad.exe"), args, label: "Protokoll" }
}


/// The error of a command that ran but failed: its label, and what it wrote
/// to its error output (trimmed) when that is not empty.
pub fn command_failure_message(label: &str, stderr_text: &str) -> (r: String)
    ensures
        trim(stderr_text@).len() == 0 ==> r@ == label@ + " fehlgeschlagen"@,
        trim(stderr_text@).len() > 0 ==> r@ == label@ + " fehlgeschlagen: "@ + trim(stderr_text@),
{
    let v = chars_of(stderr_text);
    let detail = trimmed(&v);
    let mut s = String::new();
    push_str(&mut s, label);
    if detail.len() > 0 {
        push_str(&mut s, " fehlgeschlagen: ");
        push_chars(&mut s, &detail);
    } else {
        push_str(&mut s, " fehlgeschlagen");
    }
    s
}

/// The error of a command that could not be started.
pub fn launch_failure_message(label: &str) -> (r: String)
    ensures
        r@ == label@ + " konnte nicht gestartet werden"@,
{
    let mut s = String::new();
    push_str(&mut s, label);
    push_str(&mut s, " konnte nicht gestartet werden");
    s
}

} // verus!
