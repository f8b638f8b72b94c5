//! The live-status window as the tray app manages it: which native window is
//! the live window, when it is ready, how an open attempt proceeds and is
//! retried, where a saved position lands on the attached monitors, and the
//! small texts and choices of the live window.
use crate::backend::{
    AgentSummary, BackendCommand, BackendEnvironment, CompletionAction, WatchStatus,
    powershell_args, status_action, string_views, watcher_args, wire,
};
use crate::clock::{duration_nanos_of, elapsed_nanos};
use crate::language::Language;
use crate::quota::lang;
use crate::text::{
    chars_of, dec, eq_str, pad2, parse_bounded, parse_u32, parse_unsigned, push_chars, push_dec,
    push_pad2, push_str, starts_with, starts_with_str, subvec, trim, trimmed,
};
use crate::window_settings::WindowLevel;
use vstd::prelude::*;

verus! {

// ---------------------------------------------------------------------------
// Timing of an open attempt
// ---------------------------------------------------------------------------

/// How long a started live process may take to create its window.
pub const LIVE_WINDOW_START_TIMEOUT_SECS: u64 = 30;

/// How long a created window may stay unpainted.
pub const LIVE_WINDOW_VISIBLE_TIMEOUT_SECS: u64 = 30;

/// How many processes one open attempt starts at most.
pub const LIVE_WINDOW_START_ATTEMPTS: usize = 3;

/// Pause before a plain respawn.
pub const LIVE_WINDOW_RETRY_DELAY_SECS: u64 = 2;

/// How long a freshly opened window is watched for an early death.
pub const LIVE_WINDOW_POST_OPEN_GUARD_SECS: u64 = 60;

/// Pause before a respawn after the window died shortly after opening or
/// never got painted: the graphics stack gets more time to wake up.
pub const LIVE_WINDOW_GUARD_RETRY_DELAY_SECS: u64 = 10;

/// Smallest size of a window that counts as painted.
pub const LIVE_WINDOW_MIN_READY_WIDTH: i32 = 80;

pub const LIVE_WINDOW_MIN_READY_HEIGHT: i32 = 40;

/// Whether another process may be started after attempt number `attempt`
/// (counted from 1) failed.
pub fn live_window_attempt_can_retry(attempt: usize) -> (r: bool)
    ensures
        r == (attempt < LIVE_WINDOW_START_ATTEMPTS),
{
    attempt < LIVE_WINDOW_START_ATTEMPTS
}

/// Log detail when the process never created a window.
pub open spec fn no_window_timeout_text() -> Seq<char> {
    "Live-Status-Prozess läuft, aber nach "@ + dec(LIVE_WINDOW_START_TIMEOUT_SECS as nat)
        + " Sekunden wurde kein Fenster gefunden"@
}

/// Log detail when the window was never painted.
pub open spec fn unpainted_timeout_text() -> Seq<char> {
    "Live-Status-Fenster wurde gefunden, blieb aber nach "@ + dec(
        LIVE_WINDOW_VISIBLE_TIMEOUT_SECS as nat,
    ) + " Sekunden ungezeichnet"@
}

pub fn no_window_timeout_detail() -> (r: String)
    ensures
        r@ == no_window_timeout_text(),
{
    let mut s = String::new();
    push_str(&mut s, "Live-Status-Prozess läuft, aber nach ");
    push_dec(&mut s, LIVE_WINDOW_START_TIMEOUT_SECS);
    push_str(&mut s, " Sekunden wurde kein Fenster gefunden");
    s
}

pub fn unpainted_timeout_detail() -> (r: String)
    ensures
        r@ == unpainted_timeout_text(),
{
    let mut s = String::new();
    push_str(&mut s, "Live-Status-Fenster wurde gefunden, blieb aber nach ");
    push_dec(&mut s, LIVE_WINDOW_VISIBLE_TIMEOUT_SECS);
    push_str(&mut s, " Sekunden ungezeichnet");
    s
}

/// Log event of a failed open.
pub fn open_failure_event() -> (r: &'static str)
    ensures
        r@ == "live_status_open_failed"@,
{
    "live_status_open_failed"
}

/// Log event of a crash of the live window.
pub fn panic_event() -> (r: &'static str)
    ensures
        r@ == "live_status_panic"@,
{
    "live_status_panic"
}

/// A crash and a failed open are logged as different events.
pub proof fn lemma_failure_events_differ()
    ensures
        "live_status_open_failed"@ != "live_status_panic"@,
{
    reveal_strlit("live_status_open_failed");
    reveal_strlit("live_status_panic");
    assert("live_status_open_failed"@.len() != "live_status_panic"@.len());
}

// ---------------------------------------------------------------------------
// Recognizing the live window
// ---------------------------------------------------------------------------

pub open spec fn live_title_text(language: Language) -> Seq<char> {
    match language {
        Language::German => "Herdr-Nachtwächter - Live-Status"@,
        Language::English => "Herdr Night Watch - Live Status"@,
    }
}

/// Title of the live window.
pub fn live_title(language: Language) -> (r: &'static str)
    ensures
        r@ == live_title_text(language),
{
    language.text("Herdr-Nachtwächter - Live-Status", "Herdr Night Watch - Live Status")
}

/// A window title is the live window's title in one of the languages.
pub open spec fn live_window_title(title: Seq<char>) -> bool {
    title == live_title_text(Language::German) || title == live_title_text(Language::English)
}

pub fn is_live_window_title(title: &str) -> (r: bool)
    ensures
        r == live_window_title(title@),
{
    let v = chars_of(title);
    eq_str(&v, "Herdr-Nachtwächter - Live-Status") || eq_str(&v, "Herdr Night Watch - Live Status")
}

/// Window classes of helper windows that the same process owns: the tray
/// icon's window, winit's event target and the IME windows.
pub open spec fn helper_class(class: Seq<char>) -> bool {
    class == "tray_icon_app"@ || class == "Winit Thread Event Target"@ || class == "MSCTFIME UI"@
        || class == "IME"@
}

pub fn is_helper_window_class(class: &str) -> (r: bool)
    ensures
        r == helper_class(class@),
{
    let v = chars_of(class);
    eq_str(&v, "tray_icon_app") || eq_str(&v, "Winit Thread Event Target") || eq_str(
        &v,
        "MSCTFIME UI",
    ) || eq_str(&v, "IME")
}

/// The tiny event-target window that winit creates next to the real one.
pub open spec fn dummy_window(minimized: bool, width: i32, height: i32) -> bool {
    !minimized && width > 0 && height > 0 && width < LIVE_WINDOW_MIN_READY_WIDTH && height
        < LIVE_WINDOW_MIN_READY_HEIGHT
}

pub fn is_dummy_event_target_window(visible: bool, minimized: bool, width: i32, height: i32) -> (r:
    bool)
    ensures
        r == dummy_window(minimized, width, height),
{
    !minimized && width > 0 && height > 0 && width < LIVE_WINDOW_MIN_READY_WIDTH && height
        < LIVE_WINDOW_MIN_READY_HEIGHT
}

/// A titled window may be the live window unless it is the dummy.
pub fn is_live_window_candidate(visible: bool, minimized: bool, width: i32, height: i32) -> (r:
    bool)
    ensures
        r == (minimized || !dummy_window(minimized, width, height)),
{
    if minimized {
        return true;
    }
    !is_dummy_event_target_window(visible, minimized, width, height)
}

/// An untitled window may be the live window when it is minimized or has at
/// least the ready size.
pub open spec fn untitled_live(minimized: bool, width: i32, height: i32) -> bool {
    minimized || (!dummy_window(minimized, width, height) && width >= LIVE_WINDOW_MIN_READY_WIDTH
        && height >= LIVE_WINDOW_MIN_READY_HEIGHT)
}

pub fn untitled_window_can_be_live(visible: bool, minimized: bool, width: i32, height: i32) -> (r:
    bool)
    ensures
        r == untitled_live(minimized, width, height),
{
    if minimized {
        return true;
    }
    !is_dummy_event_target_window(visible, minimized, width, height) && width
        >= LIVE_WINDOW_MIN_READY_WIDTH && height >= LIVE_WINDOW_MIN_READY_HEIGHT
}

/// Whether the opener may show a window: not the dummy, and minimized, still
/// without a size, or at least the ready size.
pub open spec fn showable_window(minimized: bool, width: i32, height: i32) -> bool {
    !dummy_window(minimized, width, height) && (minimized || width <= 0 || height <= 0 || (width
        >= LIVE_WINDOW_MIN_READY_WIDTH && height >= LIVE_WINDOW_MIN_READY_HEIGHT))
}

pub fn is_showable_live_window(visible: bool, minimized: bool, width: i32, height: i32) -> (r:
    bool)
    ensures
        r == showable_window(minimized, width, height),
{
    if is_dummy_event_target_window(visible, minimized, width, height) {
        return false;
    }
    if minimized {
        return true;
    }
    if width <= 0 || height <= 0 {
        return true;
    }
    width >= LIVE_WINDOW_MIN_READY_WIDTH && height >= LIVE_WINDOW_MIN_READY_HEIGHT
}

/// A window has presented itself: minimized, or visible at the ready size.
pub open spec fn ready_window(visible: bool, minimized: bool, width: i32, height: i32) -> bool {
    minimized || (visible && width >= LIVE_WINDOW_MIN_READY_WIDTH && height
        >= LIVE_WINDOW_MIN_READY_HEIGHT)
}

pub fn is_ready_live_window(visible: bool, minimized: bool, width: i32, height: i32) -> (r: bool)
    ensures
        r == ready_window(visible, minimized, width, height),
{
    if minimized {
        return true;
    }
    visible && width >= LIVE_WINDOW_MIN_READY_WIDTH && height >= LIVE_WINDOW_MIN_READY_HEIGHT
}

/// A ready window is never the dummy, and can always be shown; the dummy is
/// never shown.
pub proof fn lemma_ready_window_is_showable(visible: bool, minimized: bool, width: i32, height: i32)
    ensures
        ready_window(visible, minimized, width, height) ==> !dummy_window(minimized, width, height)
            && showable_window(minimized, width, height),
        dummy_window(minimized, width, height) ==> !showable_window(minimized, width, height),
{
}

/// What is known of a native window when looking for the live window.
#[derive(Clone, Debug)]
pub struct LiveWindowFacts {
    pub title: String,
    pub class: String,
    pub visible: bool,
    pub minimized: bool,
    pub width: i32,
    pub height: i32,
    pub pid: u32,
}

/// The score of a window as the live window: `None` when it cannot be it;
/// otherwise titled windows (2) beat untitled ones (1), then larger ones win.
pub open spec fn window_score(
    facts: LiveWindowFacts,
    required_pid: Option<u32>,
    exclude_pid: Option<u32>,
) -> Option<(i32, i64)> {
    let titled = facts.title@.len() > 0;
    if helper_class(facts.class@) {
        None
    } else if required_pid is Some && facts.pid != required_pid->0 {
        None
    } else if exclude_pid is Some && facts.pid == exclude_pid->0 {
        None
    } else if titled && !live_window_title(facts.title@) {
        None
    } else if dummy_window(facts.minimized, facts.width, facts.height) {
        None
    } else if !titled && !untitled_live(facts.minimized, facts.width, facts.height) {
        None
    } else if titled && !(facts.minimized || !dummy_window(
        facts.minimized,
        facts.width,
        facts.height,
    )) {
        None
    } else {
        Some(
            (
                if titled {
                    2i32
                } else {
                    1i32
                },
                (facts.width as i64 * facts.height as i64) as i64,
            ),
        )
    }
}

pub fn score_live_window_facts(
    facts: &LiveWindowFacts,
    required_pid: Option<u32>,
    exclude_pid: Option<u32>,
) -> (r: Option<(i32, i64)>)
    ensures
        r == window_score(*facts, required_pid, exclude_pid),
{
    if is_helper_window_class(facts.class.as_str()) {
        return None;
    }
    if let Some(required) = required_pid {
        if facts.pid != required {
            return None;
        }
    }
    if let Some(excluded) = exclude_pid {
        if facts.pid == excluded {
            return None;
        }
    }
    let titled = facts.title.unicode_len() > 0;
    if titled && !is_live_window_title(facts.title.as_str()) {
        return None;
    }
    if is_dummy_event_target_window(facts.visible, facts.minimized, facts.width, facts.height) {
        return None;
    }
    if !titled && !untitled_window_can_be_live(
        facts.visible,
        facts.minimized,
        facts.width,
        facts.height,
    ) {
        return None;
    }
    if titled && !is_live_window_candidate(
        facts.visible,
        facts.minimized,
        facts.width,
        facts.height,
    ) {
        return None;
    }
    let score: i32 = if titled {
        2
    } else {
        1
    };
    proof {
        let w = facts.width as int;
        let h = facts.height as int;
        assert(-4611686018427387904 <= w * h <= 4611686018427387904) by (nonlinear_arith)
            requires
                -2147483648 <= w <= 2147483647,
                -2147483648 <= h <= 2147483647,
        ;
    }
    Some((score, facts.width as i64 * facts.height as i64))
}

/// The tray's helper windows (and the input-method helpers) and the tiny
/// event-target window never count as the live window, whatever their
/// title, size or process.
pub proof fn lemma_helpers_never_score(
    facts: LiveWindowFacts,
    required_pid: Option<u32>,
    exclude_pid: Option<u32>,
)
    ensures
        helper_class(facts.class@) ==> window_score(facts, required_pid, exclude_pid) is None,
        dummy_window(facts.minimized, facts.width, facts.height) ==> window_score(
            facts,
            required_pid,
            exclude_pid,
        ) is None,
{
}

// ---------------------------------------------------------------------------
// Open attempts
// ---------------------------------------------------------------------------

/// What to do about a live window that already exists.
#[derive(Clone, Copy, Debug, PartialEq, Eq, Structural)]
pub enum ExistingWindowDisposition {
    /// It is ready: bring it to the front.
    Activate,
    /// It belongs to the attempt this process is watching: leave it be.
    WaitForActiveAttempt,
    /// It is stuck: end its process (when known) and start a new one.
    Replace(Option<u32>),
}

pub fn existing_window_disposition(
    ready: bool,
    window_pid: Option<u32>,
    active_child_pid: Option<u32>,
) -> (r: ExistingWindowDisposition)
    ensures
        r == (if ready {
            ExistingWindowDisposition::Activate
        } else if window_pid is Some && window_pid == active_child_pid {
            ExistingWindowDisposition::WaitForActiveAttempt
        } else {
            ExistingWindowDisposition::Replace(window_pid)
        }),
{
    if ready {
        ExistingWindowDisposition::Activate
    } else if window_pid.is_some() && window_pid == active_child_pid {
        ExistingWindowDisposition::WaitForActiveAttempt
    } else {
        ExistingWindowDisposition::Replace(window_pid)
    }
}

/// What a second live process does when the instance is taken.
#[derive(Clone, Copy, Debug, PartialEq, Eq)]
pub enum DuplicateInstanceDisposition<H> {
    /// The other instance's window is ready: activate it and leave.
    Activate(H),
    /// Try again to take the instance.
    Retry,
}

/// `ready` is whether the found window is ready; it is not looked at when no
/// window was found.
pub fn duplicate_instance_disposition<H: Copy>(hwnd: Option<H>, ready: bool) -> (r:
    DuplicateInstanceDisposition<H>)
    ensures
        r == (match hwnd {
            Some(h) => if ready {
                DuplicateInstanceDisposition::Activate(h)
            } else {
                DuplicateInstanceDisposition::Retry
            },
            None => DuplicateInstanceDisposition::Retry,
        }),
{
    match hwnd {
        Some(h) => if ready {
            DuplicateInstanceDisposition::Activate(h)
        } else {
            DuplicateInstanceDisposition::Retry
        },
        None => DuplicateInstanceDisposition::Retry,
    }
}

/// What the started process has done so far.
#[derive(Clone, Debug)]
pub enum ChildState {
    Running,
    /// It ended with exit code 0.
    ExitedCleanly,
    /// It ended otherwise; carries the exit status as text.
    Exited(String),
    /// Its state could not be read; carries the error.
    Unknown(String),
}

/// One look at a starting live process, with the elapsed times in
/// milliseconds.
pub struct WatchObservation {
    /// A window of the process has been found (now or earlier).
    pub window_found: bool,
    /// The found window is ready.
    pub window_ready: bool,
    pub child: ChildState,
    /// Time since the process was started.
    pub since_start_ms: u64,
    /// Time since its window was found (`None` while none is found).
    pub since_found_ms: Option<u64>,
}

/// What the watcher of a starting process does next.
#[derive(Clone, Debug)]
pub enum WatchDecision {
    /// The window presented itself.
    Ready,
    /// The process ended cleanly before presenting: the user closed it.
    ExitedCleanly,
    /// The process ended; carries the log detail.
    Exited(String),
    /// Kill the process and report it ended; carries the log detail.
    KillExited(String),
    /// Kill the process: no window came up in time.
    NoWindowTimeout,
    /// Kill the process: its window stayed unpainted.
    UnpaintedTimeout,
    /// Look again after the poll interval.
    Wait,
}

pub open spec fn exited_text(status: Seq<char>) -> Seq<char> {
    "Live-Status-Prozess wurde beendet, bevor ein Fenster sichtbar wurde ("@ + status + ")"@
}

pub open spec fn unknown_state_text(error: Seq<char>) -> Seq<char> {
    "Live-Status-Fenster wurde nicht sichtbar; Prozessstatus konnte nicht geprüft werden: "@
        + error
}

/// Decides one step of watching a starting live process: readiness first,
/// then the process's end, then the two timeouts.
pub fn watch_step(obs: &WatchObservation) -> (r: WatchDecision)
    ensures
        obs.window_found && obs.window_ready ==> r is Ready,
        !(obs.window_found && obs.window_ready) ==> (match obs.child {
            ChildState::ExitedCleanly => r is ExitedCleanly,
            ChildState::Exited(status) => r matches WatchDecision::Exited(d) && d@ == exited_text(
                status@,
            ),
            ChildState::Unknown(error) => r matches WatchDecision::KillExited(d) && d@
                == unknown_state_text(error@),
            ChildState::Running => if !obs.window_found && obs.since_start_ms >= 30_000 {
                r is NoWindowTimeout
            } else if (match obs.since_found_ms {
                Some(ms) => ms >= 30_000,
                None => false,
            }) {
                r is UnpaintedTimeout
            } else {
                r is Wait
            },
        }),
{
    if obs.window_found && obs.window_ready {
        return WatchDecision::Ready;
    }
    match &obs.child {
        ChildState::ExitedCleanly => WatchDecision::ExitedCleanly,
        ChildState::Exited(status) => {
            let mut d = String::new();
            push_str(&mut d, "Live-Status-Prozess wurde beendet, bevor ein Fenster sichtbar wurde (");
            push_str(&mut d, status.as_str());
            push_str(&mut d, ")");
            WatchDecision::Exited(d)
        },
        ChildState::Unknown(error) => {
            let mut d = String::new();
            push_str(
                &mut d,
                "Live-Status-Fenster wurde nicht sichtbar; Prozessstatus konnte nicht geprüft werden: ",
            );
            push_str(&mut d, error.as_str());
            WatchDecision::KillExited(d)
        },
        ChildState::Running => {
            if !obs.window_found && obs.since_start_ms >= LIVE_WINDOW_START_TIMEOUT_SECS * 1000 {
                WatchDecision::NoWindowTimeout
            } else if match obs.since_found_ms {
                Some(ms) => ms >= LIVE_WINDOW_VISIBLE_TIMEOUT_SECS * 1000,
                None => false,
            } {
                WatchDecision::UnpaintedTimeout
            } else {
                WatchDecision::Wait
            }
        },
    }
}

/// How one started process of an open attempt ended.
#[derive(Clone, Debug)]
pub enum AttemptOutcome {
    /// The window opened and stayed, or the user closed it.
    Done,
    /// The window opened but the process died soon after; carries the detail.
    DiedAfterOpening(String),
    /// The process ended before presenting a window; carries the detail.
    Exited(String),
    NoWindowTimeout,
    UnpaintedTimeout,
}

/// What the open attempt does after one of its processes ended.
#[derive(Clone, Debug)]
pub enum AttemptStep {
    /// Nothing more to do.
    Finish,
    /// Log the failure and give up.
    GiveUp(String),
    /// Log the failure, wait, and start another process.
    Retry { log: String, delay_secs: u64 },
}

pub open spec fn retry_text(detail: Seq<char>) -> Seq<char> {
    detail + "; neuer Versuch wird gestartet"@
}

/// The failure detail and the pause before a retry for a failed outcome.
pub open spec fn failure_of(outcome: AttemptOutcome) -> (Seq<char>, u64) {
    match outcome {
        AttemptOutcome::DiedAfterOpening(d) => (d@, LIVE_WINDOW_GUARD_RETRY_DELAY_SECS),
        AttemptOutcome::Exited(d) => (d@, LIVE_WINDOW_RETRY_DELAY_SECS),
        AttemptOutcome::NoWindowTimeout => (no_window_timeout_text(), LIVE_WINDOW_RETRY_DELAY_SECS),
        AttemptOutcome::UnpaintedTimeout => (
            unpainted_timeout_text(),
            LIVE_WINDOW_GUARD_RETRY_DELAY_SECS,
        ),
        AttemptOutcome::Done => (Seq::empty(), 0),
    }
}

/// Decides after attempt number `attempt` (from 1): a success finishes; a
/// failure is retried while attempts are left, and given up on the last one,
/// so no process is ever started that nobody watches.
pub fn after_attempt(attempt: usize, outcome: AttemptOutcome) -> (r: AttemptStep)
    ensures
        outcome is Done ==> r is Finish,
        !(outcome is Done) && attempt < LIVE_WINDOW_START_ATTEMPTS ==> (r matches AttemptStep::Retry {
            log,
            delay_secs,
        } && log@ == retry_text(failure_of(outcome).0) && delay_secs == failure_of(outcome).1),
        !(outcome is Done) && attempt >= LIVE_WINDOW_START_ATTEMPTS ==> (r matches AttemptStep::GiveUp(
            d,
        ) && d@ == failure_of(outcome).0),
{
    let (detail, delay): (String, u64) = match outcome {
        AttemptOutcome::Done => {
            return AttemptStep::Finish;
        },
        AttemptOutcome::DiedAfterOpening(d) => (d, LIVE_WINDOW_GUARD_RETRY_DELAY_SECS),
        AttemptOutcome::Exited(d) => (d, LIVE_WINDOW_RETRY_DELAY_SECS),
        AttemptOutcome::NoWindowTimeout => (no_window_timeout_detail(), LIVE_WINDOW_RETRY_DELAY_SECS),
        AttemptOutcome::UnpaintedTimeout => (
            unpainted_timeout_detail(),
            LIVE_WINDOW_GUARD_RETRY_DELAY_SECS,
        ),
    };
    if !live_window_attempt_can_retry(attempt) {
        return AttemptStep::GiveUp(detail);
    }
    let mut log = detail;
    push_str(&mut log, "; neuer Versuch wird gestartet");
    AttemptStep::Retry { log, delay_secs: delay }
}

/// The detail logged when a retry process cannot be started.
pub fn respawn_failure_detail(error: &str) -> (r: String)
    ensures
        r@ == "Live-Status-Prozess konnte beim Wiederholungsversuch nicht gestartet werden: "@
            + error@,
{
    let mut s = String::new();
    push_str(&mut s, "Live-Status-Prozess konnte beim Wiederholungsversuch nicht gestartet werden: ");
    push_str(&mut s, error);
    s
}

/// What the guard does after one look at a freshly opened window's process.
pub fn guard_step(child: &ChildState, since_open_ms: u64) -> (r: Option<AttemptOutcome>)
    ensures
        (match *child {
            ChildState::ExitedCleanly => r matches Some(AttemptOutcome::Done),
            ChildState::Exited(status) => r matches Some(AttemptOutcome::DiedAfterOpening(d)) && d@
                == "Live-Status-Prozess endete kurz nach dem Öffnen ("@ + status@ + ")"@,
            ChildState::Unknown(error) => r matches Some(AttemptOutcome::DiedAfterOpening(d)) && d@
                == "Prozessstatus des Live-Status-Fensters konnte nach dem Öffnen nicht geprüft werden: "@
                + error@,
            ChildState::Running => if since_open_ms >= 60_000 {
                r matches Some(AttemptOutcome::Done)
            } else {
                r is None
            },
        }),
{
    match child {
        ChildState::ExitedCleanly => Some(AttemptOutcome::Done),
        ChildState::Exited(status) => {
            let mut d = String::new();
            push_str(&mut d, "Live-Status-Prozess endete kurz nach dem Öffnen (");
            push_str(&mut d, status.as_str());
            push_str(&mut d, ")");
            Some(AttemptOutcome::DiedAfterOpening(d))
        },
        ChildState::Unknown(error) => {
            let mut d = String::new();
            push_str(
                &mut d,
                "Prozessstatus des Live-Status-Fensters konnte nach dem Öffnen nicht geprüft werden: ",
            );
            push_str(&mut d, error.as_str());
            Some(AttemptOutcome::DiedAfterOpening(d))
        },
        ChildState::Running => if since_open_ms >= LIVE_WINDOW_POST_OPEN_GUARD_SECS * 1000 {
            Some(AttemptOutcome::Done)
        } else {
            None
        },
    }
}

/// The pid that a spawn argument carries: `--owner-pid=` followed by a
/// nonzero `u32`.
pub open spec fn owner_pid_of(argument: Seq<char>) -> Option<u32> {
    if starts_with(argument, "--owner-pid="@) {
        match parse_bounded(argument.skip(12), u32::MAX as nat) {
            Some(v) => if v != 0 {
                Some(v as u32)
            } else {
                None
            },
            None => None,
        }
    } else {
        None
    }
}

/// The first argument, in order, that carries an owner pid.
pub open spec fn first_owner_pid(arguments: Seq<Seq<char>>) -> Option<u32>
    decreases arguments.len(),
{
    if arguments.len() == 0 {
        None
    } else {
        match owner_pid_of(arguments[0]) {
            Some(p) => Some(p),
            None => first_owner_pid(arguments.drop_first()),
        }
    }
}

/// All the arguments as character sequences.
pub open spec fn argument_views(arguments: Seq<String>) -> Seq<Seq<char>> {
    Seq::new(arguments.len(), |i: int| arguments[i]@)
}

/// The owner pid among the process's arguments.
pub fn parse_owner_pid(arguments: &[String]) -> (r: Option<u32>)
    ensures
        r == first_owner_pid(argument_views(arguments@)),
{
    let mut i: usize = 0;
    assert(argument_views(arguments@).skip(0) == argument_views(arguments@));
    while i < arguments.len()
        invariant
            i <= arguments@.len(),
            first_owner_pid(argument_views(arguments@)) == first_owner_pid(
                argument_views(arguments@).skip(i as int),
            ),
        decreases arguments@.len() - i,
    {
        let ghost rest = argument_views(arguments@).skip(i as int);
        assert(rest[0] == arguments@[i as int]@);
        assert(rest.drop_first() == argument_views(arguments@).skip(i + 1));
        let v = chars_of(arguments[i].as_str());
        if starts_with_str(&v, "--owner-pid=") {
            proof {
                reveal_strlit("--owner-pid=");
            }
            let tail = subvec(&v, 12, v.len());
            assert(tail@ == v@.skip(12));
            match parse_u32(&tail) {
                Some(p) => if p != 0 {
                    return Some(p);
                },
                None => {},
            }
        }
        i += 1;
    }
    assert(argument_views(arguments@).skip(i as int).len() == 0);
    None
}

// ---------------------------------------------------------------------------
// Open attempts of this process
// ---------------------------------------------------------------------------

/// Minimum time between two open attempts, in milliseconds.
pub const OPEN_SPAWN_DEBOUNCE_MS: u64 = 750;

/// An attempt to open the live window: its number, when it began on a
/// millisecond clock, and the child it started (once known).
#[derive(Clone, Copy, Debug, PartialEq, Eq, Structural)]
pub struct OpenAttempt {
    pub id: u64,
    pub started_at_ms: u64,
    pub child_pid: Option<u32>,
}

/// The open attempt that runs in this process, the number of the next one,
/// and the last child that an attempt started.
#[derive(Clone, Copy, Debug, PartialEq, Eq, Structural)]
pub struct OpenAttempts {
    pub current: Option<OpenAttempt>,
    pub next_id: u64,
    pub last_child_pid: Option<u32>,
}

/// Whether a new attempt may begin at `now`: none runs, or the running one's
/// child has ended (or was never started) and the attempt is older than the
/// debounce time.
pub open spec fn may_begin_spec(attempts: OpenAttempts, child_running: bool, now: u64) -> bool {
    match attempts.current {
        None => true,
        Some(a) => !(a.child_pid is Some && child_running) && now >= a.started_at_ms && now
            - a.started_at_ms >= OPEN_SPAWN_DEBOUNCE_MS,
    }
}

/// The record after an attempt tells the child it started: only the attempt
/// that runs can record it.
pub open spec fn child_recorded(attempts: OpenAttempts, attempt_id: u64, pid: u32) -> OpenAttempts {
    match attempts.current {
        Some(a) => if a.id == attempt_id {
            OpenAttempts {
                current: Some(OpenAttempt { child_pid: Some(pid), ..a }),
                last_child_pid: Some(pid),
                ..attempts
            }
        } else {
            attempts
        },
        None => attempts,
    }
}

/// The record after an attempt ended: only the attempt that runs is cleared.
pub open spec fn attempt_finished(attempts: OpenAttempts, attempt_id: u64) -> OpenAttempts {
    match attempts.current {
        Some(a) => if a.id == attempt_id {
            OpenAttempts { current: None, ..attempts }
        } else {
            attempts
        },
        None => attempts,
    }
}

impl OpenAttempts {
    pub fn new() -> (r: Self)
        ensures
            r.current is None,
            r.next_id == 1,
            r.last_child_pid is None,
    {
        OpenAttempts { current: None, next_id: 1, last_child_pid: None }
    }

    /// Whether a new attempt may begin at `now`; `child_running` tells
    /// whether the running attempt's child still runs.
    pub fn may_begin(&self, child_running: bool, now_ms: u64) -> (r: bool)
        ensures
            r == may_begin_spec(*self, child_running, now_ms),
    {
        match self.current {
            None => true,
            Some(a) => !(a.child_pid.is_some() && child_running) && now_ms >= a.started_at_ms
                && now_ms - a.started_at_ms >= OPEN_SPAWN_DEBOUNCE_MS,
        }
    }

    /// Begins a new attempt at `now` in place of the running one (whose
    /// process-wide gate the caller then releases); returns the new number
    /// and the replaced attempt.
    pub fn begin(&mut self, now_ms: u64) -> (r: (u64, Option<OpenAttempt>))
        requires
            old(self).next_id < u64::MAX,
        ensures
            r.0 == old(self).next_id,
            r.1 == old(self).current,
            final(self).current == Some(OpenAttempt { id: r.0, started_at_ms: now_ms, child_pid: None }),
            final(self).next_id == old(self).next_id + 1,
            final(self).last_child_pid == old(self).last_child_pid,
    {
        let id = self.next_id;
        let replaced = self.current;
        self.current = Some(OpenAttempt { id, started_at_ms: now_ms, child_pid: None });
        self.next_id = id + 1;
        (id, replaced)
    }

    /// Records the child that an attempt started; false (and nothing
    /// changes) when that attempt no longer runs.
    pub fn remember_child(&mut self, attempt_id: u64, pid: u32) -> (r: bool)
        ensures
            r == (old(self).current matches Some(a) && a.id == attempt_id),
            *final(self) == child_recorded(*old(self), attempt_id, pid),
    {
        match self.current {
            Some(a) => if a.id == attempt_id {
                self.current = Some(OpenAttempt { child_pid: Some(pid), ..a });
                self.last_child_pid = Some(pid);
                true
            } else {
                false
            },
            None => false,
        }
    }

    /// Ends an attempt; returns it (so that its gate is released) when it was
    /// the running one, and otherwise changes nothing.
    pub fn finish(&mut self, attempt_id: u64) -> (r: Option<OpenAttempt>)
        ensures
            *final(self) == attempt_finished(*old(self), attempt_id),
            r == (match old(self).current {
                Some(a) => if a.id == attempt_id {
                    Some(a)
                } else {
                    None
                },
                None => None,
            }),
    {
        match self.current {
            Some(a) => if a.id == attempt_id {
                self.current = None;
                Some(a)
            } else {
                None
            },
            None => None,
        }
    }

    /// The child of the running attempt.
    pub fn active_child(&self) -> (r: Option<u32>)
        ensures
            r == (match self.current {
                Some(a) => a.child_pid,
                None => None,
            }),
    {
        match self.current {
            Some(a) => a.child_pid,
            None => None,
        }
    }
}

/// An attempt that no longer runs can neither record a child in place of the
/// running attempt nor end it.
pub proof fn lemma_stale_attempt_is_harmless(attempts: OpenAttempts, stale_id: u64, pid: u32)
    requires
        attempts.current matches Some(a) && a.id != stale_id,
    ensures
        child_recorded(attempts, stale_id, pid) == attempts,
        attempt_finished(attempts, stale_id) == attempts,
{
}

/// Strictly increasing numbers.
pub open spec fn strictly_increasing(v: Seq<u32>) -> bool {
    forall|i: int, j: int| 0 <= i < j < v.len() ==> v[i] < v[j]
}

/// Inserts a number into a strictly increasing vector unless it is there.
#[verifier::spinoff_prover]
fn insert_sorted(v: &mut Vec<u32>, x: u32)
    requires
        strictly_increasing(old(v)@),
    ensures
        strictly_increasing(final(v)@),
        forall|y: u32| final(v)@.contains(y) <==> (old(v)@.contains(y) || y == x),
{
    let mut k: usize = 0;
    while k < v.len() && v[k] < x
        invariant
            k <= v@.len(),
            v@ == old(v)@,
            strictly_increasing(v@),
            forall|i: int| 0 <= i < k ==> v@[i] < x,
        decreases v@.len() - k,
    {
        k += 1;
    }
    if k < v.len() && v[k] == x {
        assert(v@.contains(x));
        return;
    }
    let ghost before = v@;
    assert(before == old(v)@);
    v.insert(k, x);
    assert(v@ == before.insert(k as int, x));
    assert forall|i: int, j: int| 0 <= i < j < v@.len() implies v@[i] < v@[j] by {
        if j < k {
        } else if j == k {
        } else if i < k {
            assert(before[i] < x);
            assert(k < before.len());
            assert(x < before[k as int]);
        } else if i == k {
            assert(x < before[k as int]);
        } else {
        }
    }
    assert forall|y: u32| v@.contains(y) <==> (before.contains(y) || y == x) by {
        if v@.contains(y) {
            let i = choose|i: int| 0 <= i < v@.len() && v@[i] == y;
            if i < k {
                assert(before[i] == y);
            } else if i > k {
                assert(before[i - 1] == y);
            }
        }
        if before.contains(y) {
            let i = choose|i: int| 0 <= i < before.len() && before[i] == y;
            if i < k {
                assert(v@[i] == y);
            } else {
                assert(v@[i + 1] == y);
            }
        }
        if y == x {
            assert(v@[k as int] == x);
        }
    }
    assert(forall|y: u32| #[trigger] v@.contains(y) <==> (old(v)@.contains(y) || y == x));
}

/// The processes that the tray waits for when it quits: those of the live
/// windows, the running attempt's child and the last child, without 0 and
/// without the tray itself, in increasing order and each once.
pub fn close_pids(
    window_pids: &Vec<u32>,
    attempt_child: Option<u32>,
    last_child: Option<u32>,
    current_pid: u32,
) -> (r: Vec<u32>)
    ensures
        strictly_increasing(r@),
        forall|x: u32|
            r@.contains(x) <==> (x != 0 && x != current_pid && (window_pids@.contains(x)
                || attempt_child == Some(x) || last_child == Some(x))),
{
    let mut r: Vec<u32> = Vec::new();
    let mut i: usize = 0;
    while i < window_pids.len()
        invariant
            i <= window_pids@.len(),
            strictly_increasing(r@),
            forall|x: u32|
                r@.contains(x) <==> (x != 0 && x != current_pid && window_pids@.take(
                    i as int,
                ).contains(x)),
        decreases window_pids@.len() - i,
    {
        let pid = window_pids[i];
        let ghost taken = window_pids@.take(i as int);
        assert(window_pids@.take(i + 1) == taken.push(pid));
        if pid != 0 && pid != current_pid {
            insert_sorted(&mut r, pid);
        }
        assert forall|x: u32| r@.contains(x) <==> (x != 0 && x != current_pid && window_pids@.take(
            i + 1,
        ).contains(x)) by {
            if taken.push(pid).contains(x) && x != pid {
                let j = choose|j: int| 0 <= j < taken.push(pid).len() && taken.push(pid)[j] == x;
                assert(taken[j] == x);
            }
            if taken.contains(x) {
                let j = choose|j: int| 0 <= j < taken.len() && taken[j] == x;
                assert(taken.push(pid)[j] == x);
            }
            if x == pid {
                assert(taken.push(pid)[taken.len() as int] == x);
            }
        }
        i += 1;
    }
    assert(window_pids@.take(window_pids@.len() as int) == window_pids@);
    if let Some(pid) = attempt_child {
        if pid != 0 && pid != current_pid {
            insert_sorted(&mut r, pid);
        }
    }
    if let Some(pid) = last_child {
        if pid != 0 && pid != current_pid {
            insert_sorted(&mut r, pid);
        }
    }
    r
}

// ---------------------------------------------------------------------------
// Saved position on the attached monitors
// ---------------------------------------------------------------------------

/// Visible working area of one monitor in desktop coordinates (right and
/// bottom exclusive). Coordinates can be negative left of or above the
/// primary monitor.
#[derive(Clone, Copy, Debug, PartialEq, Eq, Structural)]
pub struct WorkArea {
    pub left: i32,
    pub top: i32,
    pub right: i32,
    pub bottom: i32,
}

pub open spec fn area_contains(a: WorkArea, x: int, y: int) -> bool {
    a.left <= x < a.right && a.top <= y < a.bottom
}

/// Squared distance from a point to the nearest pixel of an area.
pub open spec fn area_distance_squared(a: WorkArea, x: int, y: int) -> int {
    let dx = if x < a.left {
        a.left - x
    } else if x >= a.right {
        x - a.right + 1
    } else {
        0
    };
    let dy = if y < a.top {
        a.top - y
    } else if y >= a.bottom {
        y - a.bottom + 1
    } else {
        0
    };
    dx * dx + dy * dy
}

/// `v` held between `lo` and `hi` (`i32::clamp`).
pub open spec fn clamp_int(v: int, lo: int, hi: int) -> int {
    if v < lo {
        lo
    } else if v > hi {
        hi
    } else {
        v
    }
}

/// The origin of a window of the given size moved into an area as far as it
/// fits; a window larger than the area keeps its left or top edge on the
/// area's.
pub open spec fn area_clamp(a: WorkArea, x: int, y: int, width: int, height: int) -> (int, int) {
    let max_x = if a.right - width > a.left {
        a.right - width
    } else {
        a.left as int
    };
    let max_y = if a.bottom - height > a.top {
        a.bottom - height
    } else {
        a.top as int
    };
    (clamp_int(x, a.left as int, max_x), clamp_int(y, a.top as int, max_y))
}

impl WorkArea {
    pub fn contains(&self, x: i32, y: i32) -> (r: bool)
        ensures
            r == area_contains(*self, x as int, y as int),
    {
        x >= self.left && x < self.right && y >= self.top && y < self.bottom
    }

    pub fn distance_squared(&self, x: i32, y: i32) -> (r: i128)
        ensures
            r == area_distance_squared(*self, x as int, y as int),
    {
        let dx: i128 = if x < self.left {
            self.left as i128 - x as i128
        } else if x >= self.right {
            x as i128 - self.right as i128 + 1
        } else {
            0
        };
        let dy: i128 = if y < self.top {
            self.top as i128 - y as i128
        } else if y >= self.bottom {
            y as i128 - self.bottom as i128 + 1
        } else {
            0
        };
        proof {
            assert(0 <= dx <= 0x1_0000_0000);
            assert(0 <= dy <= 0x1_0000_0000);
            assert(dx * dx <= 0x1_0000_0000 * 0x1_0000_0000) by (nonlinear_arith)
                requires
                    0 <= dx <= 0x1_0000_0000,
            ;
            assert(dy * dy <= 0x1_0000_0000 * 0x1_0000_0000) by (nonlinear_arith)
                requires
                    0 <= dy <= 0x1_0000_0000,
            ;
        }
        dx * dx + dy * dy
    }

    pub fn clamp_position(&self, x: i32, y: i32, width: i32, height: i32) -> (r: (i32, i32))
        ensures
            (r.0 as int, r.1 as int) == area_clamp(
                *self,
                x as int,
                y as int,
                width as int,
                height as int,
            ),
    {
        let mx: i64 = self.right as i64 - width as i64;
        let max_x: i64 = if mx > self.left as i64 {
            mx
        } else {
            self.left as i64
        };
        let my: i64 = self.bottom as i64 - height as i64;
        let max_y: i64 = if my > self.top as i64 {
            my
        } else {
            self.top as i64
        };
        let cx: i64 = if (x as i64) < self.left as i64 {
            self.left as i64
        } else if x as i64 > max_x {
            max_x
        } else {
            x as i64
        };
        let cy: i64 = if (y as i64) < self.top as i64 {
            self.top as i64
        } else if y as i64 > max_y {
            max_y
        } else {
            y as i64
        };
        (cx as i32, cy as i32)
    }
}

/// The area that a saved origin belongs to: the first area that contains it,
/// else the first of the nearest areas.
pub open spec fn chosen_area(areas: Seq<WorkArea>, x: int, y: int, i: int) -> bool {
    0 <= i < areas.len() && if exists|j: int| 0 <= j < areas.len() && area_contains(#[trigger] areas[j], x, y) {
        area_contains(areas[i], x, y) && forall|j: int|
            0 <= j < i ==> !area_contains(#[trigger] areas[j], x, y)
    } else {
        (forall|j: int|
            0 <= j < areas.len() ==> area_distance_squared(areas[i], x, y)
                <= #[trigger] area_distance_squared(areas[j], x, y)) && (forall|j: int|
            0 <= j < i ==> area_distance_squared(areas[i], x, y)
                < #[trigger] area_distance_squared(areas[j], x, y))
    }
}

/// A position equals a target point.
pub open spec fn at(q: (i32, i32), target: (int, int)) -> bool {
    q.0 as int == target.0 && q.1 as int == target.1
}

/// Keeps a saved live-window origin on a monitor that is attached now: the
/// window is moved into the area that holds the origin, or the nearest one.
/// Without a saved origin or without areas nothing is placed (`None`).
/// Width and height are the window's size in whole points, at least 1.
#[verifier::spinoff_prover]
#[verifier::rlimit(30)]
pub fn clamp_live_position(saved: Option<(i32, i32)>, width: i32, height: i32, areas: &[WorkArea]) -> (r:
    Option<(i32, i32)>)
    requires
        width >= 1,
        height >= 1,
    ensures
        saved is None || areas@.len() == 0 ==> r is None,
        match saved {
            Some(p) => areas@.len() > 0 ==> r is Some && exists|i: int|
                chosen_area(areas@, p.0 as int, p.1 as int, i) && at(
                    r->0,
                    area_clamp(areas@[i], p.0 as int, p.1 as int, width as int, height as int),
                ),
            None => true,
        },
{
    let (x, y) = match saved {
        Some(p) => p,
        None => {
            return None;
        },
    };
    if areas.len() == 0 {
        return None;
    }
    let mut found: Option<usize> = None;
    let mut i: usize = 0;
    while i < areas.len() && found.is_none()
        invariant
            i <= areas@.len(),
            found is None ==> forall|j: int|
                0 <= j < i ==> !area_contains(#[trigger] areas@[j], x as int, y as int),
            found matches Some(k) ==> k < areas@.len() && area_contains(
                areas@[k as int],
                x as int,
                y as int,
            ) && forall|j: int| 0 <= j < k ==> !area_contains(#[trigger] areas@[j], x as int, y as int),
        decreases areas@.len() - i,
    {
        if areas[i].contains(x, y) {
            found = Some(i);
        }
        i += 1;
    }
    let index: usize = match found {
        Some(k) => k,
        None => {
            let mut best: usize = 0;
            let mut best_d: i128 = areas[0].distance_squared(x, y);
            let mut k: usize = 1;
            while k < areas.len()
                invariant
                    1 <= k <= areas@.len(),
                    best < k,
                    best_d == area_distance_squared(areas@[best as int], x as int, y as int),
                    forall|j: int|
                        0 <= j < k ==> best_d <= #[trigger] area_distance_squared(
                            areas@[j],
                            x as int,
                            y as int,
                        ),
                    forall|j: int|
                        0 <= j < best ==> best_d < #[trigger] area_distance_squared(
                            areas@[j],
                            x as int,
                            y as int,
                        ),
                decreases areas@.len() - k,
            {
                let d = areas[k].distance_squared(x, y);
                if d < best_d {
                    best = k;
                    best_d = d;
                }
                k += 1;
            }
            best
        },
    };
    proof {
        if found is Some {
            assert(area_contains(areas@[index as int], x as int, y as int));
        } else {
            assert forall|j: int| 0 <= j < areas@.len() implies !area_contains(
                #[trigger] areas@[j],
                x as int,
                y as int,
            ) by {}
        }
        assert(chosen_area(areas@, x as int, y as int, index as int));
    }
    let (cx, cy) = areas[index].clamp_position(x, y, width, height);
    Some((cx, cy))
}

// ---------------------------------------------------------------------------
// Texts and choices of the live window
// ---------------------------------------------------------------------------

pub open spec fn level_tooltip_text(level: WindowLevel, language: Language) -> Seq<char> {
    match (level, language) {
        (WindowLevel::Normal, Language::German) => "Fensterebene: Normal\nKlicken: Immer im Vordergrund"@,
        (WindowLevel::AlwaysOnTop, Language::German) =>
            "Fensterebene: Immer im Vordergrund\nKlicken: Immer im Hintergrund"@,
        (WindowLevel::AlwaysOnBottom, Language::German) =>
            "Fensterebene: Immer im Hintergrund\nKlicken: Normal"@,
        (WindowLevel::Normal, Language::English) => "Window level: Normal\nClick: Always on top"@,
        (WindowLevel::AlwaysOnTop, Language::English) =>
            "Window level: Always on top\nClick: Always in background"@,
        (WindowLevel::AlwaysOnBottom, Language::English) =>
            "Window level: Always in background\nClick: Normal"@,
    }
}

/// Tooltip of the window-level button: the current level and what a click
/// switches to.
pub fn window_level_tooltip(level: WindowLevel, language: Language) -> (r: &'static str)
    ensures
        r@ == level_tooltip_text(level, language),
{
    match (level, language) {
        (WindowLevel::Normal, Language::German) => "Fensterebene: Normal\nKlicken: Immer im Vordergrund",
        (WindowLevel::AlwaysOnTop, Language::German) =>
            "Fensterebene: Immer im Vordergrund\nKlicken: Immer im Hintergrund",
        (WindowLevel::AlwaysOnBottom, Language::German) =>
            "Fensterebene: Immer im Hintergrund\nKlicken: Normal",
        (WindowLevel::Normal, Language::English) => "Window level: Normal\nClick: Always on top",
        (WindowLevel::AlwaysOnTop, Language::English) =>
            "Window level: Always on top\nClick: Always in background",
        (WindowLevel::AlwaysOnBottom, Language::English) =>
            "Window level: Always in background\nClick: Normal",
    }
}

pub open spec fn level_message_text(level: WindowLevel, language: Language) -> Seq<char> {
    match (level, language) {
        (WindowLevel::Normal, Language::German) => "Fenster: normale Ebene"@,
        (WindowLevel::AlwaysOnTop, Language::German) => "Fenster bleibt im Vordergrund"@,
        (WindowLevel::AlwaysOnBottom, Language::German) => "Fenster bleibt im Hintergrund"@,
        (WindowLevel::Normal, Language::English) => "Window: normal level"@,
        (WindowLevel::AlwaysOnTop, Language::English) => "Window stays on top"@,
        (WindowLevel::AlwaysOnBottom, Language::English) => "Window stays in background"@,
    }
}

/// The message after the window level changed.
pub fn window_level_message(level: WindowLevel, language: Language) -> (r: &'static str)
    ensures
        r@ == level_message_text(level, language),
{
    match (level, language) {
        (WindowLevel::Normal, Language::German) => "Fenster: normale Ebene",
        (WindowLevel::AlwaysOnTop, Language::German) => "Fenster bleibt im Vordergrund",
        (WindowLevel::AlwaysOnBottom, Language::German) => "Fenster bleibt im Hintergrund",
        (WindowLevel::Normal, Language::English) => "Window: normal level",
        (WindowLevel::AlwaysOnTop, Language::English) => "Window stays on top",
        (WindowLevel::AlwaysOnBottom, Language::English) => "Window stays in background",
    }
}

/// The seconds left of a countdown, while one runs.
pub fn countdown_seconds(status: &WatchStatus) -> (r: Option<u64>)
    ensures
        r == (match *status {
            WatchStatus::ShutdownWarning { seconds_remaining, .. } => Some(seconds_remaining),
            _ => None,
        }),
{
    match status {
        WatchStatus::ShutdownWarning { seconds_remaining, .. } => Some(*seconds_remaining),
        _ => None,
    }
}

/// `M:SS` of a number of seconds.
pub open spec fn countdown_text(seconds: u64) -> Seq<char> {
    dec((seconds / 60) as nat) + ":"@ + pad2((seconds % 60) as nat)
}

pub fn format_countdown(seconds: u64) -> (r: String)
    ensures
        r@ == countdown_text(seconds),
{
    let mut s = String::new();
    push_dec(&mut s, seconds / 60);
    push_str(&mut s, ":");
    push_pad2(&mut s, seconds % 60);
    s
}

/// A night run is active while the watcher watches or counts down.
pub fn night_mode_active(status: &WatchStatus) -> (r: bool)
    ensures
        r == (status is Watching || status is ShutdownWarning),
{
    match status {
        WatchStatus::Watching { .. } | WatchStatus::ShutdownWarning { .. } => true,
        _ => false,
    }
}

/// What the live window asks the watcher to do.
#[derive(Clone, Copy, Debug, PartialEq, Eq, Structural)]
pub enum NightAction {
    Start,
    Stop,
    SetCompletionAction(CompletionAction),
    SetWarningSeconds(u64),
}

/// The completion action to show: a pending change wins over the status.
pub fn completion_action_for_display(status: &WatchStatus, pending_action: Option<NightAction>) -> (r:
    CompletionAction)
    ensures
        r == (match pending_action {
            Some(NightAction::SetCompletionAction(a)) => a,
            _ => status_action(*status),
        }),
{
    match pending_action {
        Some(NightAction::SetCompletionAction(a)) => a,
        _ => crate::backend::completion_action(status),
    }
}

/// The main button's action: start when no run is active, stop otherwise.
pub fn action_for(status: &WatchStatus) -> (r: NightAction)
    ensures
        r == (if status is Watching || status is ShutdownWarning {
            NightAction::Stop
        } else {
            NightAction::Start
        }),
{
    match status {
        WatchStatus::Off { .. } | WatchStatus::Finished { .. } => NightAction::Start,
        WatchStatus::Watching { .. } | WatchStatus::ShutdownWarning { .. } => NightAction::Stop,
    }
}

/// Program, arguments and label of the watcher command that carries out an
/// action of the live window.
pub open spec fn night_action_view(env: BackendEnvironment, action: NightAction) -> (
    Seq<char>,
    Seq<Seq<char>>,
    Seq<char>,
) {
    match action {
        NightAction::Start => (
            "powershell.exe"@,
            powershell_args(env, "Start-HerdrNightWatch.ps1"@, seq![]),
            "Herdr-Nachtwächter"@,
        ),
        NightAction::Stop => (
            "powershell.exe"@,
            powershell_args(
                env,
                "Stop-HerdrNightWatch.ps1"@,
                seq!["-CancelSource"@, "live_window_moon"@],
            ),
            "Herdr-Nachtwächter"@,
        ),
        NightAction::SetCompletionAction(a) => (
            "wsl.exe"@,
            watcher_args(env, seq!["--set-completion-action"@, wire(a)]),
            "Abschlussmodus"@,
        ),
        NightAction::SetWarningSeconds(seconds) => (
            "wsl.exe"@,
            watcher_args(env, seq!["--set-warning-seconds"@, dec(seconds as nat)]),
            "Warnfrist"@,
        ),
    }
}

/// The watcher command for an action of the live window: a night run (never
/// an observation) to start, a stop marked as coming from the moon button,
/// or a preference to store.
pub fn night_action_command(env: &BackendEnvironment, action: NightAction) -> (r: BackendCommand)
    ensures
        (r.program@, string_views(r.args@), r.label@) == night_action_view(*env, action),
{
    match action {
        NightAction::Start => crate::backend::start(env, false),
        NightAction::Stop => crate::backend::stop(env, "live_window_moon"),
        NightAction::SetCompletionAction(a) => crate::backend::set_completion_action(env, a),
        NightAction::SetWarningSeconds(seconds) => crate::backend::set_warning_seconds(env, seconds),
    }
}

/// The completion switch and the warning-period field take changes only
/// outside a night run and while no action runs.
pub fn completion_controls_enabled(status: &WatchStatus, action_in_progress: bool) -> (r: bool)
    ensures
        r == (!(status is Watching || status is ShutdownWarning) && !action_in_progress),
{
    !night_mode_active(status) && !action_in_progress
}

/// A click on the completion switch asks for the other completion action.
pub fn completion_switch_action(displayed: CompletionAction) -> (r: NightAction)
    ensures
        r == NightAction::SetCompletionAction(
            match displayed {
                CompletionAction::Sleep => CompletionAction::Shutdown,
                CompletionAction::Shutdown => CompletionAction::Sleep,
            },
        ),
{
    NightAction::SetCompletionAction(
        match displayed {
            CompletionAction::Sleep => CompletionAction::Shutdown,
            CompletionAction::Shutdown => CompletionAction::Sleep,
        },
    )
}

/// The hint on the completion switch.
pub open spec fn switch_hint(night_active: bool, displayed: CompletionAction, language: Language) -> Seq<
    char,
> {
    if night_active {
        lang(
            language,
            "Der Abschlussmodus ist für den laufenden Nachtmodus gespeichert.\nStopp den Nachtmodus, um ihn zu ändern."@,
            "The completion mode is saved for the active night run.\nStop the night run to change it."@,
        )
    } else if displayed == CompletionAction::Sleep {
        lang(
            language,
            "Energiesparmodus nach Abschluss\nKlicken für Herunterfahren."@,
            "Sleep after completion\nClick for shutdown."@,
        )
    } else {
        lang(
            language,
            "Herunterfahren nach Abschluss\nKlicken für Energiesparmodus."@,
            "Shutdown after completion\nClick for sleep."@,
        )
    }
}

pub fn completion_switch_tooltip(
    night_active: bool,
    displayed: CompletionAction,
    language: Language,
) -> (r: &'static str)
    ensures
        r@ == switch_hint(night_active, displayed, language),
{
    if night_active {
        language.text(
            "Der Abschlussmodus ist für den laufenden Nachtmodus gespeichert.\nStopp den Nachtmodus, um ihn zu ändern.",
            "The completion mode is saved for the active night run.\nStop the night run to change it.",
        )
    } else if displayed == CompletionAction::Sleep {
        language.text(
            "Energiesparmodus nach Abschluss\nKlicken für Herunterfahren.",
            "Sleep after completion\nClick for shutdown.",
        )
    } else {
        language.text(
            "Herunterfahren nach Abschluss\nKlicken für Energiesparmodus.",
            "Shutdown after completion\nClick for sleep.",
        )
    }
}

/// The hint on the warning-period field.
pub fn warning_seconds_tooltip(night_active: bool, language: Language) -> (r: &'static str)
    ensures
        r@ == (if night_active {
            lang(
                language,
                "Die Warnfrist ist für den laufenden Nachtmodus gespeichert."@,
                "The warning period is saved for the active night run."@,
            )
        } else {
            lang(
                language,
                "Warnfrist in Sekunden für den nächsten Nachtmodus.\nErlaubt sind 10 bis 3.600 Sekunden."@,
                "Warning period in seconds for the next night run.\nAllowed: 10 to 3,600 seconds."@,
            )
        }),
{
    if night_active {
        language.text(
            "Die Warnfrist ist für den laufenden Nachtmodus gespeichert.",
            "The warning period is saved for the active night run.",
        )
    } else {
        language.text(
            "Warnfrist in Sekunden für den nächsten Nachtmodus.\nErlaubt sind 10 bis 3.600 Sekunden.",
            "Warning period in seconds for the next night run.\nAllowed: 10 to 3,600 seconds.",
        )
    }
}

/// Shortest warning period that can be chosen, in seconds.
pub const MIN_WARNING_SECONDS: u64 = 10;

/// Longest warning period that can be chosen, in seconds.
pub const MAX_WARNING_SECONDS: u64 = 3600;

/// The warning period that a typed text gives: the trimmed text read as an
/// unsigned number (as `u64::from_str` reads it), when that is from 10 to
/// 3600 seconds.
pub open spec fn entered_seconds(input: Seq<char>) -> Option<nat> {
    match parse_bounded(trim(input), u64::MAX as nat) {
        Some(v) => if MIN_WARNING_SECONDS <= v <= MAX_WARNING_SECONDS {
            Some(v)
        } else {
            None
        },
        None => None,
    }
}

/// Reads the warning period typed into the field; otherwise the message
/// that the field shows.
pub fn warning_seconds_entry(input: &str, language: Language) -> (r: Result<u64, &'static str>)
    ensures
        match r {
            Ok(seconds) => entered_seconds(input@) == Some(seconds as nat),
            Err(message) => entered_seconds(input@) is None && message@ == lang(
                language,
                "Die Warnfrist muss zwischen 10 und 3.600 Sekunden liegen."@,
                "The warning period must be between 10 and 3,600 seconds."@,
            ),
        },
{
    let v = chars_of(input);
    let t = trimmed(&v);
    match parse_unsigned(&t, u64::MAX) {
        Some(seconds) => if MIN_WARNING_SECONDS <= seconds && seconds <= MAX_WARNING_SECONDS {
            return Ok(seconds);
        },
        None => {},
    }
    Err(
        language.text(
            "Die Warnfrist muss zwischen 10 und 3.600 Sekunden liegen.",
            "The warning period must be between 10 and 3,600 seconds.",
        ),
    )
}

/// The agent report that a status carries.
pub fn agents_for(status: &WatchStatus) -> (r: &AgentSummary)
    ensures
        *r == crate::backend::status_agents(*status),
{
    match status {
        WatchStatus::Off { agents, .. } | WatchStatus::Watching { agents, .. }
        | WatchStatus::ShutdownWarning { agents, .. } | WatchStatus::Finished { agents, .. } => agents,
    }
}

/// The context menu closes after a choice that changes the window's layout.
pub fn context_menu_should_close_after_selection(
    reset_requested: bool,
    clock_visibility_changed: bool,
    second_hand_changed: bool,
) -> (r: bool)
    ensures
        r == (reset_requested || clock_visibility_changed || second_hand_changed),
{
    reset_requested || clock_visibility_changed || second_hand_changed
}

/// A media title shortened to `max_chars` characters, the last one an
/// ellipsis.
pub open spec fn truncated_text(text: Seq<char>, max_chars: nat) -> Seq<char> {
    if text.len() <= max_chars {
        text
    } else {
        text.take(if max_chars >= 1 {
            max_chars - 1
        } else {
            0
        }).push('…')
    }
}

pub fn truncate_media_text(text: &str, max_chars: usize) -> (r: String)
    ensures
        r@ == truncated_text(text@, max_chars as nat),
{
    let v = chars_of(text);
    if v.len() <= max_chars {
        let mut s = String::new();
        push_str(&mut s, text);
        return s;
    }
    let keep: usize = if max_chars >= 1 {
        max_chars - 1
    } else {
        0
    };
    let head = subvec(&v, 0, keep);
    let mut s = String::new();
    push_chars(&mut s, &head);
    crate::text::push_char(&mut s, '…');
    assert(head@ == text@.take(keep as int));
    s
}

/// `Instant::saturating_duration_since`: the time from `earlier` to `now`,
/// zero when `earlier` is later; its length is the named `elapsed_nanos`.
#[verifier::external_body]
fn saturating_elapsed(now: std::time::Instant, earlier: std::time::Instant) -> (r:
    std::time::Duration)
    ensures
        duration_nanos_of(r) == elapsed_nanos(now, earlier),
{
    now.saturating_duration_since(earlier)
}

/// `Duration >= Duration`: durations are ordered by their length, so this is
/// the comparison of their nanosecond counts.
#[verifier::external_body]
fn duration_at_least(a: std::time::Duration, b: std::time::Duration) -> (r: bool)
    ensures
        r == (duration_nanos_of(a) >= duration_nanos_of(b)),
{
    a >= b
}

/// Whether periodic work is due: work that never ran is due at once;
/// otherwise it is due when `interval` has passed since it last ran.
pub fn refresh_is_due(
    last: Option<std::time::Instant>,
    interval: std::time::Duration,
    now: std::time::Instant,
) -> (r: bool)
    ensures
        match last {
            None => r,
            Some(l) => r == (elapsed_nanos(now, l) >= duration_nanos_of(interval)),
        },
{
    match last {
        None => true,
        Some(l) => {
            let elapsed = saturating_elapsed(now, l);
            duration_at_least(elapsed, interval)
        },
    }
}


// ---------------------------------------------------------------------------
// The moon button and the metric badges
// ---------------------------------------------------------------------------

/// The tint of the moon button: grey without a night run, green while the
/// night run watches working agents, blue (the accent) for observation and
/// demos, yellow in the quiet period and red during the shutdown warning.
#[derive(Clone, Copy, Debug, PartialEq, Eq, Structural)]
pub enum MoonTone {
    Green,
    Gray,
    Yellow,
    Accent,
    Red,
}

/// Tint, state line and click hint of the moon button for a status.
pub open spec fn moon_state(status: WatchStatus, language: Language) -> (MoonTone, Seq<char>, Seq<char>) {
    match status {
        WatchStatus::Off { .. } => (
            MoonTone::Gray,
            lang(language, "Kein Nachtlauf aktiv"@, "No night run active"@),
            lang(language, "Klicken, um den Nachtmodus zu starten."@, "Click to start night mode."@),
        ),
        WatchStatus::Watching { demo, observe_only, quiet, .. } => if demo {
            (
                MoonTone::Accent,
                lang(language, "Demo läuft"@, "Demo running"@),
                lang(language, "Klicken, um die Demo zu stoppen."@, "Click to stop the demo."@),
            )
        } else {
            (
                if observe_only {
                    MoonTone::Accent
                } else if quiet {
                    MoonTone::Yellow
                } else {
                    MoonTone::Green
                },
                if observe_only {
                    lang(
                        language,
                        "Beobachtung aktiv - kein Shutdown"@,
                        "Observation active - no shutdown"@,
                    )
                } else if quiet {
                    lang(
                        language,
                        "Nachtmodus aktiv - Ruhezeit läuft"@,
                        "Night mode active - quiet period running"@,
                    )
                } else {
                    lang(language, "Nachtmodus aktiv"@, "Night mode active"@)
                },
                lang(
                    language,
                    "Klicken, um den Nachtlauf zu stoppen."@,
                    "Click to stop the night run."@,
                ),
            )
        },
        WatchStatus::ShutdownWarning { demo, observe_only, network_triggered, .. } => (
            if observe_only {
                MoonTone::Accent
            } else {
                MoonTone::Red
            },
            if observe_only {
                lang(
                    language,
                    "Beobachtung abgeschlossen - keine Windows-Aktion"@,
                    "Observation complete - no Windows action"@,
                )
            } else if network_triggered {
                lang(
                    language,
                    "Internet seit fünf Minuten nicht erreichbar - Warnung aktiv"@,
                    "Internet unavailable for five minutes - warning active"@,
                )
            } else if demo {
                lang(language, "Demo-Warnung aktiv"@, "Demo warning active"@)
            } else {
                lang(language, "Shutdown-Warnung aktiv"@, "Shutdown warning active"@)
            },
            if demo {
                lang(language, "Klicken, um die Demo zu stoppen."@, "Click to stop the demo."@)
            } else {
                lang(
                    language,
                    "Klicken, um Countdown und Nachtlauf abzubrechen."@,
                    "Click to cancel the countdown and night run."@,
                )
            },
        ),
        WatchStatus::Finished { outcome, .. } => {
            let confirmed = crate::text::contains_seq(outcome@, "confirmed"@);
            (
                MoonTone::Gray,
                if confirmed {
                    lang(language, "Energieaktion wird ausgeführt"@, "Power action is executing"@)
                } else {
                    lang(language, "Kein Nachtlauf aktiv"@, "No night run active"@)
                },
                lang(language, "Klicken, um den Nachtmodus zu starten."@, "Click to start night mode."@),
            )
        },
    }
}

proof fn lemma_not_demo_text(t: Seq<char>)
    requires
        t.len() > 0,
        t[0] != 'D',
    ensures
        !starts_with(t, "Demo"@),
{
    reveal_strlit("Demo");
    if starts_with(t, "Demo"@) {
        assert(t.take(4)[0] == t[0]);
    }
}

/// The moon's state line speaks of a demo exactly for demo runs that are
/// shown as such: a watching demo, and a demo countdown that is neither an
/// observation nor started by a lost internet connection. A real countdown
/// of that kind announces a shutdown warning.
pub proof fn lemma_moon_state_names_demo_runs(status: WatchStatus, language: Language)
    ensures
        starts_with(moon_state(status, language).1, "Demo"@) == (match status {
            WatchStatus::Watching { demo, .. } => demo,
            WatchStatus::ShutdownWarning { demo, observe_only, network_triggered, .. } => demo
                && !observe_only && !network_triggered,
            _ => false,
        }),
        status matches WatchStatus::ShutdownWarning { demo, observe_only, network_triggered, .. }
            && !demo && !observe_only && !network_triggered ==> starts_with(
            moon_state(status, language).1,
            lang(language, "Shutdown-Warnung"@, "Shutdown warning"@),
        ),
{
    reveal_strlit("Demo");
    reveal_strlit("Demo läuft");
    reveal_strlit("Demo running");
    reveal_strlit("Beobachtung aktiv - kein Shutdown");
    reveal_strlit("Observation active - no shutdown");
    reveal_strlit("Nachtmodus aktiv - Ruhezeit läuft");
    reveal_strlit("Night mode active - quiet period running");
    reveal_strlit("Nachtmodus aktiv");
    reveal_strlit("Night mode active");
    reveal_strlit("Kein Nachtlauf aktiv");
    reveal_strlit("No night run active");
    reveal_strlit("Beobachtung abgeschlossen - keine Windows-Aktion");
    reveal_strlit("Observation complete - no Windows action");
    reveal_strlit("Internet seit fünf Minuten nicht erreichbar - Warnung aktiv");
    reveal_strlit("Internet unavailable for five minutes - warning active");
    reveal_strlit("Demo-Warnung aktiv");
    reveal_strlit("Demo warning active");
    reveal_strlit("Shutdown-Warnung aktiv");
    reveal_strlit("Shutdown warning active");
    reveal_strlit("Energieaktion wird ausgeführt");
    reveal_strlit("Power action is executing");
    reveal_strlit("Shutdown-Warnung");
    reveal_strlit("Shutdown warning");
    let t = moon_state(status, language).1;
    let shows_demo = match status {
        WatchStatus::Watching { demo, .. } => demo,
        WatchStatus::ShutdownWarning { demo, observe_only, network_triggered, .. } => demo
            && !observe_only && !network_triggered,
        _ => false,
    };
    if shows_demo {
        assert(t.take(4) =~= "Demo"@);
    } else {
        lemma_not_demo_text(t);
    }
    if status matches WatchStatus::ShutdownWarning { demo, observe_only, network_triggered, .. }
        && !demo && !observe_only && !network_triggered {
        let p = lang(language, "Shutdown-Warnung"@, "Shutdown warning"@);
        assert(t.take(p.len() as int) =~= p);
    }
}

/// The moon button's tint and the first part of its tooltip (the moon phase
/// and the weather follow it): while a start or stop is pending it says so;
/// otherwise the state, the failed action (if any) and the click hint.
pub open spec fn moon_view_head(
    status: WatchStatus,
    pending_action: Option<NightAction>,
    error: Option<Seq<char>>,
    language: Language,
) -> (MoonTone, Seq<char>) {
    if pending_action == Some(NightAction::Start) {
        (
            MoonTone::Green,
            lang(
                language,
                "Nachtmodus wird aktiviert …\nBitte kurz warten."@,
                "Night mode is being enabled …\nPlease wait."@,
            ),
        )
    } else if pending_action == Some(NightAction::Stop) {
        (
            MoonTone::Gray,
            lang(
                language,
                "Nachtmodus wird deaktiviert …\nBitte kurz warten."@,
                "Night mode is being disabled …\nPlease wait."@,
            ),
        )
    } else {
        let (tone, state, action) = moon_state(status, language);
        (
            tone,
            match error {
                Some(e) => state + "\nAktion fehlgeschlagen: "@ + e + "\n"@ + action,
                None => state + "\n"@ + action,
            },
        )
    }
}

/// The moon button's tint and the first part of its tooltip.
pub fn moon_view(
    status: &WatchStatus,
    pending_action: Option<NightAction>,
    error: Option<&str>,
    language: Language,
) -> (r: (MoonTone, String))
    ensures
        r.0 == moon_view_head(
            *status,
            pending_action,
            match error {
                Some(e) => Some(e@),
                None => None,
            },
            language,
        ).0,
        r.1@ == moon_view_head(
            *status,
            pending_action,
            match error {
                Some(e) => Some(e@),
                None => None,
            },
            language,
        ).1,
{
    let mut s = String::new();
    if pending_action == Some(NightAction::Start) {
        push_str(
            &mut s,
            language.text(
                "Nachtmodus wird aktiviert …\nBitte kurz warten.",
                "Night mode is being enabled …\nPlease wait.",
            ),
        );
        return (MoonTone::Green, s);
    }
    if pending_action == Some(NightAction::Stop) {
        push_str(
            &mut s,
            language.text(
                "Nachtmodus wird deaktiviert …\nBitte kurz warten.",
                "Night mode is being disabled …\nPlease wait.",
            ),
        );
        return (MoonTone::Gray, s);
    }
    let (tone, state, action) = moon_state_exec(status, language);
    push_str(&mut s, state);
    match error {
        Some(e) => {
            push_str(&mut s, "\nAktion fehlgeschlagen: ");
            push_str(&mut s, e);
            push_str(&mut s, "\n");
        },
        None => {
            push_str(&mut s, "\n");
        },
    }
    push_str(&mut s, action);
    (tone, s)
}

fn moon_state_exec(status: &WatchStatus, language: Language) -> (r: (MoonTone, &'static str, &'static str))
    ensures
        r.0 == moon_state(*status, language).0,
        r.1@ == moon_state(*status, language).1,
        r.2@ == moon_state(*status, language).2,
{
    match status {
        WatchStatus::Off { .. } => (
            MoonTone::Gray,
            language.text("Kein Nachtlauf aktiv", "No night run active"),
            language.text("Klicken, um den Nachtmodus zu starten.", "Click to start night mode."),
        ),
        WatchStatus::Watching { demo, observe_only, quiet, .. } => if *demo {
            (
                MoonTone::Accent,
                language.text("Demo läuft", "Demo running"),
                language.text("Klicken, um die Demo zu stoppen.", "Click to stop the demo."),
            )
        } else {
            (
                if *observe_only {
                    MoonTone::Accent
                } else if *quiet {
                    MoonTone::Yellow
                } else {
                    MoonTone::Green
                },
                if *observe_only {
                    language.text(
                        "Beobachtung aktiv - kein Shutdown",
                        "Observation active - no shutdown",
                    )
                } else if *quiet {
                    language.text(
                        "Nachtmodus aktiv - Ruhezeit läuft",
                        "Night mode active - quiet period running",
                    )
                } else {
                    language.text("Nachtmodus aktiv", "Night mode active")
                },
                language.text("Klicken, um den Nachtlauf zu stoppen.", "Click to stop the night run."),
            )
        },
        WatchStatus::ShutdownWarning { demo, observe_only, network_triggered, .. } => (
            if *observe_only {
                MoonTone::Accent
            } else {
                MoonTone::Red
            },
            if *observe_only {
                language.text(
                    "Beobachtung abgeschlossen - keine Windows-Aktion",
                    "Observation complete - no Windows action",
                )
            } else if *network_triggered {
                language.text(
                    "Internet seit fünf Minuten nicht erreichbar - Warnung aktiv",
                    "Internet unavailable for five minutes - warning active",
                )
            } else if *demo {
                language.text("Demo-Warnung aktiv", "Demo warning active")
            } else {
                language.text("Shutdown-Warnung aktiv", "Shutdown warning active")
            },
            if *demo {
                language.text("Klicken, um die Demo zu stoppen.", "Click to stop the demo.")
            } else {
                language.text(
                    "Klicken, um Countdown und Nachtlauf abzubrechen.",
                    "Click to cancel the countdown and night run.",
                )
            },
        ),
        WatchStatus::Finished { outcome, .. } => {
            let v = chars_of(outcome.as_str());
            let confirmed = crate::text::contains(&v, "confirmed");
            (
                MoonTone::Gray,
                if confirmed {
                    language.text("Energieaktion wird ausgeführt", "Power action is executing")
                } else {
                    language.text("Kein Nachtlauf aktiv", "No night run active")
                },
                language.text("Klicken, um den Nachtmodus zu starten.", "Click to start night mode."),
            )
        },
    }
}

/// Names of the eight moon phases, from new moon through the waning
/// crescent (the eighth of the cycle that a phase falls in).
pub fn moon_phase_name(octant: u8, language: Language) -> (r: &'static str)
    requires
        octant < 8,
    ensures
        r@ == (if octant == 0 {
            lang(language, "Neumond"@, "New moon"@)
        } else if octant == 1 {
            lang(language, "Zunehmende Sichel"@, "Waxing crescent"@)
        } else if octant == 2 {
            lang(language, "Erstes Viertel"@, "First quarter"@)
        } else if octant == 3 {
            lang(language, "Zunehmender Mond"@, "Waxing gibbous"@)
        } else if octant == 4 {
            lang(language, "Vollmond"@, "Full moon"@)
        } else if octant == 5 {
            lang(language, "Abnehmender Mond"@, "Waning gibbous"@)
        } else if octant == 6 {
            lang(language, "Letztes Viertel"@, "Last quarter"@)
        } else {
            lang(language, "Abnehmende Sichel"@, "Waning crescent"@)
        }),
{
    if octant == 0 {
        language.text("Neumond", "New moon")
    } else if octant == 1 {
        language.text("Zunehmende Sichel", "Waxing crescent")
    } else if octant == 2 {
        language.text("Erstes Viertel", "First quarter")
    } else if octant == 3 {
        language.text("Zunehmender Mond", "Waxing gibbous")
    } else if octant == 4 {
        language.text("Vollmond", "Full moon")
    } else if octant == 5 {
        language.text("Abnehmender Mond", "Waning gibbous")
    } else if octant == 6 {
        language.text("Letztes Viertel", "Last quarter")
    } else {
        language.text("Abnehmende Sichel", "Waning crescent")
    }
}

/// How loaded a metric badge shows a resource.
#[derive(Clone, Copy, Debug, PartialEq, Eq, Structural)]
pub enum MetricLevel {
    /// 75 % or more (red).
    High,
    /// 40 % or more (yellow).
    Medium,
    /// Below 40 % (green).
    Low,
    /// Not known (gray).
    Unknown,
}

/// The level that a metric badge shows for a usage in percent.
pub fn metric_level(usage: Option<u8>) -> (r: MetricLevel)
    ensures
        r == (match usage {
            Some(v) => if v >= 75 {
                MetricLevel::High
            } else if v >= 40 {
                MetricLevel::Medium
            } else {
                MetricLevel::Low
            },
            None => MetricLevel::Unknown,
        }),
{
    match usage {
        Some(v) => if v >= 75 {
            MetricLevel::High
        } else if v >= 40 {
            MetricLevel::Medium
        } else {
            MetricLevel::Low
        },
        None => MetricLevel::Unknown,
    }
}


/// A reading of the metric badges: a usage in percent, or the graphics
/// card's power draw in watts; `None` when the hardware does not report it.
#[derive(Clone, Copy, Debug, PartialEq, Eq, Structural)]
pub enum MetricReading {
    Cpu(Option<u8>),
    Ram(Option<u8>),
    Gpu(Option<u8>),
    Vram(Option<u8>),
    Power(Option<u16>),
}

/// A text right-aligned in a field of the given width (`{:>width}`).
pub open spec fn right_aligned(s: Seq<char>, width: nat) -> Seq<char> {
    if s.len() >= width {
        s
    } else {
        Seq::new((width - s.len()) as nat, |i: int| ' ') + s
    }
}

/// The label of a badge.
pub open spec fn badge_label(reading: MetricReading) -> Seq<char> {
    match reading {
        MetricReading::Cpu(_) => "CPU"@,
        MetricReading::Ram(_) => "RAM"@,
        MetricReading::Gpu(_) => "GPU"@,
        MetricReading::Vram(_) => "VRAM"@,
        MetricReading::Power(_) => Seq::empty(),
    }
}

/// The value of a badge: a percentage in two places, watts in three, and a
/// dash when nothing is reported.
pub open spec fn badge_value(reading: MetricReading) -> Option<Seq<char>> {
    match reading {
        MetricReading::Cpu(v) | MetricReading::Ram(v) | MetricReading::Gpu(v) | MetricReading::Vram(
            v,
        ) => match v {
            Some(p) => Some(right_aligned(dec(p as nat), 2) + "%"@),
            None => None,
        },
        MetricReading::Power(w) => match w {
            Some(watts) => Some(right_aligned(dec(watts as nat), 3) + "W"@),
            None => None,
        },
    }
}

/// Text and hint of a metric badge.
pub open spec fn badge_texts(reading: MetricReading, language: Language) -> (Seq<char>, Seq<char>) {
    let label = badge_label(reading);
    let shown = match badge_value(reading) {
        Some(v) => v,
        None => seq!['\u{2014}'],
    };
    let text = if label.len() == 0 {
        shown
    } else {
        label + " "@ + shown
    };
    let hint = match badge_value(reading) {
        Some(v) => match reading {
            MetricReading::Vram(_) => lang(language, "VRAM-Auslastung: "@, "VRAM utilization: "@) + v,
            MetricReading::Power(_) => lang(
                language,
                "Grafikkartenverbrauch: "@,
                "GPU power draw: "@,
            ) + v,
            _ => label + " "@ + lang(language, "Auslastung"@, "utilization"@) + ": "@ + v,
        },
        None => match reading {
            MetricReading::Vram(_) => lang(
                language,
                "VRAM-Wert ist momentan nicht verfügbar."@,
                "VRAM value is currently unavailable."@,
            ),
            MetricReading::Power(_) => lang(
                language,
                "Grafikkartenverbrauch ist für diese Hardware nicht verfügbar."@,
                "GPU power draw is unavailable on this hardware."@,
            ),
            _ => label + " "@ + lang(
                language,
                "ist momentan nicht verfügbar."@,
                "is currently unavailable."@,
            ),
        },
    };
    (text, hint)
}

/// A value that the hardware does not report is never guessed: its badge
/// shows a dash and no digit at all.
pub proof fn lemma_missing_metric_shows_dash(reading: MetricReading, language: Language)
    requires
        badge_value(reading) is None,
    ensures
        badge_texts(reading, language).0.last() == '\u{2014}',
        forall|i: int|
            0 <= i < badge_texts(reading, language).0.len() ==> !crate::text::is_digit(
                #[trigger] badge_texts(reading, language).0[i],
            ),
{
    reveal_strlit("CPU");
    reveal_strlit("RAM");
    reveal_strlit("GPU");
    reveal_strlit("VRAM");
    reveal_strlit(" ");
    let t = badge_texts(reading, language).0;
    assert forall|i: int| 0 <= i < t.len() implies !crate::text::is_digit(#[trigger] t[i]) by {
        let label = badge_label(reading);
        if label.len() > 0 {
            assert(t == label + " "@ + seq!['\u{2014}']);
            if i < label.len() {
                assert(t[i] == label[i]);
            }
        }
    }
}

fn push_right_aligned(s: &mut String, n: u64, width: usize)
    requires
        width <= 3,
    ensures
        final(s)@ == old(s)@ + right_aligned(dec(n as nat), width as nat),
{
    let digits = crate::text::dec_string(n);
    let len = chars_of(digits.as_str()).len();
    let ghost start = s@;
    let mut k: usize = len;
    while k < width
        invariant
            len == dec(n as nat).len(),
            len <= k <= width || (len > width && k == len),
            s@ == start + Seq::new((k - len) as nat, |i: int| ' '),
        decreases width - k,
    {
        crate::text::push_char(s, ' ');
        k += 1;
        assert(s@ =~= start + Seq::new((k - len) as nat, |i: int| ' '));
    }
    push_str(s, digits.as_str());
    if len >= width {
        assert(s@ =~= start + dec(n as nat));
    } else {
        assert(s@ =~= start + (Seq::new((width - len) as nat, |i: int| ' ') + dec(n as nat)));
    }
}

/// The text and the hint of a metric badge; a value that the hardware does
/// not report shows as a dash, never as a number.
pub fn metric_badge(reading: MetricReading, language: Language) -> (r: (String, String))
    ensures
        r.0@ == badge_texts(reading, language).0,
        r.1@ == badge_texts(reading, language).1,
{
    let label: &'static str = match reading {
        MetricReading::Cpu(_) => "CPU",
        MetricReading::Ram(_) => "RAM",
        MetricReading::Gpu(_) => "GPU",
        MetricReading::Vram(_) => "VRAM",
        MetricReading::Power(_) => "",
    };
    proof {
        reveal_strlit("CPU");
        reveal_strlit("RAM");
        reveal_strlit("GPU");
        reveal_strlit("VRAM");
        reveal_strlit("");
    }
    let mut value = String::new();
    let reported = match reading {
        MetricReading::Cpu(v) | MetricReading::Ram(v) | MetricReading::Gpu(v) | MetricReading::Vram(
            v,
        ) => match v {
            Some(p) => {
                push_right_aligned(&mut value, p as u64, 2);
                push_str(&mut value, "%");
                true
            },
            None => false,
        },
        MetricReading::Power(w) => match w {
            Some(watts) => {
                push_right_aligned(&mut value, watts as u64, 3);
                push_str(&mut value, "W");
                true
            },
            None => false,
        },
    };
    let mut text = String::new();
    if !matches!(reading, MetricReading::Power(_)) {
        push_str(&mut text, label);
        push_str(&mut text, " ");
    }
    if reported {
        push_str(&mut text, value.as_str());
    } else {
        crate::text::push_char(&mut text, '\u{2014}');
    }
    let mut hint = String::new();
    if reported {
        match reading {
            MetricReading::Vram(_) => push_str(
                &mut hint,
                language.text("VRAM-Auslastung: ", "VRAM utilization: "),
            ),
            MetricReading::Power(_) => push_str(
                &mut hint,
                language.text("Grafikkartenverbrauch: ", "GPU power draw: "),
            ),
            _ => {
                push_str(&mut hint, label);
                push_str(&mut hint, " ");
                push_str(&mut hint, language.text("Auslastung", "utilization"));
                push_str(&mut hint, ": ");
            },
        }
        push_str(&mut hint, value.as_str());
    } else {
        match reading {
            MetricReading::Vram(_) => push_str(
                &mut hint,
                language.text(
                    "VRAM-Wert ist momentan nicht verfügbar.",
                    "VRAM value is currently unavailable.",
                ),
            ),
            MetricReading::Power(_) => push_str(
                &mut hint,
                language.text(
                    "Grafikkartenverbrauch ist für diese Hardware nicht verfügbar.",
                    "GPU power draw is unavailable on this hardware.",
                ),
            ),
            _ => {
                push_str(&mut hint, label);
                push_str(&mut hint, " ");
                push_str(
                    &mut hint,
                    language.text("ist momentan nicht verfügbar.", "is currently unavailable."),
                );
            },
        }
    }
    (text, hint)
}

// ---------------------------------------------------------------------------
// Actions of the live window
// ---------------------------------------------------------------------------

/// The live window runs one action at a time.
#[derive(Clone, Copy, Debug, PartialEq, Eq, Structural)]
pub struct ActionGate {
    pub in_progress: bool,
    pub pending: Option<NightAction>,
}

impl ActionGate {
    pub fn new() -> (r: Self)
        ensures
            !r.in_progress && r.pending is None,
    {
        ActionGate { in_progress: false, pending: None }
    }

    /// Starts an action unless one is running; true when it was started.
    pub fn begin(&mut self, action: NightAction) -> (started: bool)
        ensures
            started == !old(self).in_progress,
            started ==> final(self).in_progress && final(self).pending == Some(action),
            !started ==> *final(self) == *old(self),
    {
        if self.in_progress {
            return false;
        }
        self.in_progress = true;
        self.pending = Some(action);
        true
    }

    /// The running action's result arrived.
    pub fn finish(&mut self)
        ensures
            !final(self).in_progress && final(self).pending is None,
    {
        self.in_progress = false;
        self.pending = None;
    }
}

/// The tint of a confirmation toast.
#[derive(Clone, Copy, Debug, PartialEq, Eq, Structural)]
pub enum ToastTone {
    Green,
    Gray,
    Red,
    Accent,
}

pub open spec fn toast_of(action: NightAction, language: Language) -> (Seq<char>, ToastTone) {
    match action {
        NightAction::Start => (lang(language, "Nachtmodus aktiv"@, "Night mode active"@), ToastTone::Green),
        NightAction::Stop => (
            lang(language, "Nachtmodus deaktiviert"@, "Night mode disabled"@),
            ToastTone::Gray,
        ),
        NightAction::SetCompletionAction(CompletionAction::Sleep) => (
            lang(language, "Energiesparmodus gewählt"@, "Sleep selected"@),
            ToastTone::Green,
        ),
        NightAction::SetCompletionAction(CompletionAction::Shutdown) => (
            lang(language, "Herunterfahren gewählt"@, "Shutdown selected"@),
            ToastTone::Red,
        ),
        NightAction::SetWarningSeconds(seconds) => (
            lang(language, "Warnfrist auf"@, "Warning period set to"@) + " "@ + dec(seconds as nat)
                + " "@ + lang(language, "Sekunden gesetzt"@, "seconds"@),
            ToastTone::Accent,
        ),
    }
}

/// The toast that confirms a finished action.
pub fn action_toast(action: NightAction, language: Language) -> (r: (String, ToastTone))
    ensures
        r.0@ == toast_of(action, language).0,
        r.1 == toast_of(action, language).1,
{
    let mut s = String::new();
    match action {
        NightAction::Start => {
            push_str(&mut s, language.text("Nachtmodus aktiv", "Night mode active"));
            (s, ToastTone::Green)
        },
        NightAction::Stop => {
            push_str(&mut s, language.text("Nachtmodus deaktiviert", "Night mode disabled"));
            (s, ToastTone::Gray)
        },
        NightAction::SetCompletionAction(CompletionAction::Sleep) => {
            push_str(&mut s, language.text("Energiesparmodus gewählt", "Sleep selected"));
            (s, ToastTone::Green)
        },
        NightAction::SetCompletionAction(CompletionAction::Shutdown) => {
            push_str(&mut s, language.text("Herunterfahren gewählt", "Shutdown selected"));
            (s, ToastTone::Red)
        },
        NightAction::SetWarningSeconds(seconds) => {
            push_str(&mut s, language.text("Warnfrist auf", "Warning period set to"));
            push_str(&mut s, " ");
            push_dec(&mut s, seconds);
            push_str(&mut s, " ");
            push_str(&mut s, language.text("Sekunden gesetzt", "seconds"));
            (s, ToastTone::Accent)
        },
    }
}

/// A status report refreshes the warning-period field unless the user is
/// editing it or a change of it is pending.
pub fn refresh_warning_input(editing: bool, pending: Option<NightAction>) -> (r: bool)
    ensures
        r == (!editing && !(pending matches Some(NightAction::SetWarningSeconds(_)))),
{
    let pending_change = match pending {
        Some(NightAction::SetWarningSeconds(_)) => true,
        _ => false,
    };
    !editing && !pending_change
}

} // verus!
