//! What the tray icon shows and decides: the status lines of the menu and the
//! tooltip, the icon's color, the menu's actions and the messages after them,
//! and when the sleep lock and the expected-exit marker change.
use crate::backend::{AgentSummary, WatchStatus};
use crate::language::Language;
use crate::window_settings::WindowLevel;
use crate::quota::lang;
use crate::text::{
    all_digits, chars_eq, chars_of, contains, dec, digit_value, digits_value, eq_str, is_digit,
    lemma_digits_value_monotone, lemma_starts_differ, lemma_starts_with_append, parse_bounded, parse_unsigned, push_chars, push_dec, push_str,
    starts_with, starts_with_str, subvec,
};
use vstd::prelude::*;

verus! {

// ---------------------------------------------------------------------------
// Status texts
// ---------------------------------------------------------------------------

/// The agent part of the menu's status line.
pub open spec fn agent_summary_text(agents: AgentSummary, language: Language) -> Seq<char> {
    if !agents.available {
        lang(language, "Herdr nicht erreichbar"@, "Herdr unavailable"@)
    } else if language == Language::English {
        "Herdr: "@ + dec(agents.total as nat) + " detected, "@ + dec(agents.working as nat)
            + " working"@
    } else {
        "Herdr: "@ + dec(agents.total as nat) + " erkannt, "@ + dec(agents.working as nat)
            + " arbeitet"@
    }
}

/// The agent part of the menu's status line.
pub fn agent_summary(agents: &AgentSummary, language: Language) -> (r: String)
    ensures
        r@ == agent_summary_text(*agents, language),
{
    let mut s = String::new();
    if !agents.available {
        push_str(&mut s, language.text("Herdr nicht erreichbar", "Herdr unavailable"));
        return s;
    }
    push_str(&mut s, "Herdr: ");
    push_dec(&mut s, agents.total as u64);
    match language {
        Language::English => {
            push_str(&mut s, " detected, ");
            push_dec(&mut s, agents.working as u64);
            push_str(&mut s, " working");
        },
        Language::German => {
            push_str(&mut s, " erkannt, ");
            push_dec(&mut s, agents.working as u64);
            push_str(&mut s, " arbeitet");
        },
    }
    s
}

/// Which agents a run watches: all current ones, or a counted set.
pub open spec fn scope_text(targets: usize, live_scope: bool) -> Seq<char> {
    if live_scope {
        "alle aktuellen Herdr-Agenten"@
    } else {
        dec(targets as nat) + " überwacht"@
    }
}

fn push_scope(s: &mut String, targets: usize, live_scope: bool)
    ensures
        final(s)@ == old(s)@ + scope_text(targets, live_scope),
{
    if live_scope {
        push_str(s, "alle aktuellen Herdr-Agenten");
    } else {
        push_dec(s, targets as u64);
        push_str(s, " überwacht");
    }
}

/// The first line of the tray menu.
pub open spec fn status_line_text(status: WatchStatus, language: Language) -> Seq<char> {
    match status {
        WatchStatus::Off { agents, .. } => "● "@ + lang(
            language,
            "Aus - kein Nachtlauf aktiv"@,
            "Off - no night run active"@,
        ) + " - "@ + agent_summary_text(agents, language),
        WatchStatus::Watching { targets, live_scope, observe_only, quiet, demo, agents, .. } => {
            if demo {
                "● Demo: Ruhezeit und Warnung werden simuliert - "@ + agent_summary_text(
                    agents,
                    language,
                )
            } else {
                "● "@ + (if observe_only {
                    "Beobachtung"@
                } else {
                    "Nachtmodus"@
                }) + ": "@ + scope_text(targets, live_scope) + " - "@ + (if quiet {
                    "Ruhezeit läuft"@
                } else {
                    "Agenten arbeiten oder warten"@
                }) + " - "@ + agent_summary_text(agents, language)
            }
        },
        WatchStatus::ShutdownWarning { targets, live_scope, demo, agents, .. } => {
            if demo {
                "● Demo-Warnung: kein Windows-Shutdown - "@ + agent_summary_text(agents, language)
            } else {
                "● Shutdown-Warnfrist: "@ + scope_text(targets, live_scope)
                    + " - Stopp bricht ab - "@ + agent_summary_text(agents, language)
            }
        },
        WatchStatus::Finished { outcome, agents, .. } => "● Letzter Lauf: "@ + outcome@ + " - "@
            + agent_summary_text(agents, language),
    }
}

/// The tray menu's status line announces a demo exactly for demo runs: it
/// begins with "● Demo" when a watching or warning run is a demo, and a real
/// countdown's line begins with "● Shutdown-Warnfrist".
pub proof fn lemma_status_line_names_demo_runs(status: WatchStatus, language: Language)
    ensures
        starts_with(status_line_text(status, language), "● Demo"@) == (match status {
            WatchStatus::Watching { demo, .. } => demo,
            WatchStatus::ShutdownWarning { demo, .. } => demo,
            _ => false,
        }),
        status matches WatchStatus::ShutdownWarning { demo, .. } && !demo ==> starts_with(
            status_line_text(status, language),
            "● Shutdown-Warnfrist: "@,
        ),
{
    reveal_strlit("● Demo");
    reveal_strlit("● Demo: Ruhezeit und Warnung werden simuliert - ");
    reveal_strlit("● Demo-Warnung: kein Windows-Shutdown - ");
    reveal_strlit("● Shutdown-Warnfrist: ");
    reveal_strlit("● ");
    reveal_strlit("● Letzter Lauf: ");
    let line = status_line_text(status, language);
    let p = "● Demo"@;
    match status {
        WatchStatus::Off { agents, .. } => {
            reveal_strlit("Aus - kein Nachtlauf aktiv");
            reveal_strlit("Off - no night run active");
            let head = "● "@ + lang(language, "Aus - kein Nachtlauf aktiv"@, "Off - no night run active"@);
            let rest = " - "@ + agent_summary_text(agents, language);
            assert(line =~= head + rest);
            assert(starts_with(head, head.take(3)));
            lemma_starts_with_append(head, rest, head.take(3));
            assert(head[2] != p[2]);
            lemma_starts_differ(line, head.take(3), p, 2);
        },
        WatchStatus::Watching { targets, live_scope, observe_only, quiet, demo, agents, .. } => {
            if demo {
                let head = "● Demo: Ruhezeit und Warnung werden simuliert - "@;
                assert(head.take(p.len() as int) =~= p);
                lemma_starts_with_append(head, agent_summary_text(agents, language), p);
            } else {
                reveal_strlit("Beobachtung");
                reveal_strlit("Nachtmodus");
                let word = if observe_only {
                    "Beobachtung"@
                } else {
                    "Nachtmodus"@
                };
                let head = "● "@ + word;
                let rest = ": "@ + scope_text(targets, live_scope) + " - "@ + (if quiet {
                    "Ruhezeit läuft"@
                } else {
                    "Agenten arbeiten oder warten"@
                }) + " - "@ + agent_summary_text(agents, language);
                assert(line =~= head + rest);
                assert(starts_with(head, head.take(3)));
                lemma_starts_with_append(head, rest, head.take(3));
                assert(head[2] != p[2]);
                lemma_starts_differ(line, head.take(3), p, 2);
            }
        },
        WatchStatus::ShutdownWarning { targets, live_scope, demo, agents, .. } => {
            if demo {
                let head = "● Demo-Warnung: kein Windows-Shutdown - "@;
                assert(head.take(p.len() as int) =~= p);
                lemma_starts_with_append(head, agent_summary_text(agents, language), p);
            } else {
                let head = "● Shutdown-Warnfrist: "@;
                let rest = scope_text(targets, live_scope) + " - Stopp bricht ab - "@
                    + agent_summary_text(agents, language);
                assert(line =~= head + rest);
                assert(head.take(head.len() as int) =~= head);
                lemma_starts_with_append(head, rest, head);
                assert(head[2] != p[2]);
                lemma_starts_differ(line, head, p, 2);
            }
        },
        WatchStatus::Finished { outcome, agents, .. } => {
            let head = "● Letzter Lauf: "@;
            let rest = outcome@ + " - "@ + agent_summary_text(agents, language);
            assert(line =~= head + rest);
            assert(head.take(head.len() as int) =~= head);
            lemma_starts_with_append(head, rest, head);
            assert(head[2] != p[2]);
            lemma_starts_differ(line, head, p, 2);
        },
    }
}

/// The first line of the tray menu.
pub fn status_line(status: &WatchStatus, language: Language) -> (r: String)
    ensures
        r@ == status_line_text(*status, language),
{
    let mut s = String::new();
    match status {
        WatchStatus::Off { agents, .. } => {
            push_str(&mut s, "● ");
            push_str(
                &mut s,
                language.text("Aus - kein Nachtlauf aktiv", "Off - no night run active"),
            );
            push_str(&mut s, " - ");
            let a = agent_summary(agents, language);
            push_str(&mut s, a.as_str());
        },
        WatchStatus::Watching { targets, live_scope, observe_only, quiet, demo, agents, .. } => {
            if *demo {
                push_str(&mut s, "● Demo: Ruhezeit und Warnung werden simuliert - ");
            } else {
                push_str(&mut s, "● ");
                push_str(&mut s, if *observe_only { "Beobachtung" } else { "Nachtmodus" });
                push_str(&mut s, ": ");
                push_scope(&mut s, *targets, *live_scope);
                push_str(&mut s, " - ");
                push_str(
                    &mut s,
                    if *quiet { "Ruhezeit läuft" } else { "Agenten arbeiten oder warten" },
                );
                push_str(&mut s, " - ");
            }
            let a = agent_summary(agents, language);
            push_str(&mut s, a.as_str());
        },
        WatchStatus::ShutdownWarning { targets, live_scope, demo, agents, .. } => {
            if *demo {
                push_str(&mut s, "● Demo-Warnung: kein Windows-Shutdown - ");
            } else {
                push_str(&mut s, "● Shutdown-Warnfrist: ");
                push_scope(&mut s, *targets, *live_scope);
                push_str(&mut s, " - Stopp bricht ab - ");
            }
            let a = agent_summary(agents, language);
            push_str(&mut s, a.as_str());
        },
        WatchStatus::Finished { outcome, agents, .. } => {
            push_str(&mut s, "● Letzter Lauf: ");
            push_str(&mut s, outcome.as_str());
            push_str(&mut s, " - ");
            let a = agent_summary(agents, language);
            push_str(&mut s, a.as_str());
        },
    }
    s
}

/// The agent count of the tooltip.
pub open spec fn herdr_count_text(agents: AgentSummary) -> Seq<char> {
    if agents.available {
        "Herdr "@ + dec(agents.working as nat) + "/"@ + dec(agents.total as nat) + " aktiv"@
    } else {
        "Herdr nicht erreichbar"@
    }
}

/// The short status of the tooltip.
pub open spec fn compact_status_text(status: WatchStatus) -> Seq<char> {
    match status {
        WatchStatus::Off { agents, .. } => "Aus · "@ + herdr_count_text(agents),
        WatchStatus::Watching { targets, live_scope, observe_only, quiet, demo, agents, .. } => {
            if demo {
                "Demo · "@ + herdr_count_text(agents)
            } else {
                let mode = if observe_only {
                    "Beobachtung"@
                } else if quiet {
                    "Ruhezeit"@
                } else {
                    "Nacht"@
                };
                if live_scope {
                    mode + " · alle Herdr-Agenten · "@ + herdr_count_text(agents)
                } else {
                    mode + " · "@ + dec(targets as nat) + " Ziel · "@ + herdr_count_text(agents)
                }
            }
        },
        WatchStatus::ShutdownWarning { targets, live_scope, demo, agents, .. } => {
            if demo {
                "Demo-Warnung · "@ + herdr_count_text(agents)
            } else if live_scope {
                "Warnung · alle Herdr-Agenten · "@ + herdr_count_text(agents)
            } else {
                "Warnung · "@ + dec(targets as nat) + " Ziel · "@ + herdr_count_text(agents)
            }
        },
        WatchStatus::Finished { agents, .. } => "Fertig · "@ + herdr_count_text(agents),
    }
}

fn push_herdr_count(s: &mut String, agents: &AgentSummary)
    ensures
        final(s)@ == old(s)@ + herdr_count_text(*agents),
{
    if agents.available {
        push_str(s, "Herdr ");
        push_dec(s, agents.working as u64);
        push_str(s, "/");
        push_dec(s, agents.total as u64);
        push_str(s, " aktiv");
    } else {
        push_str(s, "Herdr nicht erreichbar");
    }
}

/// The short status of the tooltip.
pub fn compact_status_line(status: &WatchStatus, language: Language) -> (r: String)
    ensures
        r@ == compact_status_text(*status),
{
    let mut s = String::new();
    match status {
        WatchStatus::Off { agents, .. } => {
            push_str(&mut s, "Aus · ");
            push_herdr_count(&mut s, agents);
        },
        WatchStatus::Watching { targets, live_scope, observe_only, quiet, demo, agents, .. } => {
            if *demo {
                push_str(&mut s, "Demo · ");
            } else {
                let mode = if *observe_only {
                    "Beobachtung"
                } else if *quiet {
                    "Ruhezeit"
                } else {
                    "Nacht"
                };
                push_str(&mut s, mode);
                if *live_scope {
                    push_str(&mut s, " · alle Herdr-Agenten · ");
                } else {
                    push_str(&mut s, " · ");
                    push_dec(&mut s, *targets as u64);
                    push_str(&mut s, " Ziel · ");
                }
            }
            push_herdr_count(&mut s, agents);
        },
        WatchStatus::ShutdownWarning { targets, live_scope, demo, agents, .. } => {
            if *demo {
                push_str(&mut s, "Demo-Warnung · ");
            } else if *live_scope {
                push_str(&mut s, "Warnung · alle Herdr-Agenten · ");
            } else {
                push_str(&mut s, "Warnung · ");
                push_dec(&mut s, *targets as u64);
                push_str(&mut s, " Ziel · ");
            }
            push_herdr_count(&mut s, agents);
        },
        WatchStatus::Finished { agents, .. } => {
            push_str(&mut s, "Fertig · ");
            push_herdr_count(&mut s, agents);
        },
    }
    s
}

/// The tray icon's tooltip: the app's name over the short status.
pub fn tooltip(status: &WatchStatus, message: Option<&str>, language: Language) -> (r: String)
    ensures
        r@ == lang(language, "Herdr-Nachtwächter"@, "Herdr Night Watch"@) + "\n"@
            + compact_status_text(*status),
{
    let mut s = String::new();
    push_str(&mut s, language.text("Herdr-Nachtwächter", "Herdr Night Watch"));
    push_str(&mut s, "\n");
    let c = compact_status_line(status, language);
    push_str(&mut s, c.as_str());
    s
}

// ---------------------------------------------------------------------------
// Icon color
// ---------------------------------------------------------------------------

/// The color that the tray icon is painted in for a status: grey when no
/// night run is active (off, or the last run finished), blue while only
/// observing, yellow in the quiet period, green while agents work, red during
/// the shutdown warning.
pub open spec fn icon_color_of(status: WatchStatus) -> (u8, u8, u8) {
    match status {
        WatchStatus::Off { .. } => (148, 163, 184),
        WatchStatus::Watching { observe_only, quiet, .. } => if observe_only {
            (59, 130, 246)
        } else if quiet {
            (245, 158, 11)
        } else {
            (34, 197, 94)
        },
        WatchStatus::ShutdownWarning { .. } => (248, 113, 113),
        WatchStatus::Finished { .. } => (148, 163, 184),
    }
}

/// The color that the tray icon is painted in for a status.
pub fn icon_color(status: &WatchStatus) -> (r: (u8, u8, u8))
    ensures
        r == icon_color_of(*status),
{
    match status {
        WatchStatus::Off { .. } => (148, 163, 184),
        WatchStatus::Watching { observe_only, quiet, .. } => if *observe_only {
            (59, 130, 246)
        } else if *quiet {
            (245, 158, 11)
        } else {
            (34, 197, 94)
        },
        WatchStatus::ShutdownWarning { .. } => (248, 113, 113),
        WatchStatus::Finished { .. } => (148, 163, 184),
    }
}

/// Paints every pixel of an RGBA image in one color, keeping its alpha.
pub fn tint_rgba(rgba: &mut Vec<u8>, color: (u8, u8, u8))
    ensures
        final(rgba)@.len() == old(rgba)@.len(),
        forall|i: int|
            0 <= i < old(rgba)@.len() ==> #[trigger] final(rgba)@[i] == tinted(
                old(rgba)@,
                color,
                i,
            ),
{
    let ghost start = rgba@;
    let n = rgba.len();
    let whole = n - n % 4;
    let mut i: usize = 0;
    while i < whole
        invariant
            n == start.len(),
            whole == n - n % 4,
            i <= whole,
            i % 4 == 0,
            rgba@.len() == n,
            forall|k: int| 0 <= k < i ==> #[trigger] rgba@[k] == tinted(start, color, k),
            forall|k: int| i <= k < n ==> #[trigger] rgba@[k] == start[k],
        decreases whole - i,
    {
        rgba.set(i, color.0);
        rgba.set(i + 1, color.1);
        rgba.set(i + 2, color.2);
        i += 4;
    }
}

/// A byte of the tinted image: in each whole pixel the red, green and blue
/// bytes take the color, alpha and an incomplete last pixel stay.
pub open spec fn tinted(rgba: Seq<u8>, color: (u8, u8, u8), i: int) -> u8 {
    let whole = rgba.len() - rgba.len() % 4;
    if i < whole && i % 4 == 0 {
        color.0
    } else if i < whole && i % 4 == 1 {
        color.1
    } else if i < whole && i % 4 == 2 {
        color.2
    } else {
        rgba[i]
    }
}

// ---------------------------------------------------------------------------
// Decisions
// ---------------------------------------------------------------------------

/// A night run is active while the watcher watches or counts down.
pub open spec fn active_spec(status: WatchStatus) -> bool {
    match status {
        WatchStatus::Watching { .. } | WatchStatus::ShutdownWarning { .. } => true,
        _ => false,
    }
}

/// Whether a night run is active: then the menu offers only stopping, quitting
/// stops the run first, and the system must be kept from sleeping.
pub fn night_run_active(status: &WatchStatus) -> (r: bool)
    ensures
        r == active_spec(*status),
{
    match status {
        WatchStatus::Watching { .. } | WatchStatus::ShutdownWarning { .. } => true,
        _ => false,
    }
}

/// What a new status does to the expected-exit marker: a real countdown sets
/// it, watching or being off clears it, and a finished run or a demo or
/// observe-only countdown leaves it as it is (`None`).
pub fn expected_exit_update(status: &WatchStatus) -> (r: Option<bool>)
    ensures
        r == (match *status {
            WatchStatus::ShutdownWarning { demo, observe_only, .. } => if !demo && !observe_only {
                Some(true)
            } else {
                None
            },
            WatchStatus::Watching { .. } | WatchStatus::Off { .. } => Some(false),
            WatchStatus::Finished { .. } => None,
        }),
{
    match status {
        WatchStatus::ShutdownWarning { demo, observe_only, .. } => if !*demo && !*observe_only {
            Some(true)
        } else {
            None
        },
        WatchStatus::Watching { .. } | WatchStatus::Off { .. } => Some(false),
        WatchStatus::Finished { .. } => None,
    }
}

/// The completion notice is shown once, when a countdown begins: the new
/// status counts down and the previous one did not.
pub fn warning_begins(previous: &WatchStatus, next: &WatchStatus) -> (r: bool)
    ensures
        r == (next is ShutdownWarning && !(previous is ShutdownWarning)),
{
    let n = match next {
        WatchStatus::ShutdownWarning { .. } => true,
        _ => false,
    };
    let p = match previous {
        WatchStatus::ShutdownWarning { .. } => true,
        _ => false,
    };
    n && !p
}

/// The request for the sleep lock after a status report: to keep the system
/// awake exactly while a night run is active, unless the last request
/// already asked for that.
pub open spec fn guard_request(status: WatchStatus, last_attempted: Option<bool>) -> Option<bool> {
    if last_attempted == Some(active_spec(status)) {
        None
    } else {
        Some(active_spec(status))
    }
}

/// What the sleep lock should be after a status report, given the last state
/// that was requested: `Some(keep_awake)` when a request is due, `None` when
/// the last request already asked for it.
pub fn power_guard_request(status: &WatchStatus, last_attempted: Option<bool>) -> (r: Option<bool>)
    ensures
        r == guard_request(*status, last_attempted),
{
    let wanted = night_run_active(status);
    match last_attempted {
        Some(last) => if last == wanted {
            None
        } else {
            Some(wanted)
        },
        None => Some(wanted),
    }
}


// ---------------------------------------------------------------------------
// Menu actions
// ---------------------------------------------------------------------------

/// Why a number could not be read (the kinds of `std::num::IntErrorKind`
/// that parsing an unsigned byte can give).
#[derive(Clone, Copy, Debug, PartialEq, Eq, Structural)]
pub enum IntErrorKind {
    Empty,
    InvalidDigit,
    PosOverflow,
}

impl IntErrorKind {
    /// The text that `ParseIntError` displays for this kind.
    pub fn message(self) -> (r: &'static str)
        ensures
            r@ == int_error_text(self),
    {
        match self {
            IntErrorKind::Empty => "cannot parse integer from empty string",
            IntErrorKind::InvalidDigit => "invalid digit found in string",
            IntErrorKind::PosOverflow => "number too large to fit in target type",
        }
    }
}

pub open spec fn int_error_text(kind: IntErrorKind) -> Seq<char> {
    match kind {
        IntErrorKind::Empty => "cannot parse integer from empty string"@,
        IntErrorKind::InvalidDigit => "invalid digit found in string"@,
        IntErrorKind::PosOverflow => "number too large to fit in target type"@,
    }
}

/// `k` is the length of the run of digits that `s` starts with.
pub open spec fn digit_run(s: Seq<char>, k: int) -> bool {
    0 <= k <= s.len() && all_digits(s.take(k)) && (k == s.len() || !is_digit(s[k]))
}

/// The digits that `body` begins with exceed 255.
pub open spec fn overflows_u8(body: Seq<char>) -> bool {
    exists|k: int| digit_run(body, k) && #[trigger] digits_value(body.take(k)) > 255
}

/// `str::parse::<u8>`: an optional `+`, then digits. Reading stops at the
/// first character that is not a digit, or at the first digit that makes the
/// value exceed 255, whichever comes first.
pub open spec fn parse_u8_spec(s: Seq<char>) -> Result<u8, IntErrorKind> {
    if s.len() == 0 {
        Err(IntErrorKind::Empty)
    } else if s.len() == 1 && (s[0] == '+' || s[0] == '-') {
        Err(IntErrorKind::InvalidDigit)
    } else {
        match parse_bounded(s, 255) {
            Some(v) => Ok(v as u8),
            None => {
                let body = if s[0] == '+' {
                    s.drop_first()
                } else {
                    s
                };
                if overflows_u8(body) {
                    Err(IntErrorKind::PosOverflow)
                } else {
                    Err(IntErrorKind::InvalidDigit)
                }
            },
        }
    }
}

/// Whether the digits that `v[start..]` begins with exceed 255.
fn leading_digits_overflow_u8(v: &[char], start: usize) -> (r: bool)
    requires
        start <= v@.len(),
    ensures
        r == overflows_u8(v@.skip(start as int)),
{
    let ghost body = v@.skip(start as int);
    let n = v.len();
    let mut i = start;
    let mut acc: u64 = 0;
    while i < n && '0' <= v[i] && v[i] <= '9'
        invariant
            start <= i <= n,
            n == v@.len(),
            body == v@.skip(start as int),
            all_digits(body.take(i - start)),
            acc == (if digits_value(body.take(i - start)) > 255 {
                256
            } else {
                digits_value(body.take(i - start))
            }),
        decreases n - i,
    {
        let d = (v[i] as u32 - '0' as u32) as u64;
        assert(body.take(i - start + 1).drop_last() == body.take(i - start));
        assert(body.take(i - start + 1).last() == v@[i as int]);
        proof {
            let dv = digits_value(body.take(i - start));
            assert(digits_value(body.take(i - start + 1)) == dv * 10 + d);
            if dv > 255 {
                assert(dv * 10 + d > 255) by (nonlinear_arith)
                    requires
                        dv > 255,
                        d >= 0,
                ;
            }
        }
        acc = if acc > 255 || acc * 10 + d > 255 {
            256
        } else {
            acc * 10 + d
        };
        i += 1;
        assert(all_digits(body.take(i - start)));
    }
    let ghost k: int = (i - start) as int;
    assert(digit_run(body, k));
    assert forall|j: int| digit_run(body, j) implies j == k by {
        if j < k {
            assert(body.take(k)[j] == body[j]);
        } else if j > k {
            assert(body.take(j)[k] == body[k]);
        }
    }
    assert(acc > 255 ==> digits_value(body.take(k)) > 255);
    acc > 255
}

/// `str::parse::<u8>`.
pub fn parse_u8(v: &[char]) -> (r: Result<u8, IntErrorKind>)
    ensures
        r == parse_u8_spec(v@),
{
    if v.len() == 0 {
        return Err(IntErrorKind::Empty);
    }
    if v.len() == 1 && (v[0] == '+' || v[0] == '-') {
        return Err(IntErrorKind::InvalidDigit);
    }
    match parse_unsigned(v, 255) {
        Some(x) => Ok(x as u8),
        None => {
            let start: usize = if v[0] == '+' {
                1
            } else {
                0
            };
            assert(v@.skip(1) == v@.drop_first());
            assert(v@.skip(0) == v@);
            if leading_digits_overflow_u8(v, start) {
                Err(IntErrorKind::PosOverflow)
            } else {
                Err(IntErrorKind::InvalidDigit)
            }
        },
    }
}

/// A command of the tray menu.
#[derive(Clone, Copy, Debug, PartialEq, Eq, Structural)]
pub enum TrayAction {
    Start,
    Observe,
    Stop,
    Log,
    LiveStatus,
    WeatherLocation,
    LiveStatusOnStart,
    Demo,
    Settings,
    Autostart,
    LanguageGerman,
    LanguageEnglish,
    WindowLevelNormal,
    WindowLevelTop,
    WindowLevelBottom,
    WindowOpacity(u8),
    InvalidOpacity(IntErrorKind),
    Quit,
}

/// `s` with every leading repetition of `p` removed
/// (`str::trim_start_matches`).
pub open spec fn strip_prefixes(s: Seq<char>, p: Seq<char>) -> Seq<char>
    decreases s.len(),
{
    if p.len() > 0 && starts_with(s, p) {
        strip_prefixes(s.skip(p.len() as int), p)
    } else {
        s
    }
}

/// Menu id prefix of the opacity choices.
pub open spec fn opacity_prefix() -> Seq<char> {
    "window_opacity_"@
}

/// The command that a menu id stands for.
pub open spec fn action_of(id: Seq<char>) -> Option<TrayAction> {
    if id == "start"@ {
        Some(TrayAction::Start)
    } else if id == "observe"@ {
        Some(TrayAction::Observe)
    } else if id == "stop"@ {
        Some(TrayAction::Stop)
    } else if id == "log"@ {
        Some(TrayAction::Log)
    } else if id == "live_status"@ {
        Some(TrayAction::LiveStatus)
    } else if id == "weather_location"@ {
        Some(TrayAction::WeatherLocation)
    } else if id == "live_status_on_start"@ {
        Some(TrayAction::LiveStatusOnStart)
    } else if id == "demo"@ {
        Some(TrayAction::Demo)
    } else if id == "settings"@ {
        Some(TrayAction::Settings)
    } else if id == "autostart"@ {
        Some(TrayAction::Autostart)
    } else if id == "language_de"@ {
        Some(TrayAction::LanguageGerman)
    } else if id == "language_en"@ {
        Some(TrayAction::LanguageEnglish)
    } else if id == "window_level_normal"@ {
        Some(TrayAction::WindowLevelNormal)
    } else if id == "window_level_top"@ {
        Some(TrayAction::WindowLevelTop)
    } else if id == "window_level_bottom"@ {
        Some(TrayAction::WindowLevelBottom)
    } else if starts_with(id, opacity_prefix()) {
        Some(
            match parse_u8_spec(strip_prefixes(id, opacity_prefix())) {
                Ok(v) => TrayAction::WindowOpacity(v),
                Err(kind) => TrayAction::InvalidOpacity(kind),
            },
        )
    } else if id == "quit"@ {
        Some(TrayAction::Quit)
    } else {
        None
    }
}

/// `v` with every leading repetition of `p` removed.
pub fn strip_all_prefixes(v: &[char], p: &str) -> (r: Vec<char>)
    ensures
        r@ == strip_prefixes(v@, p@),
{
    let pv = chars_of(p);
    let mut cur: Vec<char> = subvec(v, 0, v.len());
    assert(cur@ == v@.subrange(0, v@.len() as int));
    assert(v@.subrange(0, v@.len() as int) == v@);
    while pv.len() > 0 && starts_with_str(&cur, p)
        invariant
            pv@ == p@,
            strip_prefixes(cur@, p@) == strip_prefixes(v@, p@),
        decreases cur@.len(),
    {
        let next = subvec(&cur, pv.len(), cur.len());
        assert(next@ == cur@.skip(p@.len() as int));
        cur = next;
    }
    cur
}

/// The command that a menu id stands for (`None` for an id that is no
/// command).
pub fn menu_action(id: &str) -> (r: Option<TrayAction>)
    ensures
        r == action_of(id@),
{
    let v = chars_of(id);
    if eq_str(&v, "start") {
        Some(TrayAction::Start)
    } else if eq_str(&v, "observe") {
        Some(TrayAction::Observe)
    } else if eq_str(&v, "stop") {
        Some(TrayAction::Stop)
    } else if eq_str(&v, "log") {
        Some(TrayAction::Log)
    } else if eq_str(&v, "live_status") {
        Some(TrayAction::LiveStatus)
    } else if eq_str(&v, "weather_location") {
        Some(TrayAction::WeatherLocation)
    } else if eq_str(&v, "live_status_on_start") {
        Some(TrayAction::LiveStatusOnStart)
    } else if eq_str(&v, "demo") {
        Some(TrayAction::Demo)
    } else if eq_str(&v, "settings") {
        Some(TrayAction::Settings)
    } else if eq_str(&v, "autostart") {
        Some(TrayAction::Autostart)
    } else if eq_str(&v, "language_de") {
        Some(TrayAction::LanguageGerman)
    } else if eq_str(&v, "language_en") {
        Some(TrayAction::LanguageEnglish)
    } else if eq_str(&v, "window_level_normal") {
        Some(TrayAction::WindowLevelNormal)
    } else if eq_str(&v, "window_level_top") {
        Some(TrayAction::WindowLevelTop)
    } else if eq_str(&v, "window_level_bottom") {
        Some(TrayAction::WindowLevelBottom)
    } else if starts_with_str(&v, "window_opacity_") {
        let rest = strip_all_prefixes(&v, "window_opacity_");
        Some(
            match parse_u8(&rest) {
                Ok(v) => TrayAction::WindowOpacity(v),
                Err(kind) => TrayAction::InvalidOpacity(kind),
            },
        )
    } else if eq_str(&v, "quit") {
        Some(TrayAction::Quit)
    } else {
        None
    }
}

/// The message after a command succeeded; `language` is the language the
/// command was given in.
pub open spec fn success_text(id: Seq<char>, action: TrayAction, language: Language) -> Seq<
    char,
> {
    match action {
        TrayAction::Start => "Nachtmodus gestartet"@,
        TrayAction::Observe => "Beobachtung gestartet - kein Shutdown"@,
        TrayAction::Stop => "Nachtmodus gestoppt"@,
        TrayAction::Log => "Protokoll geöffnet"@,
        TrayAction::LiveStatus => "Live-Status geöffnet"@,
        TrayAction::WeatherLocation => lang(
            language,
            "Wetterort geöffnet"@,
            "Weather location opened"@,
        ),
        TrayAction::LiveStatusOnStart => lang(
            language,
            "Live-Fenster-Start geändert"@,
            "Live-window startup setting changed"@,
        ),
        TrayAction::Demo => "Demo gestartet - kein Shutdown"@,
        TrayAction::Settings => "Einrichtung geöffnet"@,
        TrayAction::Autostart => "Autostart geändert"@,
        TrayAction::LanguageGerman => "Sprache auf Deutsch gesetzt"@,
        TrayAction::LanguageEnglish => "Language set to English"@,
        TrayAction::WindowLevelNormal => lang(
            language,
            "Fenster auf normale Ebene gesetzt"@,
            "Window set to normal level"@,
        ),
        TrayAction::WindowLevelTop => lang(
            language,
            "Fenster bleibt im Vordergrund"@,
            "Window stays on top"@,
        ),
        TrayAction::WindowLevelBottom => lang(
            language,
            "Fenster bleibt im Hintergrund"@,
            "Window stays in background"@,
        ),
        TrayAction::WindowOpacity(_) => if language == Language::German {
            "Fenstertransparenz auf "@ + strip_prefixes(id, opacity_prefix()) + " % gesetzt"@
        } else {
            "Window opacity set to "@ + strip_prefixes(id, opacity_prefix()) + "%"@
        },
        TrayAction::InvalidOpacity(_) | TrayAction::Quit => Seq::empty(),
    }
}

/// The message after a command succeeded.
pub fn success_message(id: &str, action: TrayAction, language: Language) -> (r: String)
    ensures
        r@ == success_text(id@, action, language),
{
    let mut s = String::new();
    match action {
        TrayAction::Start => push_str(&mut s, "Nachtmodus gestartet"),
        TrayAction::Observe => push_str(&mut s, "Beobachtung gestartet - kein Shutdown"),
        TrayAction::Stop => push_str(&mut s, "Nachtmodus gestoppt"),
        TrayAction::Log => push_str(&mut s, "Protokoll geöffnet"),
        TrayAction::LiveStatus => push_str(&mut s, "Live-Status geöffnet"),
        TrayAction::WeatherLocation => push_str(
            &mut s,
            language.text("Wetterort geöffnet", "Weather location opened"),
        ),
        TrayAction::LiveStatusOnStart => push_str(
            &mut s,
            language.text("Live-Fenster-Start geändert", "Live-window startup setting changed"),
        ),
        TrayAction::Demo => push_str(&mut s, "Demo gestartet - kein Shutdown"),
        TrayAction::Settings => push_str(&mut s, "Einrichtung geöffnet"),
        TrayAction::Autostart => push_str(&mut s, "Autostart geändert"),
        TrayAction::LanguageGerman => push_str(&mut s, "Sprache auf Deutsch gesetzt"),
        TrayAction::LanguageEnglish => push_str(&mut s, "Language set to English"),
        TrayAction::WindowLevelNormal => push_str(
            &mut s,
            language.text("Fenster auf normale Ebene gesetzt", "Window set to normal level"),
        ),
        TrayAction::WindowLevelTop => push_str(
            &mut s,
            language.text("Fenster bleibt im Vordergrund", "Window stays on top"),
        ),
        TrayAction::WindowLevelBottom => push_str(
            &mut s,
            language.text("Fenster bleibt im Hintergrund", "Window stays in background"),
        ),
        TrayAction::WindowOpacity(_) => {
            let v = chars_of(id);
            let rest = strip_all_prefixes(&v, "window_opacity_");
            match language {
                Language::German => {
                    push_str(&mut s, "Fenstertransparenz auf ");
                    push_chars(&mut s, &rest);
                    push_str(&mut s, " % gesetzt");
                },
                Language::English => {
                    push_str(&mut s, "Window opacity set to ");
                    push_chars(&mut s, &rest);
                    push_str(&mut s, "%");
                },
            }
        },
        TrayAction::InvalidOpacity(_) | TrayAction::Quit => {},
    }
    s
}

/// The message after a command failed.
pub fn error_message(detail: &str) -> (r: String)
    ensures
        r@ == "Fehler: "@ + detail@,
{
    let mut s = String::new();
    push_str(&mut s, "Fehler: ");
    push_str(&mut s, detail);
    s
}

/// The failure of an opacity id whose number cannot be read.
pub fn invalid_opacity_detail(kind: IntErrorKind) -> (r: String)
    ensures
        r@ == "invalid opacity value: "@ + int_error_text(kind),
{
    let mut s = String::new();
    push_str(&mut s, "invalid opacity value: ");
    push_str(&mut s, kind.message());
    s
}

/// An error message stays after a status report only while the sleep lock is
/// failing; otherwise a report that arrives clears it.
pub fn keep_message_after_report(message: Option<&str>, power_guard_error: bool) -> (r: bool)
    ensures
        r == !(!power_guard_error && (match message {
            Some(m) => starts_with(m@, "Fehler:"@),
            None => false,
        })),
{
    match message {
        Some(m) => {
            let v = chars_of(m);
            !(!power_guard_error && starts_with_str(&v, "Fehler:"))
        },
        None => true,
    }
}


// ---------------------------------------------------------------------------
// The tray menu
// ---------------------------------------------------------------------------

/// The kind of a menu line; submenus are given by their begin and end.
#[derive(Clone, Copy, Debug, PartialEq, Eq, Structural)]
pub enum MenuItemKind {
    Item,
    Check(bool),
    Separator,
    SubmenuBegin,
    SubmenuEnd,
}

/// One line of the tray menu.
#[derive(Clone, Debug)]
pub struct MenuEntry {
    pub id: String,
    pub label: String,
    pub enabled: bool,
    pub kind: MenuItemKind,
}

pub open spec fn menu_view(v: Seq<MenuEntry>) -> Seq<(Seq<char>, Seq<char>, bool, MenuItemKind)> {
    Seq::new(v.len(), |i: int| (v[i].id@, v[i].label@, v[i].enabled, v[i].kind))
}

pub open spec fn item(id: Seq<char>, label: Seq<char>, enabled: bool) -> (
    Seq<char>,
    Seq<char>,
    bool,
    MenuItemKind,
) {
    (id, label, enabled, MenuItemKind::Item)
}

pub open spec fn check(id: Seq<char>, label: Seq<char>, checked: bool) -> (
    Seq<char>,
    Seq<char>,
    bool,
    MenuItemKind,
) {
    (id, label, true, MenuItemKind::Check(checked))
}

pub open spec fn separator() -> (Seq<char>, Seq<char>, bool, MenuItemKind) {
    (Seq::empty(), Seq::empty(), true, MenuItemKind::Separator)
}

pub open spec fn submenu(label: Seq<char>) -> (Seq<char>, Seq<char>, bool, MenuItemKind) {
    (Seq::empty(), label, true, MenuItemKind::SubmenuBegin)
}

pub open spec fn submenu_end() -> (Seq<char>, Seq<char>, bool, MenuItemKind) {
    (Seq::empty(), Seq::empty(), true, MenuItemKind::SubmenuEnd)
}

/// The opacity choice of `value` percent.
pub open spec fn opacity_line(value: u8, current: u8, language: Language) -> (
    Seq<char>,
    Seq<char>,
    bool,
    MenuItemKind,
) {
    check(
        "window_opacity_"@ + dec(value as nat),
        if value == 100 {
            lang(language, "100 % (deckend)"@, "100% (opaque)"@)
        } else {
            dec(value as nat) + " %"@
        },
        value == current,
    )
}

/// The lines of the tray menu: the status (and the last message), the night
/// run's commands (start, observe and demo only while no run is active,
/// stop only while one is), the windows, the window settings with the
/// current opacity and level checked, the log, autostart, the language and
/// quitting.
pub open spec fn menu_lines(
    status: WatchStatus,
    message: Option<Seq<char>>,
    autostart: bool,
    language: Language,
    live_on_start: bool,
    opacity: u8,
    level: WindowLevel,
) -> Seq<(Seq<char>, Seq<char>, bool, MenuItemKind)> {
    menu_head(status, message, language) + menu_commands(
        active_spec(status),
        language,
        live_on_start,
    ) + opacity_lines(opacity, language) + menu_tail(autostart, language, level)
}

/// The status line and the last message.
pub open spec fn menu_head(status: WatchStatus, message: Option<Seq<char>>, language: Language) -> Seq<
    (Seq<char>, Seq<char>, bool, MenuItemKind),
> {
    seq![item("status"@, status_line_text(status, language), false)] + (match message {
        Some(m) => seq![item("message"@, m, false)],
        None => Seq::empty(),
    })
}

/// The night run's commands and the windows, up to the opacity choices.
pub open spec fn menu_commands(active: bool, language: Language, live_on_start: bool) -> Seq<
    (Seq<char>, Seq<char>, bool, MenuItemKind),
> {
    seq![
        separator(),
        item("start"@, lang(language, "Nachtmodus starten"@, "Start night mode"@), !active),
        item("observe"@, lang(language, "Nur beobachten"@, "Observe only"@), !active),
        item(
            "stop"@,
            lang(language, "Stopp und Shutdown abbrechen"@, "Stop and cancel shutdown"@),
            active,
        ),
        item(
            "demo"@,
            lang(language, "Demo: Abschluss simulieren"@, "Demo: simulate completion"@),
            !active,
        ),
        separator(),
        item("live_status"@, lang(language, "Live-Status öffnen"@, "Open live status"@), true),
        item(
            "weather_location"@,
            lang(language, "Wetterort ändern"@, "Change weather location"@),
            true,
        ),
        check(
            "live_status_on_start"@,
            lang(language, "Live-Fenster beim Start öffnen"@, "Open live window at startup"@),
            live_on_start,
        ),
        item("settings"@, lang(language, "Einrichtung öffnen"@, "Open setup"@), true),
        submenu(lang(language, "Fenstereinstellungen"@, "Window settings"@)),
        submenu(lang(language, "Fenstertransparenz"@, "Window opacity"@)),
    ]
}

/// The ten opacity choices, 100 % down to 10 %.
pub open spec fn opacity_lines(opacity: u8, language: Language) -> Seq<
    (Seq<char>, Seq<char>, bool, MenuItemKind),
> {
    Seq::new(10, |k: int| opacity_line((100 - 10 * k) as u8, opacity, language))
}

/// The window level, the log, autostart, the language and quitting.
pub open spec fn menu_tail(autostart: bool, language: Language, level: WindowLevel) -> Seq<
    (Seq<char>, Seq<char>, bool, MenuItemKind),
> {
    seq![
        submenu_end(),
        submenu(lang(language, "Fensterebene"@, "Window level"@)),
        check(
            "window_level_normal"@,
            lang(language, "Normal"@, "Normal"@),
            level == WindowLevel::Normal,
        ),
        check(
            "window_level_top"@,
            lang(language, "Immer im Vordergrund"@, "Always on top"@),
            level == WindowLevel::AlwaysOnTop,
        ),
        check(
            "window_level_bottom"@,
            lang(language, "Immer im Hintergrund"@, "Always in background"@),
            level == WindowLevel::AlwaysOnBottom,
        ),
        submenu_end(),
        submenu_end(),
        item("log"@, lang(language, "Protokoll öffnen"@, "Open log"@), true),
        check("autostart"@, lang(language, "Mit Windows starten"@, "Start with Windows"@), autostart),
        separator(),
        submenu("Sprache / Language"@),
        check("language_de"@, "Deutsch"@, language == Language::German),
        check("language_en"@, "English"@, language == Language::English),
        submenu_end(),
        item("quit"@, lang(language, "Tray-App beenden"@, "Quit tray app"@), true),
    ]
}

fn text_of(t: &str) -> (r: String)
    ensures
        r@ == t@,
{
    let mut s = String::new();
    push_str(&mut s, t);
    s
}

/// Appends a separator or the begin or end of a submenu (lines without id).
fn push_marker(menu: &mut Vec<MenuEntry>, label: String, kind: MenuItemKind)
    ensures
        menu_view(final(menu)@) == menu_view(old(menu)@).push((Seq::empty(), label@, true, kind)),
{
    let ghost before = menu_view(menu@);
    menu.push(MenuEntry { id: String::new(), label, enabled: true, kind });
    assert(menu_view(menu@) =~= before.push((Seq::empty(), label@, true, kind)));
}

fn push_line(menu: &mut Vec<MenuEntry>, id: &str, label: String, enabled: bool, kind: MenuItemKind)
    ensures
        menu_view(final(menu)@) == menu_view(old(menu)@).push((id@, label@, enabled, kind)),
{
    let ghost before = menu_view(menu@);
    menu.push(MenuEntry { id: text_of(id), label, enabled, kind });
    assert(menu_view(menu@) =~= before.push((id@, label@, enabled, kind)));
}

/// Appends the night run's commands and the windows.
#[verifier::spinoff_prover]
#[verifier::rlimit(30)]
fn push_commands(menu: &mut Vec<MenuEntry>, active: bool, language: Language, live_on_start: bool)
    ensures
        menu_view(final(menu)@) == menu_view(old(menu)@) + menu_commands(
            active,
            language,
            live_on_start,
        ),
{
    let ghost start = menu_view(menu@);
    push_marker(menu, String::new(), MenuItemKind::Separator);
    push_line(
        menu,
        "start",
        text_of(language.text("Nachtmodus starten", "Start night mode")),
        !active,
        MenuItemKind::Item,
    );
    push_line(
        menu,
        "observe",
        text_of(language.text("Nur beobachten", "Observe only")),
        !active,
        MenuItemKind::Item,
    );
    push_line(
        menu,
        "stop",
        text_of(language.text("Stopp und Shutdown abbrechen", "Stop and cancel shutdown")),
        active,
        MenuItemKind::Item,
    );
    push_line(
        menu,
        "demo",
        text_of(language.text("Demo: Abschluss simulieren", "Demo: simulate completion")),
        !active,
        MenuItemKind::Item,
    );
    push_marker(menu, String::new(), MenuItemKind::Separator);
    push_line(
        menu,
        "live_status",
        text_of(language.text("Live-Status öffnen", "Open live status")),
        true,
        MenuItemKind::Item,
    );
    push_line(
        menu,
        "weather_location",
        text_of(language.text("Wetterort ändern", "Change weather location")),
        true,
        MenuItemKind::Item,
    );
    push_line(
        menu,
        "live_status_on_start",
        text_of(language.text("Live-Fenster beim Start öffnen", "Open live window at startup")),
        true,
        MenuItemKind::Check(live_on_start),
    );
    push_line(
        menu,
        "settings",
        text_of(language.text("Einrichtung öffnen", "Open setup")),
        true,
        MenuItemKind::Item,
    );
    push_marker(menu, text_of(language.text("Fenstereinstellungen", "Window settings")), MenuItemKind::SubmenuBegin);
    push_marker(menu, text_of(language.text("Fenstertransparenz", "Window opacity")), MenuItemKind::SubmenuBegin);
    assert(menu_view(menu@) =~= start + menu_commands(active, language, live_on_start));
}

/// Appends the opacity choices.
#[verifier::spinoff_prover]
#[verifier::rlimit(30)]
fn push_opacity_lines(menu: &mut Vec<MenuEntry>, opacity: u8, language: Language)
    ensures
        menu_view(final(menu)@) == menu_view(old(menu)@) + opacity_lines(opacity, language),
{
    let ghost before_opacity = menu_view(menu@);
    let choices = crate::window_settings::opacity_choices();
    let mut k: usize = 0;
    while k < choices.len()
        invariant
            k <= 10,
            choices@ == seq![100u8, 90, 80, 70, 60, 50, 40, 30, 20, 10],
            menu_view(menu@) == before_opacity + Seq::new(
                k as nat,
                |j: int| opacity_line((100 - 10 * j) as u8, opacity, language),
            ),
        decreases 10 - k,
    {
        let value = choices[k];
        assert(value == (100 - 10 * k) as u8);
        let mut id = String::new();
        push_str(&mut id, "window_opacity_");
        push_dec(&mut id, value as u64);
        let label = if value == 100 {
            text_of(language.text("100 % (deckend)", "100% (opaque)"))
        } else {
            let mut l = String::new();
            push_dec(&mut l, value as u64);
            push_str(&mut l, " %");
            l
        };
        let ghost bv = menu_view(menu@);
        let ghost line = opacity_line(value, opacity, language);
        menu.push(
            MenuEntry {
                id,
                label,
                enabled: true,
                kind: MenuItemKind::Check(value == opacity),
            },
        );
        assert(menu_view(menu@) =~= bv.push(line));
        k += 1;
        assert(menu_view(menu@) =~= before_opacity + Seq::new(
            k as nat,
            |j: int| opacity_line((100 - 10 * j) as u8, opacity, language),
        ));
    }
    assert(menu_view(menu@) =~= before_opacity + opacity_lines(opacity, language));
}

/// Appends the window level, the log, autostart, the language and quitting.
#[verifier::spinoff_prover]
#[verifier::rlimit(30)]
fn push_tail(menu: &mut Vec<MenuEntry>, autostart: bool, language: Language, level: WindowLevel)
    ensures
        menu_view(final(menu)@) == menu_view(old(menu)@) + menu_tail(autostart, language, level),
{
    let ghost after_opacity = menu_view(menu@);
    push_marker(menu, String::new(), MenuItemKind::SubmenuEnd);
    push_marker(menu, text_of(language.text("Fensterebene", "Window level")), MenuItemKind::SubmenuBegin);
    push_line(
        menu,
        "window_level_normal",
        text_of(language.text("Normal", "Normal")),
        true,
        MenuItemKind::Check(level == WindowLevel::Normal),
    );
    push_line(
        menu,
        "window_level_top",
        text_of(language.text("Immer im Vordergrund", "Always on top")),
        true,
        MenuItemKind::Check(level == WindowLevel::AlwaysOnTop),
    );
    push_line(
        menu,
        "window_level_bottom",
        text_of(language.text("Immer im Hintergrund", "Always in background")),
        true,
        MenuItemKind::Check(level == WindowLevel::AlwaysOnBottom),
    );
    push_marker(menu, String::new(), MenuItemKind::SubmenuEnd);
    push_marker(menu, String::new(), MenuItemKind::SubmenuEnd);
    push_line(
        menu,
        "log",
        text_of(language.text("Protokoll öffnen", "Open log")),
        true,
        MenuItemKind::Item,
    );
    push_line(
        menu,
        "autostart",
        text_of(language.text("Mit Windows starten", "Start with Windows")),
        true,
        MenuItemKind::Check(autostart),
    );
    push_marker(menu, String::new(), MenuItemKind::Separator);
    push_marker(menu, text_of("Sprache / Language"), MenuItemKind::SubmenuBegin);
    push_line(
        menu,
        "language_de",
        text_of("Deutsch"),
        true,
        MenuItemKind::Check(language == Language::German),
    );
    push_line(
        menu,
        "language_en",
        text_of("English"),
        true,
        MenuItemKind::Check(language == Language::English),
    );
    push_marker(menu, String::new(), MenuItemKind::SubmenuEnd);
    push_line(
        menu,
        "quit",
        text_of(language.text("Tray-App beenden", "Quit tray app")),
        true,
        MenuItemKind::Item,
    );
    assert(menu_view(menu@) =~= after_opacity + menu_tail(autostart, language, level));
}

/// The lines of the tray menu.
pub fn menu_for(
    status: &WatchStatus,
    message: Option<&str>,
    autostart: bool,
    language: Language,
    live_on_start: bool,
    opacity: u8,
    level: WindowLevel,
) -> (r: Vec<MenuEntry>)
    ensures
        menu_view(r@) == menu_lines(
            *status,
            match message {
                Some(m) => Some(m@),
                None => None,
            },
            autostart,
            language,
            live_on_start,
            opacity,
            level,
        ),
{
    let active = night_run_active(status);
    let mut menu: Vec<MenuEntry> = Vec::new();
    push_line(&mut menu, "status", status_line(status, language), false, MenuItemKind::Item);
    if let Some(m) = message {
        push_line(&mut menu, "message", text_of(m), false, MenuItemKind::Item);
    }
    let ghost head = menu_view(menu@);
    assert(head =~= menu_head(
        *status,
        match message {
            Some(m) => Some(m@),
            None => None,
        },
        language,
    ));
    push_commands(&mut menu, active, language, live_on_start);
    push_opacity_lines(&mut menu, opacity, language);
    push_tail(&mut menu, autostart, language, level);
    menu
}


// ---------------------------------------------------------------------------
// After a command or a status report
// ---------------------------------------------------------------------------

/// What the tray does after a command succeeded, besides showing its
/// message.
#[derive(Clone, Copy, Debug, PartialEq, Eq, Structural)]
pub struct FollowUp {
    /// Request the sleep lock on (`Some(true)`) or off (`Some(false)`).
    pub power_guard: Option<bool>,
    /// Clear the expected-exit marker.
    pub clear_expected_exit: bool,
    /// Switch the tray's language.
    pub language: Option<Language>,
}

/// Starting a run takes the sleep lock; stopping clears the expected exit and
/// releases the lock; choosing a language switches to it.
pub fn follow_up(action: TrayAction) -> (r: FollowUp)
    ensures
        r.power_guard == (match action {
            TrayAction::Start | TrayAction::Observe => Some(true),
            TrayAction::Stop => Some(false),
            _ => None,
        }),
        r.clear_expected_exit == (action == TrayAction::Stop),
        r.language == (match action {
            TrayAction::LanguageGerman => Some(Language::German),
            TrayAction::LanguageEnglish => Some(Language::English),
            _ => None,
        }),
{
    match action {
        TrayAction::Start | TrayAction::Observe => FollowUp {
            power_guard: Some(true),
            clear_expected_exit: false,
            language: None,
        },
        TrayAction::Stop => FollowUp {
            power_guard: Some(false),
            clear_expected_exit: true,
            language: None,
        },
        TrayAction::LanguageGerman => FollowUp {
            power_guard: None,
            clear_expected_exit: false,
            language: Some(Language::German),
        },
        TrayAction::LanguageEnglish => FollowUp {
            power_guard: None,
            clear_expected_exit: false,
            language: Some(Language::English),
        },
        _ => FollowUp { power_guard: None, clear_expected_exit: false, language: None },
    }
}

/// How a beginning countdown is announced.
#[derive(Clone, Copy, Debug, PartialEq, Eq, Structural)]
pub enum NoticePlan {
    /// Ask the user: OK carries the power action out now, Cancel stops the
    /// run.
    Ask,
    /// Show the demo's notice; its answer changes nothing.
    ShowOnly,
    /// No notice (an observe-only run).
    Nothing,
}

/// The announcement of a beginning countdown: a real run asks, a demo only
/// shows its notice, an observe-only run shows nothing.
pub open spec fn plan_of(status: WatchStatus) -> NoticePlan {
    match status {
        WatchStatus::ShutdownWarning { demo, observe_only, .. } => if !demo && !observe_only {
            NoticePlan::Ask
        } else if demo {
            NoticePlan::ShowOnly
        } else {
            NoticePlan::Nothing
        },
        _ => NoticePlan::Nothing,
    }
}

/// How the countdown that a status reports is announced.
pub fn notice_plan(status: &WatchStatus) -> (r: NoticePlan)
    ensures
        r == plan_of(*status),
{
    match status {
        WatchStatus::ShutdownWarning { demo, observe_only, .. } => if !*demo && !*observe_only {
            NoticePlan::Ask
        } else if *demo {
            NoticePlan::ShowOnly
        } else {
            NoticePlan::Nothing
        },
        _ => NoticePlan::Nothing,
    }
}

/// The message after the notice was confirmed: the watcher confirmed the
/// completion, or its error.
pub fn confirmation_message(error: Option<&str>) -> (r: String)
    ensures
        match error {
            None => r@ == "Abschluss sofort bestätigt"@,
            Some(e) => r@ == "Fehler beim Bestätigen: "@ + e@,
        },
{
    let mut s = String::new();
    match error {
        None => push_str(&mut s, "Abschluss sofort bestätigt"),
        Some(e) => {
            push_str(&mut s, "Fehler beim Bestätigen: ");
            push_str(&mut s, e);
        },
    }
    s
}

/// The message after the notice was cancelled: the run was stopped, or the
/// error of stopping it.
pub fn cancellation_message(error: Option<&str>) -> (r: String)
    ensures
        match error {
            None => r@ == "Nachtmodus abgebrochen"@,
            Some(e) => r@ == "Fehler beim Abbrechen: "@ + e@,
        },
{
    let mut s = String::new();
    match error {
        None => push_str(&mut s, "Nachtmodus abgebrochen"),
        Some(e) => {
            push_str(&mut s, "Fehler beim Abbrechen: ");
            push_str(&mut s, e);
        },
    }
    s
}

/// The message when the sleep lock could not be taken for a run, which was
/// then stopped (`stop_error` is `None`) or could not be stopped.
pub fn power_guard_failure_message(error: &str, stop_error: Option<&str>) -> (r: String)
    ensures
        match stop_error {
            None => r@ == "Fehler: Windows-Energiesperre fehlgeschlagen; Nachtmodus wurde sicher gestoppt ("@
                + error@ + ")"@,
            Some(e) => r@ == "Fehler: Windows-Energiesperre fehlgeschlagen ("@ + error@
                + "); Nachtmodus konnte nicht sicher gestoppt werden ("@ + e@ + ")"@,
        },
{
    let mut s = String::new();
    match stop_error {
        None => {
            push_str(&mut s, "Fehler: Windows-Energiesperre fehlgeschlagen; Nachtmodus wurde sicher gestoppt (");
            push_str(&mut s, error);
            push_str(&mut s, ")");
        },
        Some(e) => {
            push_str(&mut s, "Fehler: Windows-Energiesperre fehlgeschlagen (");
            push_str(&mut s, error);
            push_str(&mut s, "); Nachtmodus konnte nicht sicher gestoppt werden (");
            push_str(&mut s, e);
            push_str(&mut s, ")");
        },
    }
    s
}

/// Only a real night run asks to carry the power action out at once: a demo
/// or an observe-only run never asks, and neither does any state but a
/// countdown.
pub proof fn lemma_only_real_runs_ask(status: WatchStatus)
    ensures
        plan_of(status) == NoticePlan::Ask <==> (status matches WatchStatus::ShutdownWarning {
            demo,
            observe_only,
            ..
        } && !demo && !observe_only),
{
}

/// The sleep lock follows the night run: a request keeps the system awake
/// exactly while a run is active, and once it is made, the same status asks
/// for nothing more.
pub proof fn lemma_guard_request_settles(status: WatchStatus, last_attempted: Option<bool>)
    ensures
        guard_request(status, last_attempted) matches Some(keep_awake) ==> keep_awake
            == active_spec(status) && guard_request(status, Some(keep_awake)) is None,
        guard_request(status, last_attempted) is None ==> last_attempted == Some(
            active_spec(status),
        ),
{
}

} // verus!
