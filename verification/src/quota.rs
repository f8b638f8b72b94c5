//! Provider quota records (GLM, Agy, Codex and Anthropic's model) and the parsing and
//! wording of their reset times. The values are informational only: they never
//! take part in the shutdown decision.
use crate::calendar::{civil_days_wide, days_from_civil};
use crate::clock::instant_now;
use crate::language::Language;
use crate::text::{eq_str, contains_seq, split_lines, lines, contains as text_contains, parse_unsigned, dec, dec_int, pad2, push_dec, push_dec_i64, push_pad2, push_str, push_chars, string_of, after_char, after_first_or_all, chars_of, contains, ends_with, ends_with_str, has_char, is_digit, parse_bounded, parse_i32, parse_i32_spec, parse_u32, split_chars, split_on, split_words, starts_with, starts_with_str, subvec, trim, trim_end_char, trim_end_matching, trimmed, views, words};
use vstd::prelude::*;
use vstd::string::*;

pub use crate::calendar::{days_to_ymd, ymd_to_days};

verus! {

/// How a provider's quota lasts against its reset.
#[derive(Clone, Copy, Debug, PartialEq, Eq, Structural)]
pub enum PacingHealth {
    Surplus,
    OnTrack,
    Tight,
    Throttled,
}

/// The current time as whole seconds since the Unix epoch, 0 for a clock
/// before it.
fn unix_seconds_now() -> u64 {
    match crate::clock::since_unix_epoch(crate::clock::system_time_now()) {
        Some(elapsed) => crate::clock::duration_secs(elapsed),
        None => 0,
    }
}

/// The calendar date of a Unix time in seconds (UTC). A time beyond the
/// calendar's range (hundreds of millions of years) reads as its last day.
pub open spec fn date_of_unix(secs: u64) -> (int, int, int) {
    let days = secs as int / 86400;
    crate::calendar::civil_from_days(
        if days > 700_000_000_000 {
            700_000_000_000
        } else {
            days
        },
    )
}

pub fn ymd_of_unix_seconds(secs: u64) -> (r: (i32, u32, u32))
    ensures
        (r.0 as int, r.1 as int, r.2 as int) == date_of_unix(secs),
{
    let days: u64 = secs / 86400;
    let clamped: i64 = if days > 700_000_000_000 {
        700_000_000_000
    } else {
        days as i64
    };
    days_to_ymd(clamped)
}

/// Today's date (UTC) from the system clock.
pub fn current_ymd() -> (r: (i32, u32, u32))
    ensures
        exists|secs: u64| (r.0 as int, r.1 as int, r.2 as int) == date_of_unix(secs),
{
    let secs = unix_seconds_now();
    ymd_of_unix_seconds(secs)
}

// ---------------------------------------------------------------------------
// Provider records
// ---------------------------------------------------------------------------

#[derive(Clone, Copy, Debug, PartialEq, Eq, Structural)]
pub enum ProviderId {
    Glm,
    Agy,
    Codex,
    Claude,
}

#[derive(Clone, Debug)]
pub struct ProviderQuota {
    pub id: ProviderId,
    pub title: &'static str,
    pub author: &'static str,
    pub five_hour_percent: Option<u8>,
    pub five_hour_reset: Option<String>,
    pub week_percent: Option<u8>,
    pub week_reset: Option<String>,
    pub is_throttled: bool,
}

/// The character view of an optional string.
pub open spec fn opt_view(o: Option<String>) -> Option<Seq<char>> {
    match o {
        Some(s) => Some(s@),
        None => None,
    }
}

/// A provider is throttled when one of its windows has no quota left.
pub open spec fn throttled(five_hour_percent: Option<u8>, week_percent: Option<u8>) -> bool {
    five_hour_percent == Some(0u8) || week_percent == Some(0u8)
}

impl ProviderQuota {
    pub fn new(
        id: ProviderId,
        title: &'static str,
        author: &'static str,
        five_hour_percent: Option<u8>,
        five_hour_reset: Option<String>,
        week_percent: Option<u8>,
        week_reset: Option<String>,
    ) -> (r: Self)
        ensures
            r.id == id,
            r.title == title,
            r.author == author,
            r.five_hour_percent == five_hour_percent,
            r.five_hour_reset == five_hour_reset,
            r.week_percent == week_percent,
            r.week_reset == week_reset,
            r.is_throttled == throttled(five_hour_percent, week_percent),
    {
        let five_zero = match five_hour_percent {
            Some(p) => p == 0,
            None => false,
        };
        let week_zero = match week_percent {
            Some(p) => p == 0,
            None => false,
        };
        ProviderQuota {
            id,
            title,
            author,
            five_hour_percent,
            five_hour_reset,
            week_percent,
            week_reset,
            is_throttled: five_zero || week_zero,
        }
    }

    /// Short German status of the provider.
    pub fn status_text(&self) -> (r: &'static str)
        ensures
            r@ == (if self.is_throttled {
                "Drossel aktiv"@
            } else if (match self.week_percent {
                Some(p) => p < 20,
                None => false,
            }) || (match self.five_hour_percent {
                Some(p) => p < 20,
                None => false,
            }) {
                "Knapp"@
            } else {
                "Aktiv"@
            }),
    {
        let week_low = match self.week_percent {
            Some(p) => p < 20,
            None => false,
        };
        let five_low = match self.five_hour_percent {
            Some(p) => p < 20,
            None => false,
        };
        if self.is_throttled {
            "Drossel aktiv"
        } else if week_low || five_low {
            "Knapp"
        } else {
            "Aktiv"
        }
    }

    /// "Mo" for a monthly cycle (GLM, or a weekly reset on the first of a
    /// month), "Wk" otherwise.
    pub fn cycle_label(&self) -> (r: &'static str)
        ensures
            r@ == (if self.id == ProviderId::Glm {
                "Mo"@
            } else if (match self.week_reset {
                Some(reset) => starts_with(reset@, "01."@),
                None => false,
            }) {
                "Mo"@
            } else {
                "Wk"@
            }),
    {
        if self.id == ProviderId::Glm {
            "Mo"
        } else {
            match &self.week_reset {
                Some(reset) => {
                    let chars = chars_of(reset.as_str());
                    if starts_with_str(&chars, "01.") {
                        "Mo"
                    } else {
                        "Wk"
                    }
                },
                None => "Wk",
            }
        }
    }
}

// ---------------------------------------------------------------------------
// Clock times
// ---------------------------------------------------------------------------

/// The offset from UTC in minutes that is assumed where the system gives
/// none (outside Windows): Central European Summer Time.
pub open spec fn spec_local_offset() -> int {
    120
}

pub fn local_timezone_offset_minutes() -> (r: i32)
    ensures
        r == spec_local_offset(),
{
    120
}

/// The local time zone's offset from UTC in minutes, from the local and the
/// UTC clock read at the same moment (day of month, hour, minute): the
/// difference of the times of day, corrected by a day when the two clocks
/// show different days (a local day 1 against a UTC day after the 25th is
/// the next month).
pub open spec fn clock_offset(
    local_day: u16,
    local_hour: u16,
    local_minute: u16,
    utc_day: u16,
    utc_hour: u16,
    utc_minute: u16,
) -> int {
    let diff = (local_hour * 60 + local_minute) - (utc_hour * 60 + utc_minute);
    if local_day != utc_day {
        if local_day > utc_day || (local_day == 1 && utc_day > 25) {
            diff + 1440
        } else {
            diff - 1440
        }
    } else {
        diff
    }
}

/// The local time zone's offset from two clock readings (see
/// `clock_offset`).
pub fn timezone_offset_from_clocks(
    local_day: u16,
    local_hour: u16,
    local_minute: u16,
    utc_day: u16,
    utc_hour: u16,
    utc_minute: u16,
) -> (r: i32)
    requires
        local_hour < 24 && local_minute < 60 && utc_hour < 24 && utc_minute < 60,
    ensures
        r == clock_offset(local_day, local_hour, local_minute, utc_day, utc_hour, utc_minute),
        -2880 < r < 2880,
{
    let local_mins: i32 = local_hour as i32 * 60 + local_minute as i32;
    let utc_mins: i32 = utc_hour as i32 * 60 + utc_minute as i32;
    let diff: i32 = local_mins - utc_mins;
    if local_day != utc_day {
        if local_day > utc_day || (local_day == 1 && utc_day > 25) {
            diff + 1440
        } else {
            diff - 1440
        }
    } else {
        diff
    }
}

/// Hour and minute fields of a time text such as `2026-09-25T10:53:00Z`,
/// `15:45` or `10:53Z`, and whether it is in UTC.
pub open spec fn iso_fields(iso: Seq<char>) -> Option<(nat, nat, bool)> {
    let raw = trim(iso);
    let time_part = if raw.contains('T') {
        after_char(raw, 'T')
    } else {
        raw
    };
    let is_utc = ends_with(time_part, "Z"@) || ends_with(raw, "Z"@);
    let parts = split_on(trim_end_char(time_part, 'Z'), ':');
    if parts.len() < 2 {
        None
    } else {
        match (
            parse_bounded(trim(parts[0]), u32::MAX as nat),
            parse_bounded(trim(parts[1]), u32::MAX as nat),
        ) {
            (Some(h), Some(m)) => Some((h, m, is_utc)),
            _ => None,
        }
    }
}

/// Local clock time of a time text; UTC times are shifted by `offset`
/// minutes and wrap around midnight.
pub open spec fn iso_local_hm(iso: Seq<char>, offset: int) -> Option<(nat, nat)> {
    match iso_fields(iso) {
        None => None,
        Some((h, m, utc)) => if utc {
            let t = (h * 60 + m + offset) % 1440;
            Some(((t / 60) as nat, (t % 60) as nat))
        } else {
            Some((h, m))
        },
    }
}

/// An optional clock time equals its specification.
pub open spec fn hm_is(r: Option<(u32, u32)>, s: Option<(nat, nat)>) -> bool {
    match r {
        Some((h, m)) => s == Some((h as nat, m as nat)),
        None => s is None,
    }
}

#[verifier::spinoff_prover]
fn iso_hm_chars(iso: &[char], offset: i32) -> (r: Option<(u32, u32)>)
    ensures
        hm_is(r, iso_local_hm(iso@, offset as int)),
{
    let raw = trimmed(iso);
    let time_part = after_first_or_all(&raw, 'T');
    let is_utc = ends_with_str(&time_part, "Z") || ends_with_str(&raw, "Z");
    let clean = trim_end_matching(&time_part, 'Z');
    let parts = split_chars(&clean, ':');
    if parts.len() < 2 {
        return None;
    }
    let p0 = trimmed(&parts[0]);
    let p1 = trimmed(&parts[1]);
    let h = match parse_u32(&p0) {
        Some(h) => h,
        None => return None,
    };
    let m = match parse_u32(&p1) {
        Some(m) => m,
        None => return None,
    };
    if is_utc {
        let total = h as i64 * 60 + m as i64 + offset as i64;
        let t = total % 1440;
        let t = if t < 0 {
            t + 1440
        } else {
            t
        };
        assert(t == (h * 60 + m + offset) % 1440);
        Some(((t / 60) as u32, (t % 60) as u32))
    } else {
        Some((h, m))
    }
}

/// Hour and minute of a time text in local time, `offset_minutes` east of
/// UTC.
pub fn iso_utc_to_local_hm(iso_str: &str, offset_minutes: i32) -> (r: Option<(u32, u32)>)
    ensures
        hm_is(r, iso_local_hm(iso_str@, offset_minutes as int)),
{
    let chars = chars_of(iso_str);
    iso_hm_chars(&chars, offset_minutes)
}

/// Clock time of a reset text: ISO texts are converted to local time, plain
/// `HH:MM` texts are read as they are.
pub open spec fn hm_of(raw0: Seq<char>, offset: int) -> Option<(nat, nat)> {
    let raw = trim(raw0);
    if raw.contains('T') || ends_with(raw, "Z"@) {
        iso_local_hm(raw, offset)
    } else {
        let parts = split_on(raw, ':');
        if parts.len() >= 2 {
            match (
                parse_bounded(trim(parts[0]), u32::MAX as nat),
                parse_bounded(trim(parts[1]), u32::MAX as nat),
            ) {
                (Some(h), Some(m)) => Some((h, m)),
                _ => None,
            }
        } else {
            None
        }
    }
}

fn hm_chars(raw0: &[char], offset_minutes: i32) -> (r: Option<(u32, u32)>)
    ensures
        hm_is(r, hm_of(raw0@, offset_minutes as int)),
{
    let raw = trimmed(raw0);
    if has_char(&raw, 'T') || ends_with_str(&raw, "Z") {
        return iso_hm_chars(&raw, offset_minutes);
    }
    let parts = split_chars(&raw, ':');
    if parts.len() >= 2 {
        let p0 = trimmed(&parts[0]);
        let p1 = trimmed(&parts[1]);
        let h = match parse_u32(&p0) {
            Some(h) => h,
            None => return None,
        };
        let m = match parse_u32(&p1) {
            Some(m) => m,
            None => return None,
        };
        Some((h, m))
    } else {
        None
    }
}

/// Clock time of an optional reset text, `offset_minutes` east of UTC.
pub fn parse_hm(time_str: Option<&str>, offset_minutes: i32) -> (r: Option<(u32, u32)>)
    ensures
        hm_is(
            r,
            match time_str {
                Some(s) => hm_of(s@, offset_minutes as int),
                None => None,
            },
        ),
{
    match time_str {
        Some(s) => {
            let chars = chars_of(s);
            hm_chars(&chars, offset_minutes)
        },
        None => None,
    }
}

// ---------------------------------------------------------------------------
// Reset dates
// ---------------------------------------------------------------------------

/// Pieces whose trimmed text is not empty, in order.
pub open spec fn nonblank(pieces: Seq<Seq<char>>) -> Seq<Seq<char>>
    decreases pieces.len(),
{
    if pieces.len() == 0 {
        pieces
    } else {
        let rest = nonblank(pieces.drop_last());
        if trim(pieces.last()).len() > 0 {
            rest.push(pieces.last())
        } else {
            rest
        }
    }
}

fn nonblank_pieces(pieces: &Vec<Vec<char>>) -> (r: Vec<Vec<char>>)
    ensures
        views(r@) == nonblank(views(pieces@)),
{
    let mut out: Vec<Vec<char>> = Vec::new();
    let mut i: usize = 0;
    while i < pieces.len()
        invariant
            i <= pieces@.len(),
            views(out@) == nonblank(views(pieces@).take(i as int)),
        decreases pieces@.len() - i,
    {
        let ghost before = views(out@);
        assert(views(pieces@).take(i + 1).drop_last() == views(pieces@).take(i as int));
        assert(views(pieces@).take(i + 1).last() == pieces@[i as int]@);
        let t = trimmed(&pieces[i]);
        if t.len() > 0 {
            let copy = subvec(&pieces[i], 0, pieces[i].len());
            assert(pieces@[i as int]@.subrange(0, pieces@[i as int]@.len() as int)
                == pieces@[i as int]@);
            out.push(copy);
        }
        i += 1;
        assert(views(out@) =~= nonblank(views(pieces@).take(i as int)));
    }
    assert(views(pieces@).take(pieces@.len() as int) == views(pieces@));
    out
}

/// The first word that contains a dot.
pub open spec fn first_dotted(words: Seq<Seq<char>>) -> Option<Seq<char>>
    decreases words.len(),
{
    if words.len() == 0 {
        None
    } else if words[0].contains('.') {
        Some(words[0])
    } else {
        first_dotted(words.drop_first())
    }
}

/// Only the ASCII digits and colons of a word.
pub open spec fn digits_and_colons(t: Seq<char>) -> Seq<char>
    decreases t.len(),
{
    if t.len() == 0 {
        t
    } else {
        let rest = digits_and_colons(t.drop_last());
        if is_digit(t.last()) || t.last() == ':' {
            rest.push(t.last())
        } else {
            rest
        }
    }
}

/// The clock time a word such as `(19:00)` names.
pub open spec fn word_time(t: Seq<char>) -> Option<(nat, nat)> {
    if t.contains(':') {
        let parts = split_on(digits_and_colons(t), ':');
        if parts.len() >= 2 {
            match (
                parse_bounded(parts[0], u32::MAX as nat),
                parse_bounded(parts[1], u32::MAX as nat),
            ) {
                (Some(h), Some(m)) => Some((h, m)),
                _ => None,
            }
        } else {
            None
        }
    } else {
        None
    }
}

/// The first clock time named by one of the words.
pub open spec fn words_time(words: Seq<Seq<char>>) -> Option<(nat, nat)>
    decreases words.len(),
{
    if words.len() == 0 {
        None
    } else {
        match word_time(words[0]) {
            Some(t) => Some(t),
            None => words_time(words.drop_first()),
        }
    }
}

/// Date and optional clock time of a reset text: ISO texts
/// (`2026-09-25T10:53:00Z`, `2026-09-25`) or day-month texts (`23.09. (19:00)`,
/// `25.09.`) whose year is this year, or next year when the month is already
/// past.
pub open spec fn target_datetime(raw0: Seq<char>, today: (i32, u32, u32), offset: int) -> Option<
    ((int, nat, nat), Option<(nat, nat)>),
> {
    let raw = trim(raw0);
    let iso_parts = split_on(split_on(raw, 'T')[0], '-');
    if raw.len() == 0 {
        None
    } else if raw.contains('-') && (raw.contains('T') || split_on(raw, '-').len() >= 3)
        && iso_parts.len() >= 3 {
        match (
            parse_i32_spec(trim(iso_parts[0])),
            parse_bounded(trim(iso_parts[1]), u32::MAX as nat),
            parse_bounded(trim(iso_parts[2]), u32::MAX as nat),
        ) {
            (Some(y), Some(m), Some(d)) => Some(((y, m, d), iso_local_hm(raw, offset))),
            _ => None,
        }
    } else if raw.contains('.') {
        match first_dotted(words(raw)) {
            None => None,
            Some(token) => {
                let date_parts = nonblank(split_on(token, '.'));
                if date_parts.len() >= 2 {
                    match (
                        parse_bounded(trim(date_parts[0]), u32::MAX as nat),
                        parse_bounded(trim(date_parts[1]), u32::MAX as nat),
                    ) {
                        (Some(d), Some(m)) => {
                            let y = if m < today.1 {
                                today.0 + 1
                            } else {
                                today.0 as int
                            };
                            Some(((y, m, d), words_time(words(raw))))
                        },
                        _ => None,
                    }
                } else {
                    None
                }
            },
        }
    } else {
        None
    }
}

fn find_dotted(words: &Vec<Vec<char>>) -> (r: Option<usize>)
    ensures
        match r {
            Some(k) => k < words@.len() && first_dotted(views(words@)) == Some(words@[k as int]@),
            None => first_dotted(views(words@)) is None,
        },
{
    let mut i: usize = 0;
    assert(views(words@).skip(0) == views(words@));
    while i < words.len()
        invariant
            i <= words@.len(),
            first_dotted(views(words@)) == first_dotted(views(words@).skip(i as int)),
        decreases words@.len() - i,
    {
        assert(views(words@).skip(i as int)[0] == words@[i as int]@);
        assert(views(words@).skip(i as int).drop_first() == views(words@).skip(i + 1));
        if has_char(&words[i], '.') {
            return Some(i);
        }
        i += 1;
    }
    None
}

fn keep_digits_and_colons(t: &[char]) -> (r: Vec<char>)
    ensures
        r@ == digits_and_colons(t@),
{
    let mut r: Vec<char> = Vec::new();
    let mut i: usize = 0;
    while i < t.len()
        invariant
            i <= t@.len(),
            r@ == digits_and_colons(t@.take(i as int)),
        decreases t@.len() - i,
    {
        assert(t@.take(i + 1).drop_last() == t@.take(i as int));
        assert(t@.take(i + 1).last() == t@[i as int]);
        let c = t[i];
        if ('0' <= c && c <= '9') || c == ':' {
            r.push(c);
        }
        i += 1;
    }
    assert(t@.take(t@.len() as int) == t@);
    r
}

fn word_time_of(t: &[char]) -> (r: Option<(u32, u32)>)
    ensures
        hm_is(r, word_time(t@)),
{
    if !has_char(t, ':') {
        return None;
    }
    let cleaned = keep_digits_and_colons(t);
    let parts = split_chars(&cleaned, ':');
    if parts.len() >= 2 {
        match (parse_u32(&parts[0]), parse_u32(&parts[1])) {
            (Some(h), Some(m)) => Some((h, m)),
            _ => None,
        }
    } else {
        None
    }
}

fn words_time_of(words: &Vec<Vec<char>>) -> (r: Option<(u32, u32)>)
    ensures
        hm_is(r, words_time(views(words@))),
{
    let mut i: usize = 0;
    assert(views(words@).skip(0) == views(words@));
    while i < words.len()
        invariant
            i <= words@.len(),
            words_time(views(words@)) == words_time(views(words@).skip(i as int)),
        decreases words@.len() - i,
    {
        assert(views(words@).skip(i as int)[0] == words@[i as int]@);
        assert(views(words@).skip(i as int).drop_first() == views(words@).skip(i + 1));
        match word_time_of(&words[i]) {
            Some(t) => return Some(t),
            None => {},
        }
        i += 1;
    }
    None
}

/// Optional date and clock time equal their specification.
pub open spec fn datetime_is(
    r: Option<((i32, u32, u32), Option<(u32, u32)>)>,
    s: Option<((int, nat, nat), Option<(nat, nat)>)>,
) -> bool {
    match r {
        Some(((y, m, d), t)) => match s {
            Some(((sy, sm, sd), st)) => sy == y as int && sm == m as nat && sd == d as nat
                && hm_is(t, st),
            None => false,
        },
        None => s is None,
    }
}

#[verifier::spinoff_prover]
fn target_datetime_chars(raw0: &[char], today: (i32, u32, u32), offset_minutes: i32) -> (r: Option<
    ((i32, u32, u32), Option<(u32, u32)>),
>)
    requires
        today.0 < i32::MAX,
    ensures
        datetime_is(r, target_datetime(raw0@, today, offset_minutes as int)),
{
    let raw = trimmed(raw0);
    if raw.len() == 0 {
        return None;
    }
    let by_t = split_chars(&raw, 'T');
    let iso_parts = split_chars(&by_t[0], '-');
    let dash_pieces = split_chars(&raw, '-');
    if has_char(&raw, '-') && (has_char(&raw, 'T') || dash_pieces.len() >= 3) && iso_parts.len()
        >= 3 {
        let p0 = trimmed(&iso_parts[0]);
        let p1 = trimmed(&iso_parts[1]);
        let p2 = trimmed(&iso_parts[2]);
        let y = match parse_i32(&p0) {
            Some(y) => y,
            None => return None,
        };
        let m = match parse_u32(&p1) {
            Some(m) => m,
            None => return None,
        };
        let d = match parse_u32(&p2) {
            Some(d) => d,
            None => return None,
        };
        let time_opt = iso_hm_chars(&raw, offset_minutes);
        return Some(((y, m, d), time_opt));
    }
    if has_char(&raw, '.') {
        let tokens = split_words(&raw);
        let k = match find_dotted(&tokens) {
            Some(k) => k,
            None => return None,
        };
        let pieces = split_chars(&tokens[k], '.');
        let date_parts = nonblank_pieces(&pieces);
        if date_parts.len() >= 2 {
            let q0 = trimmed(&date_parts[0]);
            let q1 = trimmed(&date_parts[1]);
            let d = match parse_u32(&q0) {
                Some(d) => d,
                None => return None,
            };
            let m = match parse_u32(&q1) {
                Some(m) => m,
                None => return None,
            };
            let y = if m < today.1 {
                today.0 + 1
            } else {
                today.0
            };
            let time_opt = words_time_of(&tokens);
            return Some(((y, m, d), time_opt));
        }
    }
    None
}

/// Date and optional clock time of a reset text (see `target_datetime`),
/// with UTC times shown `offset_minutes` east of UTC.
pub fn parse_target_datetime(raw: &str, today: (i32, u32, u32), offset_minutes: i32) -> (r: Option<
    ((i32, u32, u32), Option<(u32, u32)>),
>)
    requires
        today.0 < i32::MAX,
    ensures
        datetime_is(r, target_datetime(raw@, today, offset_minutes as int)),
{
    let chars = chars_of(raw);
    target_datetime_chars(&chars, today, offset_minutes)
}

/// The date of a weekly or monthly reset text, for the days left until it:
/// a day-month text (`25.09.`, `25.09. 12:53`, its first word read) whose
/// year is this year, or next year when the month is already past; else an
/// ISO date (`2026-09-25`, `2026-09-25T10:53:00Z`).
pub open spec fn reset_date_spec(raw0: Seq<char>, today: (i32, u32, u32)) -> Option<(int, nat, nat)> {
    let raw = trim(raw0);
    let first_word = if words(raw).len() > 0 {
        words(raw)[0]
    } else {
        raw
    };
    let day_month = nonblank(split_on(first_word, '.'));
    let iso_parts = split_on(split_on(raw, 'T')[0], '-');
    if raw.contains('.') && day_month.len() >= 2 {
        match (
            parse_bounded(trim(day_month[0]), u32::MAX as nat),
            parse_bounded(trim(day_month[1]), u32::MAX as nat),
        ) {
            (Some(d), Some(m)) => Some(
                (
                    if m < today.1 {
                        today.0 + 1
                    } else {
                        today.0 as int
                    },
                    m,
                    d,
                ),
            ),
            _ => None,
        }
    } else if raw.contains('-') && iso_parts.len() >= 3 {
        match (
            parse_i32_spec(trim(iso_parts[0])),
            parse_bounded(trim(iso_parts[1]), u32::MAX as nat),
            parse_bounded(trim(iso_parts[2]), u32::MAX as nat),
        ) {
            (Some(y), Some(m), Some(d)) => Some((y, m, d)),
            _ => None,
        }
    } else {
        None
    }
}

/// The date of a reset text (see `reset_date_spec`).
pub fn reset_date(reset: &str, today: (i32, u32, u32)) -> (r: Option<(i32, u32, u32)>)
    requires
        today.0 < i32::MAX,
    ensures
        match r {
            Some((y, m, d)) => reset_date_spec(reset@, today) == Some((y as int, m as nat, d as nat)),
            None => reset_date_spec(reset@, today) is None,
        },
{
    let chars = chars_of(reset);
    let raw = trimmed(&chars);
    let tokens = split_words(&raw);
    let first_word = if tokens.len() > 0 {
        tokens[0].clone()
    } else {
        raw.clone()
    };
    assert(first_word@ == (if words(raw@).len() > 0 {
        words(raw@)[0]
    } else {
        raw@
    }));
    let pieces = split_chars(&first_word, '.');
    let day_month = nonblank_pieces(&pieces);
    if has_char(&raw, '.') && day_month.len() >= 2 {
        let q0 = trimmed(&day_month[0]);
        let q1 = trimmed(&day_month[1]);
        return match (parse_u32(&q0), parse_u32(&q1)) {
            (Some(d), Some(m)) => {
                let y = if m < today.1 {
                    today.0 + 1
                } else {
                    today.0
                };
                Some((y, m, d))
            },
            _ => None,
        };
    }
    let by_t = split_chars(&raw, 'T');
    let iso_parts = split_chars(&by_t[0], '-');
    if has_char(&raw, '-') && iso_parts.len() >= 3 {
        let p0 = trimmed(&iso_parts[0]);
        let p1 = trimmed(&iso_parts[1]);
        let p2 = trimmed(&iso_parts[2]);
        return match (parse_i32(&p0), parse_u32(&p1), parse_u32(&p2)) {
            (Some(y), Some(m), Some(d)) => Some((y, m, d)),
            _ => None,
        };
    }
    None
}

proof fn lemma_day_number_bounds(year: int, month: int, day: int)
    requires
        i32::MIN <= year <= i32::MAX,
        0 <= month <= u32::MAX,
        0 <= day <= u32::MAX,
    ensures
        -2_000_000_000_000 <= days_from_civil(year, month, day) <= 2_000_000_000_000,
{
}

/// Whole days from `today` until `target`, none when the target is past.
pub fn days_until(target: (i32, u32, u32), today: (i32, u32, u32)) -> (r: i64)
    requires
        target.1 > 2 || target.0 > i32::MIN,
        today.1 > 2 || today.0 > i32::MIN,
    ensures
        r as int == (if days_from_civil(target.0 as int, target.1 as int, target.2 as int)
            >= days_from_civil(today.0 as int, today.1 as int, today.2 as int) {
            days_from_civil(target.0 as int, target.1 as int, target.2 as int) - days_from_civil(
                today.0 as int,
                today.1 as int,
                today.2 as int,
            )
        } else {
            0
        }),
{
    let a = ymd_to_days(target.0, target.1, target.2);
    let b = ymd_to_days(today.0, today.1, today.2);
    proof {
        lemma_day_number_bounds(target.0 as int, target.1 as int, target.2 as int);
        lemma_day_number_bounds(today.0 as int, today.1 as int, today.2 as int);
    }
    if a >= b {
        a - b
    } else {
        0
    }
}

// ---------------------------------------------------------------------------
// Wording of reset times
// ---------------------------------------------------------------------------

/// German or English text.
pub open spec fn lang(language: Language, german: Seq<char>, english: Seq<char>) -> Seq<char> {
    match language {
        Language::German => german,
        Language::English => english,
    }
}

/// `HH:MM`.
pub open spec fn hm_text(h: nat, m: nat) -> Seq<char> {
    pad2(h) + ":"@ + pad2(m)
}

/// `DD.MM.`
pub open spec fn dm_text(d: nat, m: nat) -> Seq<char> {
    pad2(d) + "."@ + pad2(m) + "."@
}

/// Integer division rounding toward zero, as Rust's `/` on signed integers.
pub open spec fn tdiv(a: int, b: int) -> int {
    if a >= 0 {
        a / b
    } else {
        -((-a) / b)
    }
}

/// Remainder of `tdiv`, as Rust's `%` on signed integers.
pub open spec fn tmod(a: int, b: int) -> int {
    a - tdiv(a, b) * b
}

/// Wording of a reset text that could not be read as a date.
pub open spec fn fallback_phrase(raw: Seq<char>, language: Language) -> Seq<char> {
    if starts_with(raw, "in "@) {
        raw
    } else if raw.contains('.') {
        let w = words(raw);
        let formatted = if raw.contains(':') && !raw.contains('(') && w.len() >= 2
            && w[1].contains(':') {
            w[0] + " ("@ + w[1] + ")"@
        } else {
            raw
        };
        lang(language, "am "@ + formatted, "on "@ + formatted)
    } else {
        "in "@ + raw
    }
}

/// Minutes until the reset of a rolling five-hour window.
pub open spec fn five_hour_diff(rh: nat, rm: nat, now_h: nat, now_m: nat) -> int {
    let d = (rh * 60 + rm) - (now_h * 60 + now_m);
    if d < 0 {
        d + 1440
    } else {
        d
    }
}

/// Wording of the reset of a rolling five-hour window at `rh:rm`.
pub open spec fn five_hour_phrase(
    rh: nat,
    rm: nat,
    language: Language,
    now: (i32, u32, u32, u32, u32),
) -> Seq<char> {
    let diff = five_hour_diff(rh, rm, now.3 as nat, now.4 as nat);
    let hours = tdiv(diff, 60);
    let mins = tmod(diff, 60);
    if diff > 300 {
        lang(language, "um "@ + hm_text(rh, rm), "at "@ + hm_text(rh, rm))
    } else if hours > 0 {
        "in "@ + dec(hours as nat) + "h "@ + dec(mins as nat) + "m ("@ + hm_text(rh, rm) + ")"@
    } else {
        "in "@ + dec_int(mins) + "m ("@ + hm_text(rh, rm) + ")"@
    }
}

/// The wording of a five-hour reset counts the time from the present clock
/// time to the reset clock time, going forward around midnight: with `d` the
/// minutes from now to the reset modulo a day, a reset more than five hours
/// away is named by its clock time, one at least an hour away reads
/// "in {d / 60}h {d % 60}m (HH:MM)", and a nearer one "in {d}m (HH:MM)".
pub proof fn lemma_five_hour_phrase_counts_forward(
    rh: nat,
    rm: nat,
    language: Language,
    now: (i32, u32, u32, u32, u32),
)
    requires
        rh < 24,
        rm < 60,
        now.3 < 24,
        now.4 < 60,
    ensures
        ({
            let d = ((rh * 60 + rm) - (now.3 * 60 + now.4)) % 1440;
            let phrase = five_hour_phrase(rh, rm, language, now);
            &&& d > 300 ==> phrase == lang(
                language,
                "um "@ + hm_text(rh, rm),
                "at "@ + hm_text(rh, rm),
            )
            &&& 60 <= d <= 300 ==> phrase == "in "@ + dec((d / 60) as nat) + "h "@ + dec(
                (d % 60) as nat,
            ) + "m ("@ + hm_text(rh, rm) + ")"@
            &&& d < 60 ==> phrase == "in "@ + dec(d as nat) + "m ("@ + hm_text(rh, rm) + ")"@
        }),
{
    let d = ((rh * 60 + rm) - (now.3 * 60 + now.4)) % 1440;
    let diff = five_hour_diff(rh, rm, now.3 as nat, now.4 as nat);
    assert(diff == d);
    assert(tdiv(diff, 60) == d / 60);
    assert(tmod(diff, 60) == d % 60);
}

/// Minutes from now until a target date (and clock time, when one is known).
pub open spec fn minutes_until(
    target: (int, nat, nat),
    time: Option<(nat, nat)>,
    now: (i32, u32, u32, u32, u32),
) -> int {
    let now_days = days_from_civil(now.0 as int, now.1 as int, now.2 as int);
    let target_days = days_from_civil(target.0, target.1 as int, target.2 as int);
    match time {
        Some((th, tm)) => (target_days * 1440 + th * 60 + tm) - (now_days * 1440 + now.3 * 60
            + now.4),
        None => (target_days - now_days) * 1440,
    }
}

/// Wording of a reset at a known date.
pub open spec fn dated_phrase(
    target: (int, nat, nat),
    time: Option<(nat, nat)>,
    language: Language,
    now: (i32, u32, u32, u32, u32),
) -> Seq<char> {
    let now_days = days_from_civil(now.0 as int, now.1 as int, now.2 as int);
    let target_days = days_from_civil(target.0, target.1 as int, target.2 as int);
    let diff = minutes_until(target, time, now);
    let date = dm_text(target.2, target.1);
    let soon = lang(language, "in Kürze"@, "soon"@);
    let hours = if (diff + 30) / 60 < 1 {
        1
    } else {
        (diff + 30) / 60
    };
    let days = (diff + 720) / 1440;
    if diff <= 0 {
        match time {
            Some((th, tm)) => soon + " ("@ + hm_text(th, tm) + ")"@,
            None => soon,
        }
    } else if diff < 60 && time is Some {
        let (th, tm) = time->0;
        let t = hm_text(th, tm);
        if target_days == now_days {
            lang(
                language,
                "in "@ + dec(diff as nat) + "m (heute "@ + t + ")"@,
                "in "@ + dec(diff as nat) + "m (today "@ + t + ")"@,
            )
        } else {
            "in "@ + dec(diff as nat) + "m ("@ + date + " "@ + t + ")"@
        }
    } else if target_days == now_days {
        match time {
            Some((th, tm)) => lang(
                language,
                "in ~"@ + dec(hours as nat) + "h (heute "@ + hm_text(th, tm) + ")"@,
                "in ~"@ + dec(hours as nat) + "h (today "@ + hm_text(th, tm) + ")"@,
            ),
            None => lang(
                language,
                "in ~"@ + dec(hours as nat) + "h (heute)"@,
                "in ~"@ + dec(hours as nat) + "h (today)"@,
            ),
        }
    } else if hours <= 240 {
        match time {
            Some((th, tm)) => "in ~"@ + dec(hours as nat) + "h ("@ + date + " "@ + hm_text(th, tm)
                + ")"@,
            None => "in ~"@ + dec(hours as nat) + "h ("@ + date + ")"@,
        }
    } else {
        match time {
            Some((th, tm)) => "in ~"@ + dec(days as nat) + "d ("@ + date + " "@ + hm_text(th, tm)
                + ")"@,
            None => "in ~"@ + dec(days as nat) + "d ("@ + date + ")"@,
        }
    }
}

/// Wording of a provider's next quota reset relative to the present moment
/// `now` (year, month, day, hour, minute), with UTC times shifted by
/// `offset` minutes.
pub open spec fn reset_phrase(
    reset_raw: Option<Seq<char>>,
    is_five_hour: bool,
    language: Language,
    now: (i32, u32, u32, u32, u32),
    offset: int,
) -> Seq<char> {
    let raw = match reset_raw {
        Some(s) => trim(s),
        None => Seq::empty(),
    };
    if raw.len() == 0 {
        lang(language, "nicht terminiert"@, "no schedule"@)
    } else if is_five_hour && raw.contains(':') {
        match hm_of(raw, offset) {
            Some((rh, rm)) => five_hour_phrase(rh, rm, language, now),
            None => raw,
        }
    } else if starts_with(raw, "in "@) {
        raw
    } else {
        match target_datetime(raw, (now.0, now.1, now.2), offset) {
            None => fallback_phrase(raw, language),
            Some((target, time)) => dated_phrase(target, time, language, now),
        }
    }
}

fn push_lang(s: &mut String, language: Language, german: &str, english: &str)
    ensures
        final(s)@ == old(s)@ + lang(language, german@, english@),
{
    match language {
        Language::German => push_str(s, german),
        Language::English => push_str(s, english),
    }
}

fn push_hm(s: &mut String, h: u32, m: u32)
    ensures
        final(s)@ == old(s)@ + hm_text(h as nat, m as nat),
{
    let ghost start = s@;
    push_pad2(s, h as u64);
    push_str(s, ":");
    push_pad2(s, m as u64);
    assert(s@ =~= start + hm_text(h as nat, m as nat));
}

fn push_dm(s: &mut String, d: u32, m: u32)
    ensures
        final(s)@ == old(s)@ + dm_text(d as nat, m as nat),
{
    let ghost start = s@;
    push_pad2(s, d as u64);
    push_str(s, ".");
    push_pad2(s, m as u64);
    push_str(s, ".");
    assert(s@ =~= start + dm_text(d as nat, m as nat));
}

fn fallback_chars(raw: &[char], language: Language) -> (r: String)
    ensures
        r@ == fallback_phrase(raw@, language),
{
    if starts_with_str(raw, "in ") {
        return string_of(raw);
    }
    if has_char(raw, '.') {
        let w = split_words(raw);
        let mut formatted = String::new();
        if has_char(raw, ':') && !has_char(raw, '(') && w.len() >= 2 && has_char(&w[1], ':') {
            push_chars(&mut formatted, &w[0]);
            push_str(&mut formatted, " (");
            push_chars(&mut formatted, &w[1]);
            push_str(&mut formatted, ")");
            assert(w@[0]@ == words(raw@)[0]);
            assert(w@[1]@ == words(raw@)[1]);
        } else {
            push_chars(&mut formatted, raw);
        }
        let mut r = String::new();
        push_lang(&mut r, language, "am ", "on ");
        push_str(&mut r, formatted.as_str());
        assert(r@ =~= fallback_phrase(raw@, language));
        r
    } else {
        let mut r = String::new();
        push_str(&mut r, "in ");
        push_chars(&mut r, raw);
        assert(r@ =~= fallback_phrase(raw@, language));
        r
    }
}

/// Wording of a reset text that could not be read as a date: texts such as
/// `25.09. 12:53` read "am 25.09. (12:53)" / "on 25.09. (12:53)", other texts
/// read "in …".
pub fn fallback_raw_format(raw: &str, language: Language) -> (r: String)
    ensures
        r@ == fallback_phrase(raw@, language),
{
    let chars = chars_of(raw);
    fallback_chars(&chars, language)
}

#[verifier::spinoff_prover]
fn five_hour_text(rh: u32, rm: u32, language: Language, now_dt: (i32, u32, u32, u32, u32)) -> (r:
    String)
    ensures
        r@ == five_hour_phrase(rh as nat, rm as nat, language, now_dt),
{
    let curr_mins = now_dt.3 as i64 * 60 + now_dt.4 as i64;
    let reset_mins = rh as i64 * 60 + rm as i64;
    let mut diff = reset_mins - curr_mins;
    if diff < 0 {
        diff += 1440;
    }
    assert(diff == five_hour_diff(rh as nat, rm as nat, now_dt.3 as nat, now_dt.4 as nat));
    let hours = diff / 60;
    let mins = diff % 60;
    assert(hours == tdiv(diff as int, 60));
    assert(mins == tmod(diff as int, 60));
    let mut r = String::new();
    if diff > 300 {
        push_lang(&mut r, language, "um ", "at ");
        push_hm(&mut r, rh, rm);
    } else if hours > 0 {
        push_str(&mut r, "in ");
        push_dec(&mut r, hours as u64);
        push_str(&mut r, "h ");
        push_dec(&mut r, mins as u64);
        push_str(&mut r, "m (");
        push_hm(&mut r, rh, rm);
        push_str(&mut r, ")");
    } else {
        push_str(&mut r, "in ");
        push_dec_i64(&mut r, mins);
        push_str(&mut r, "m (");
        push_hm(&mut r, rh, rm);
        push_str(&mut r, ")");
    }
    assert(r@ =~= five_hour_phrase(rh as nat, rm as nat, language, now_dt));
    r
}

#[verifier::spinoff_prover]
fn dated_text(
    target: (i32, u32, u32),
    time_opt: Option<(u32, u32)>,
    language: Language,
    now_dt: (i32, u32, u32, u32, u32),
) -> (r: String)
    ensures
        r@ == dated_phrase(
            (target.0 as int, target.1 as nat, target.2 as nat),
            match time_opt {
                Some((h, m)) => Some((h as nat, m as nat)),
                None => None,
            },
            language,
            now_dt,
        ),
{
    let ghost time = match time_opt {
        Some((h, m)) => Some((h as nat, m as nat)),
        None => None,
    };
    let ghost tgt = (target.0 as int, target.1 as nat, target.2 as nat);
    let now_days = civil_days_wide(now_dt.0 as i64, now_dt.1, now_dt.2);
    let target_days = civil_days_wide(target.0 as i64, target.1, target.2);
    let has_exact_time = time_opt.is_some();
    let diff_mins: i64 = match time_opt {
        Some((th, tm)) => {
            let now_total = now_days * 1440 + now_dt.3 as i64 * 60 + now_dt.4 as i64;
            let target_total = target_days * 1440 + th as i64 * 60 + tm as i64;
            target_total - now_total
        },
        None => (target_days - now_days) * 1440,
    };
    assert(diff_mins == minutes_until(tgt, time, now_dt));
    let ghost date = dm_text(target.2 as nat, target.1 as nat);
    let mut r = String::new();
    if diff_mins <= 0 {
        push_lang(&mut r, language, "in Kürze", "soon");
        match time_opt {
            Some((th, tm)) => {
                push_str(&mut r, " (");
                push_hm(&mut r, th, tm);
                push_str(&mut r, ")");
            },
            None => {},
        }
        assert(r@ =~= dated_phrase(tgt, time, language, now_dt));
        return r;
    }
    if diff_mins < 60 && has_exact_time {
        let (th, tm) = match time_opt {
            Some(t) => t,
            None => (0, 0),
        };
        push_str(&mut r, "in ");
        push_dec(&mut r, diff_mins as u64);
        if target_days == now_days {
            push_lang(&mut r, language, "m (heute ", "m (today ");
        } else {
            push_str(&mut r, "m (");
            push_dm(&mut r, target.2, target.1);
            push_str(&mut r, " ");
        }
        push_hm(&mut r, th, tm);
        push_str(&mut r, ")");
        proof {
            if target_days == now_days {
                match language {
                    Language::German => {},
                    Language::English => {},
                }
            }
        }
        assert(r@ =~= dated_phrase(tgt, time, language, now_dt));
        return r;
    }
    let rounded = (diff_mins + 30) / 60;
    let total_hours: i64 = if rounded < 1 {
        1
    } else {
        rounded
    };
    if target_days == now_days {
        push_str(&mut r, "in ~");
        push_dec(&mut r, total_hours as u64);
        match time_opt {
            Some((th, tm)) => {
                push_lang(&mut r, language, "h (heute ", "h (today ");
                push_hm(&mut r, th, tm);
                push_str(&mut r, ")");
            },
            None => {
                push_lang(&mut r, language, "h (heute)", "h (today)");
            },
        }
        assert(r@ =~= dated_phrase(tgt, time, language, now_dt)) by {
            match language {
                Language::German => {},
                Language::English => {},
            }
        }
        return r;
    }
    if total_hours <= 240 {
        push_str(&mut r, "in ~");
        push_dec(&mut r, total_hours as u64);
        push_str(&mut r, "h (");
        push_dm(&mut r, target.2, target.1);
        match time_opt {
            Some((th, tm)) => {
                push_str(&mut r, " ");
                push_hm(&mut r, th, tm);
            },
            None => {},
        }
        push_str(&mut r, ")");
        assert(r@ =~= dated_phrase(tgt, time, language, now_dt));
        return r;
    }
    let days = (diff_mins + 720) / 1440;
    push_str(&mut r, "in ~");
    push_dec(&mut r, days as u64);
    push_str(&mut r, "d (");
    push_dm(&mut r, target.2, target.1);
    match time_opt {
        Some((th, tm)) => {
            push_str(&mut r, " ");
            push_hm(&mut r, th, tm);
        },
        None => {},
    }
    push_str(&mut r, ")");
    assert(r@ =~= dated_phrase(tgt, time, language, now_dt));
    r
}

/// Wording of a provider's next quota reset relative to `now_dt` (year,
/// month, day, hour, minute), for example "in ~6h (heute 19:00)" or
/// "in 3h 9m (15:45)"; UTC times are shown `offset_minutes` east of UTC.
#[verifier::spinoff_prover]
pub fn format_reset_time_phrase(
    reset_raw: Option<&str>,
    is_five_hour: bool,
    language: Language,
    now_dt: (i32, u32, u32, u32, u32),
    offset_minutes: i32,
) -> (r: String)
    requires
        now_dt.0 < i32::MAX,
    ensures
        r@ == reset_phrase(
            match reset_raw {
                Some(s) => Some(s@),
                None => None,
            },
            is_five_hour,
            language,
            now_dt,
            offset_minutes as int,
        ),
{
    let raw: Vec<char> = match reset_raw {
        Some(s) => {
            let chars = chars_of(s);
            trimmed(&chars)
        },
        None => Vec::new(),
    };
    if raw.len() == 0 {
        let mut r = String::new();
        push_lang(&mut r, language, "nicht terminiert", "no schedule");
        assert(r@ =~= lang(language, "nicht terminiert"@, "no schedule"@));
        return r;
    }
    if is_five_hour && has_char(&raw, ':') {
        return match hm_chars(&raw, offset_minutes) {
            Some((rh, rm)) => five_hour_text(rh, rm, language, now_dt),
            None => string_of(&raw),
        };
    }
    if starts_with_str(&raw, "in ") {
        return string_of(&raw);
    }
    match target_datetime_chars(&raw, (now_dt.0, now_dt.1, now_dt.2), offset_minutes) {
        None => fallback_chars(&raw, language),
        Some((target, time_opt)) => dated_text(target, time_opt, language, now_dt),
    }
}

// ---------------------------------------------------------------------------
// Snapshots
// ---------------------------------------------------------------------------

#[derive(Clone, Debug)]
pub struct QuotaSnapshot {
    pub providers: Vec<ProviderQuota>,
    pub has_throttle: bool,
    pub last_updated: Option<std::time::Instant>,
}

/// Whether some provider is throttled.
pub open spec fn any_throttled(providers: Seq<ProviderQuota>) -> bool {
    exists|i: int| 0 <= i < providers.len() && #[trigger] providers[i].is_throttled
}

/// Position of the first provider with the given id.
pub open spec fn provider_index(providers: Seq<ProviderQuota>, id: ProviderId) -> Option<int> {
    if exists|i: int| 0 <= i < providers.len() && #[trigger] providers[i].id == id {
        Some(
            choose|i: int|
                0 <= i < providers.len() && #[trigger] providers[i].id == id && forall|j: int|
                    0 <= j < i ==> providers[j].id != id,
        )
    } else {
        None
    }
}

/// A provider record holds exactly the given values.
pub open spec fn quota_is(
    q: ProviderQuota,
    id: ProviderId,
    title: Seq<char>,
    author: Seq<char>,
    five_hour_percent: Option<u8>,
    five_hour_reset: Option<Seq<char>>,
    week_percent: Option<u8>,
    week_reset: Option<Seq<char>>,
) -> bool {
    &&& q.id == id
    &&& q.title@ == title
    &&& q.author@ == author
    &&& q.five_hour_percent == five_hour_percent
    &&& opt_view(q.five_hour_reset) == five_hour_reset
    &&& q.week_percent == week_percent
    &&& opt_view(q.week_reset) == week_reset
    &&& q.is_throttled == throttled(five_hour_percent, week_percent)
}

fn any_provider_throttled(providers: &Vec<ProviderQuota>) -> (r: bool)
    ensures
        r == any_throttled(providers@),
{
    let mut i: usize = 0;
    while i < providers.len()
        invariant
            i <= providers@.len(),
            forall|j: int| 0 <= j < i ==> !(#[trigger] providers@[j]).is_throttled,
        decreases providers@.len() - i,
    {
        if providers[i].is_throttled {
            return true;
        }
        i += 1;
    }
    false
}

fn find_provider(providers: &Vec<ProviderQuota>, id: ProviderId) -> (r: Option<usize>)
    ensures
        match r {
            Some(k) => provider_index(providers@, id) == Some(k as int) && k < providers@.len(),
            None => provider_index(providers@, id) is None,
        },
{
    let mut i: usize = 0;
    while i < providers.len()
        invariant
            i <= providers@.len(),
            forall|j: int| 0 <= j < i ==> (#[trigger] providers@[j]).id != id,
        decreases providers@.len() - i,
    {
        if providers[i].id == id {
            let ghost k = choose|k: int|
                0 <= k < providers@.len() && #[trigger] providers@[k].id == id && forall|j: int|
                    0 <= j < k ==> providers@[j].id != id;
            assert(providers@[i as int].id == id);
            proof {
                if k < i {
                    assert(providers@[k].id != id);
                }
                if k > i {
                    assert(providers@[i as int].id != id);
                }
            }
            return Some(i);
        }
        i += 1;
    }
    None
}

fn string_from(s: &str) -> (r: String)
    ensures
        r@ == s@,
{
    String::from_str(s)
}

impl QuotaSnapshot {
    /// The values shown until live provider data arrives: GLM and Agy with the
    /// last measured quotas, Codex and Anthropic's model without data.
    pub fn measured_baseline() -> (r: Self)
        ensures
            r.providers@.len() == 4,
            quota_is(
                r.providers@[0],
                ProviderId::Glm,
                "GLM"@,
                "Z.ai"@,
                Some(76u8),
                Some("16:41"@),
                Some(75u8),
                Some("01.10."@),
            ),
            quota_is(
                r.providers@[1],
                ProviderId::Agy,
                "AGI"@,
                "Antigravity"@,
                Some(98u8),
                Some("17:53"@),
                Some(100u8),
                Some("25.09. (12:53)"@),
            ),
            quota_is(r.providers@[2], ProviderId::Codex, "Codex"@, "OpenAI"@, None, None, None, None),
            quota_is(
                r.providers@[3],
                ProviderId::Claude,
                "Anthropic"@,
                "Anthropic"@,
                None,
                None,
                None,
                None,
            ),
            r.has_throttle == any_throttled(r.providers@),
            !r.has_throttle,
            r.last_updated is Some,
    {
        let mut providers: Vec<ProviderQuota> = Vec::new();
        providers.push(
            ProviderQuota::new(
                ProviderId::Glm,
                "GLM",
                "Z.ai",
                Some(76),
                Some(string_from("16:41")),
                Some(75),
                Some(string_from("01.10.")),
            ),
        );
        providers.push(
            ProviderQuota::new(
                ProviderId::Agy,
                "AGI",
                "Antigravity",
                Some(98),
                Some(string_from("17:53")),
                Some(100),
                Some(string_from("25.09. (12:53)")),
            ),
        );
        providers.push(
            ProviderQuota::new(ProviderId::Codex, "Codex", "OpenAI", None, None, None, None),
        );
        providers.push(
            ProviderQuota::new(ProviderId::Claude, "Anthropic", "Anthropic", None, None, None, None),
        );
        let has_throttle = any_provider_throttled(&providers);
        QuotaSnapshot { providers, has_throttle, last_updated: Some(instant_now()) }
    }

    /// The first provider with the given id.
    pub fn get(&self, id: ProviderId) -> (r: Option<&ProviderQuota>)
        ensures
            match provider_index(self.providers@, id) {
                Some(k) => r == Some(&self.providers@[k]),
                None => r is None,
            },
    {
        match find_provider(&self.providers, id) {
            Some(k) => Some(&self.providers[k]),
            None => None,
        }
    }
}

/// The quota values read from Agy: (five-hour %, five-hour reset, week %, week
/// reset).
pub type AgyValues = (Option<u8>, Option<Seq<char>>, Option<u8>, Option<Seq<char>>);

/// Effect of one Agy usage line (`group \t limit \t NN% \t reset`) on the
/// values: only Gemini lines with a readable percentage count.
pub open spec fn agy_line_update(line: Seq<char>, st: AgyValues, offset: int) -> AgyValues {
    let parts = split_on(line, '\t');
    if parts.len() < 4 {
        st
    } else {
        let group = trim(parts[0]);
        let limit_type = trim(parts[1]);
        let pct = trim_end_char(trim(parts[2]), '%');
        let reset = trim(parts[3]);
        if !contains_seq(group, "Gemini"@) {
            st
        } else {
            match parse_bounded(pct, 255) {
                None => st,
                Some(p) => if contains_seq(limit_type, "Five Hour"@) {
                    (
                        Some(p as u8),
                        match iso_local_hm(reset, offset) {
                            Some((h, m)) => Some(hm_text(h, m)),
                            None => st.1,
                        },
                        st.2,
                        st.3,
                    )
                } else if contains_seq(limit_type, "Weekly"@) {
                    let pieces = split_on(split_on(reset, 'T')[0], '-');
                    let week_reset = if pieces.len() >= 3 {
                        match iso_local_hm(reset, offset) {
                            Some((h, mi)) => Some(
                                pieces[2] + "."@ + pieces[1] + ". ("@ + hm_text(h, mi) + ")"@,
                            ),
                            None => Some(pieces[2] + "."@ + pieces[1] + "."@),
                        }
                    } else {
                        st.3
                    };
                    (st.0, st.1, Some(p as u8), week_reset)
                } else {
                    st
                },
            }
        }
    }
}

/// Effect of a sequence of Agy usage lines, first line first.
pub open spec fn agy_lines_update(ls: Seq<Seq<char>>, st: AgyValues, offset: int) -> AgyValues
    decreases ls.len(),
{
    if ls.len() == 0 {
        st
    } else {
        agy_line_update(ls.last(), agy_lines_update(ls.drop_last(), st, offset), offset)
    }
}

/// The provider record after applying Agy usage text.
pub open spec fn agy_updated(old: ProviderQuota, new: ProviderQuota, tsv: Seq<char>, offset: int) -> bool {
    let st = agy_lines_update(
        lines(tsv),
        (old.five_hour_percent, opt_view(old.five_hour_reset), old.week_percent, opt_view(
            old.week_reset,
        )),
        offset,
    );
    quota_is(new, old.id, old.title@, old.author@, st.0, st.1, st.2, st.3)
}

fn push_hm_chars(s: &mut String, hm: (u32, u32))
    ensures
        final(s)@ == old(s)@ + hm_text(hm.0 as nat, hm.1 as nat),
{
    push_pad2(s, hm.0 as u64);
    push_str(s, ":");
    push_pad2(s, hm.1 as u64);
    assert(final(s)@ =~= old(s)@ + hm_text(hm.0 as nat, hm.1 as nat));
}

/// Applies one Agy usage line to a provider record.
#[verifier::spinoff_prover]
fn apply_agy_line(agy: &mut ProviderQuota, line: &[char], offset_minutes: i32)
    ensures
        ({
            let st = agy_line_update(
                line@,
                (
                    old(agy).five_hour_percent,
                    opt_view(old(agy).five_hour_reset),
                    old(agy).week_percent,
                    opt_view(old(agy).week_reset),
                ),
                offset_minutes as int,
            );
            &&& final(agy).id == old(agy).id
            &&& final(agy).title == old(agy).title
            &&& final(agy).author == old(agy).author
            &&& final(agy).is_throttled == old(agy).is_throttled
            &&& final(agy).five_hour_percent == st.0
            &&& opt_view(final(agy).five_hour_reset) == st.1
            &&& final(agy).week_percent == st.2
            &&& opt_view(final(agy).week_reset) == st.3
        }),
{
    let parts = split_chars(line, '\t');
    if parts.len() < 4 {
        return;
    }
    let group = trimmed(&parts[0]);
    let limit_type = trimmed(&parts[1]);
    let pct_trimmed = trimmed(&parts[2]);
    let pct_str = trim_end_matching(&pct_trimmed, '%');
    let reset_raw = trimmed(&parts[3]);
    if !text_contains(&group, "Gemini") {
        return;
    }
    let pct: u8 = match parse_unsigned(&pct_str, 255) {
        Some(p) => p as u8,
        None => return,
    };
    if text_contains(&limit_type, "Five Hour") {
        agy.five_hour_percent = Some(pct);
        match iso_hm_chars(&reset_raw, offset_minutes) {
            Some(hm) => {
                let mut t = String::new();
                push_hm_chars(&mut t, hm);
                agy.five_hour_reset = Some(t);
            },
            None => {},
        }
    } else if text_contains(&limit_type, "Weekly") {
        agy.week_percent = Some(pct);
        let hm_opt = iso_hm_chars(&reset_raw, offset_minutes);
        let by_t = split_chars(&reset_raw, 'T');
        let date_pieces = split_chars(&by_t[0], '-');
        if date_pieces.len() >= 3 {
            let m = &date_pieces[1];
            let d = &date_pieces[2];
            let mut t = String::new();
            push_chars(&mut t, d);
            push_str(&mut t, ".");
            push_chars(&mut t, m);
            match hm_opt {
                Some(hm) => {
                    push_str(&mut t, ". (");
                    push_hm_chars(&mut t, hm);
                    push_str(&mut t, ")");
                },
                None => {
                    push_str(&mut t, ".");
                },
            }
            agy.week_reset = Some(t);
        }
    }
}

/// Reads Agy usage text (`agy -p "/usage"`): lines of
/// `group \t limit \t NN% \t reset`. Gives the remaining percentages of the
/// five-hour and weekly limits, or `None` when a line with at least three
/// fields has an unreadable percentage.
pub open spec fn agy_percentages(ls: Seq<Seq<char>>) -> Option<(Option<u8>, Option<u8>)>
    decreases ls.len(),
{
    if ls.len() == 0 {
        Some((None, None))
    } else {
        match agy_percentages(ls.drop_last()) {
            None => None,
            Some((five, week)) => {
                let parts = split_on(ls.last(), '\t');
                if parts.len() < 3 {
                    Some((five, week))
                } else {
                    let limit_type = trim(parts[1]);
                    match parse_bounded(trim_end_char(trim(parts[2]), '%'), 255) {
                        None => None,
                        Some(p) => if contains_seq(limit_type, "Five Hour"@) {
                            Some((Some(p as u8), week))
                        } else if contains_seq(limit_type, "Weekly"@) {
                            Some((five, Some(p as u8)))
                        } else {
                            Some((five, week))
                        },
                    }
                }
            },
        }
    }
}

/// Remaining five-hour and weekly percentages in Agy usage text.
#[verifier::spinoff_prover]
pub fn parse_agy_tsv(tsv_str: &str) -> (r: Option<(Option<u8>, Option<u8>)>)
    ensures
        r == agy_percentages(lines(tsv_str@)),
{
    let chars = chars_of(tsv_str);
    let ls = split_lines(&chars);
    let mut five: Option<u8> = None;
    let mut week: Option<u8> = None;
    let mut i: usize = 0;
    while i < ls.len()
        invariant
            i <= ls@.len(),
            views(ls@) == lines(tsv_str@),
            agy_percentages(views(ls@).take(i as int)) == Some((five, week)),
        decreases ls@.len() - i,
    {
        assert(views(ls@).take(i + 1).drop_last() == views(ls@).take(i as int));
        assert(views(ls@).take(i + 1).last() == ls@[i as int]@);
        let parts = split_chars(&ls[i], '\t');
        if parts.len() >= 3 {
            let limit_type = trimmed(&parts[1]);
            let pct_trimmed = trimmed(&parts[2]);
            let pct_str = trim_end_matching(&pct_trimmed, '%');
            let pct: u8 = match parse_unsigned(&pct_str, 255) {
                Some(p) => p as u8,
                None => {
                    proof {
                        lemma_agy_percentages_none_stays(views(ls@), i as int + 1);
                    }
                    return None;
                },
            };
            if text_contains(&limit_type, "Five Hour") {
                five = Some(pct);
            } else if text_contains(&limit_type, "Weekly") {
                week = Some(pct);
            }
        }
        i += 1;
    }
    assert(views(ls@).take(ls@.len() as int) == views(ls@));
    Some((five, week))
}

proof fn lemma_agy_percentages_none_stays(ls: Seq<Seq<char>>, k: int)
    requires
        0 <= k <= ls.len(),
        agy_percentages(ls.take(k)) is None,
    ensures
        agy_percentages(ls) is None,
    decreases ls.len() - k,
{
    if k < ls.len() {
        assert(ls.take(k + 1).drop_last() == ls.take(k));
        lemma_agy_percentages_none_stays(ls, k + 1);
    } else {
        assert(ls.take(k) == ls);
    }
}

/// Applies Agy usage text to the first Agy provider of the snapshot: the
/// Gemini five-hour and weekly percentages and reset times replace the stored
/// ones, then the throttle flags are recomputed. Other providers stay as
/// they are.
#[verifier::spinoff_prover]
#[verifier::rlimit(60)]
pub fn update_snapshot_with_agy_tsv(snapshot: &mut QuotaSnapshot, tsv: &str, offset_minutes: i32)
    ensures
        final(snapshot).providers@.len() == old(snapshot).providers@.len(),
        match provider_index(old(snapshot).providers@, ProviderId::Agy) {
            Some(k) => {
                &&& agy_updated(
                    old(snapshot).providers@[k],
                    final(snapshot).providers@[k],
                    tsv@,
                    offset_minutes as int,
                )
                &&& forall|j: int|
                    0 <= j < old(snapshot).providers@.len() && j != k
                        ==> final(snapshot).providers@[j] == old(snapshot).providers@[j]
            },
            None => final(snapshot).providers@ == old(snapshot).providers@,
        },
        final(snapshot).has_throttle == any_throttled(final(snapshot).providers@),
        final(snapshot).last_updated is Some,
{
    match find_provider(&snapshot.providers, ProviderId::Agy) {
        Some(k) => {
            let mut agy = snapshot.providers.remove(k);
            let ghost prior = agy;
            let chars = chars_of(tsv);
            let ls = split_lines(&chars);
            let mut i: usize = 0;
            while i < ls.len()
                invariant
                    i <= ls@.len(),
                    views(ls@) == lines(tsv@),
                    agy.id == prior.id,
                    agy.title == prior.title,
                    agy.author == prior.author,
                    ({
                        let st = agy_lines_update(
                            views(ls@).take(i as int),
                            (prior.five_hour_percent, opt_view(prior.five_hour_reset),
                            prior.week_percent, opt_view(prior.week_reset)),
                            offset_minutes as int,
                        );
                        &&& agy.five_hour_percent == st.0
                        &&& opt_view(agy.five_hour_reset) == st.1
                        &&& agy.week_percent == st.2
                        &&& opt_view(agy.week_reset) == st.3
                    }),
                decreases ls@.len() - i,
            {
                assert(views(ls@).take(i + 1).drop_last() == views(ls@).take(i as int));
                assert(views(ls@).take(i + 1).last() == ls@[i as int]@);
                apply_agy_line(&mut agy, &ls[i], offset_minutes);
                i += 1;
            }
            assert(views(ls@).take(ls@.len() as int) == views(ls@));
            let week_zero = match agy.week_percent {
                Some(p) => p == 0,
                None => false,
            };
            let five_zero = match agy.five_hour_percent {
                Some(p) => p == 0,
                None => false,
            };
            agy.is_throttled = week_zero || five_zero;
            let ghost before = snapshot.providers@;
            snapshot.providers.insert(k, agy);
            assert(snapshot.providers@ == before.insert(k as int, agy));
        },
        None => {},
    }
    snapshot.has_throttle = any_provider_throttled(&snapshot.providers);
    snapshot.last_updated = Some(instant_now());
}


// ---------------------------------------------------------------------------
// GLM and Codex reports
// ---------------------------------------------------------------------------

/// One limit of the GLM quota report: its type, the used percentage (as a
/// whole number) and the time of its next reset in milliseconds since the
/// Unix epoch.
#[derive(Clone, Debug)]
pub struct GlmLimit {
    pub limit_type: String,
    pub used_percent: u8,
    pub next_reset_ms: Option<i64>,
}

/// Local seconds of a reset time in milliseconds (truncating division, as
/// the report is read), `offset` minutes east of UTC.
pub open spec fn local_seconds(ms: int, offset: int) -> int {
    tdiv(ms, 1000) + offset * 60
}

/// `HH:MM` of a reset time.
pub open spec fn reset_hm_text(ms: int, offset: int) -> Seq<char> {
    let day_secs = local_seconds(ms, offset) % 86400;
    hm_text((day_secs / 3600) as nat, ((day_secs % 3600) / 60) as nat)
}

/// `DD.MM. (HH:MM)` of a reset time.
pub open spec fn reset_day_text(ms: int, offset: int) -> Seq<char> {
    let date = crate::calendar::civil_from_days(tdiv(local_seconds(ms, offset), 86400));
    dm_text(date.2 as nat, date.1 as nat) + " ("@ + reset_hm_text(ms, offset) + ")"@
}

/// Effect of one GLM limit on the values: the token limit is the five-hour
/// quota, the time limit the weekly one; the remaining percentage is what the
/// used one leaves of 100.
pub open spec fn glm_limit_update(
    limit_type: Seq<char>,
    used: u8,
    reset_ms: Option<i64>,
    st: AgyValues,
    offset: int,
) -> AgyValues {
    let remaining = if used >= 100 {
        0u8
    } else {
        (100 - used) as u8
    };
    if limit_type == "TOKENS_LIMIT"@ {
        (
            Some(remaining),
            match reset_ms {
                Some(ms) => Some(reset_hm_text(ms as int, offset)),
                None => st.1,
            },
            st.2,
            st.3,
        )
    } else if limit_type == "TIME_LIMIT"@ {
        (
            st.0,
            st.1,
            Some(remaining),
            match reset_ms {
                Some(ms) => Some(reset_day_text(ms as int, offset)),
                None => st.3,
            },
        )
    } else {
        st
    }
}

/// The values after the limits in order.
pub open spec fn glm_limits_update(limits: Seq<GlmLimit>, st: AgyValues, offset: int) -> AgyValues
    decreases limits.len(),
{
    if limits.len() == 0 {
        st
    } else {
        let l = limits.last();
        glm_limit_update(
            l.limit_type@,
            l.used_percent,
            l.next_reset_ms,
            glm_limits_update(limits.drop_last(), st, offset),
            offset,
        )
    }
}

/// The local time of day of a reset, as hours and minutes.
fn reset_hm(ms: i64, offset_minutes: i32) -> (r: (u32, u32))
    ensures
        hm_text(r.0 as nat, r.1 as nat) == reset_hm_text(ms as int, offset_minutes as int),
        ({
            let day_secs = local_seconds(ms as int, offset_minutes as int) % 86400;
            r.0 == day_secs / 3600 && r.1 == (day_secs % 3600) / 60
        }),
{
    let secs: i64 = ms / 1000;
    let local: i64 = secs + offset_minutes as i64 * 60;
    let rem: i64 = local % 86400;
    let day_secs: i64 = if rem < 0 {
        rem + 86400
    } else {
        rem
    };
    assert(day_secs == local_seconds(ms as int, offset_minutes as int) % 86400);
    ((day_secs / 3600) as u32, ((day_secs % 3600) / 60) as u32)
}

fn apply_glm_limit(glm: &mut ProviderQuota, limit: &GlmLimit, offset_minutes: i32)
    ensures
        final(glm).id == old(glm).id,
        final(glm).title == old(glm).title,
        final(glm).author == old(glm).author,
        ({
            let st = glm_limit_update(
                limit.limit_type@,
                limit.used_percent,
                limit.next_reset_ms,
                (old(glm).five_hour_percent, opt_view(old(glm).five_hour_reset), old(
                    glm,
                ).week_percent, opt_view(old(glm).week_reset)),
                offset_minutes as int,
            );
            &&& final(glm).five_hour_percent == st.0
            &&& opt_view(final(glm).five_hour_reset) == st.1
            &&& final(glm).week_percent == st.2
            &&& opt_view(final(glm).week_reset) == st.3
        }),
{
    let remaining: u8 = if limit.used_percent >= 100 {
        0
    } else {
        100 - limit.used_percent
    };
    let t = chars_of(limit.limit_type.as_str());
    if crate::text::eq_str(&t, "TOKENS_LIMIT") {
        glm.five_hour_percent = Some(remaining);
        if let Some(ms) = limit.next_reset_ms {
            let (h, m) = reset_hm(ms, offset_minutes);
            let mut s = String::new();
            push_hm(&mut s, h, m);
            glm.five_hour_reset = Some(s);
        }
    } else if crate::text::eq_str(&t, "TIME_LIMIT") {
        glm.week_percent = Some(remaining);
        if let Some(ms) = limit.next_reset_ms {
            let secs: i64 = ms / 1000;
            let local: i64 = secs + offset_minutes as i64 * 60;
            let days: i64 = local / 86400;
            assert(days == tdiv(local_seconds(ms as int, offset_minutes as int), 86400));
            let (_y, month, d) = days_to_ymd(days);
            let (h, m) = reset_hm(ms, offset_minutes);
            let mut s = String::new();
            push_dm(&mut s, d, month);
            push_str(&mut s, " (");
            push_hm(&mut s, h, m);
            push_str(&mut s, ")");
            glm.week_reset = Some(s);
        }
    }
}

/// Applies the limits of a GLM report to the first GLM provider: each token
/// or time limit replaces its percentage (and reset time, when given), then
/// the throttle flags are recomputed. Other providers stay as they are.
#[verifier::spinoff_prover]
#[verifier::rlimit(40)]
pub fn update_snapshot_with_glm_limits(
    snapshot: &mut QuotaSnapshot,
    limits: &Vec<GlmLimit>,
    offset_minutes: i32,
)
    ensures
        final(snapshot).providers@.len() == old(snapshot).providers@.len(),
        match provider_index(old(snapshot).providers@, ProviderId::Glm) {
            Some(k) => {
                let q = old(snapshot).providers@[k];
                let st = glm_limits_update(
                    limits@,
                    (q.five_hour_percent, opt_view(q.five_hour_reset), q.week_percent, opt_view(
                        q.week_reset,
                    )),
                    offset_minutes as int,
                );
                &&& quota_is(final(snapshot).providers@[k], q.id, q.title@, q.author@, st.0, st.1, st.2, st.3)
                &&& forall|j: int|
                    0 <= j < old(snapshot).providers@.len() && j != k
                        ==> final(snapshot).providers@[j] == old(snapshot).providers@[j]
            },
            None => final(snapshot).providers@ == old(snapshot).providers@,
        },
        final(snapshot).has_throttle == any_throttled(final(snapshot).providers@),
        final(snapshot).last_updated is Some,
{
    match find_provider(&snapshot.providers, ProviderId::Glm) {
        Some(k) => {
            let mut glm = snapshot.providers.remove(k);
            let ghost prior = glm;
            let mut i: usize = 0;
            while i < limits.len()
                invariant
                    i <= limits@.len(),
                    glm.id == prior.id,
                    glm.title == prior.title,
                    glm.author == prior.author,
                    ({
                        let st = glm_limits_update(
                            limits@.take(i as int),
                            (prior.five_hour_percent, opt_view(prior.five_hour_reset),
                            prior.week_percent, opt_view(prior.week_reset)),
                            offset_minutes as int,
                        );
                        &&& glm.five_hour_percent == st.0
                        &&& opt_view(glm.five_hour_reset) == st.1
                        &&& glm.week_percent == st.2
                        &&& opt_view(glm.week_reset) == st.3
                    }),
                decreases limits@.len() - i,
            {
                assert(limits@.take(i + 1).drop_last() == limits@.take(i as int));
                assert(limits@.take(i + 1).last() == limits@[i as int]);
                apply_glm_limit(&mut glm, &limits[i], offset_minutes);
                i += 1;
            }
            assert(limits@.take(limits@.len() as int) == limits@);
            let week_zero = match glm.week_percent {
                Some(p) => p == 0,
                None => false,
            };
            let five_zero = match glm.five_hour_percent {
                Some(p) => p == 0,
                None => false,
            };
            glm.is_throttled = week_zero || five_zero;
            let ghost before = snapshot.providers@;
            snapshot.providers.insert(k, glm);
            assert(snapshot.providers@ == before.insert(k as int, glm));
        },
        None => {},
    }
    snapshot.has_throttle = any_provider_throttled(&snapshot.providers);
    snapshot.last_updated = Some(instant_now());
}

/// One window of the Codex quota report: the remaining percentage (when it
/// is a whole number) and the reset text.
#[derive(Clone, Debug)]
pub struct CodexWindow {
    pub remaining_percent: Option<u64>,
    pub reset: Option<String>,
}

/// The percentage that a window reads as: at most 100, otherwise none.
pub open spec fn window_percent(w: Option<CodexWindow>) -> Option<u8> {
    match w {
        Some(w) => match w.remaining_percent {
            Some(p) => if p <= 100 {
                Some(p as u8)
            } else {
                None
            },
            None => None,
        },
        None => None,
    }
}

pub open spec fn window_reset(w: Option<CodexWindow>) -> Option<Seq<char>> {
    match w {
        Some(w) => opt_view(w.reset),
        None => None,
    }
}

fn read_window(w: Option<CodexWindow>) -> (r: (Option<u8>, Option<String>))
    ensures
        r.0 == window_percent(w),
        opt_view(r.1) == window_reset(w),
{
    match w {
        Some(w) => {
            let percent = match w.remaining_percent {
                Some(p) => if p <= 100 {
                    Some(p as u8)
                } else {
                    None
                },
                None => None,
            };
            (percent, w.reset)
        },
        None => (None, None),
    }
}

/// Applies a Codex quota report to the first Codex provider: every report
/// replaces the whole observation, so a missing window leaves no old value
/// behind. Without a Codex provider nothing changes.
pub fn update_snapshot_with_codex_windows(
    snapshot: &mut QuotaSnapshot,
    week: Option<CodexWindow>,
    five_hour: Option<CodexWindow>,
)
    ensures
        final(snapshot).providers@.len() == old(snapshot).providers@.len(),
        match provider_index(old(snapshot).providers@, ProviderId::Codex) {
            Some(k) => {
                let q = old(snapshot).providers@[k];
                &&& quota_is(
                    final(snapshot).providers@[k],
                    q.id,
                    q.title@,
                    q.author@,
                    window_percent(five_hour),
                    window_reset(five_hour),
                    window_percent(week),
                    window_reset(week),
                )
                &&& forall|j: int|
                    0 <= j < old(snapshot).providers@.len() && j != k
                        ==> final(snapshot).providers@[j] == old(snapshot).providers@[j]
                &&& final(snapshot).has_throttle == any_throttled(final(snapshot).providers@)
                &&& final(snapshot).last_updated is Some
            },
            None => *final(snapshot) == *old(snapshot),
        },
{
    match find_provider(&snapshot.providers, ProviderId::Codex) {
        Some(k) => {
            let mut codex = snapshot.providers.remove(k);
            let (week_percent, week_reset) = read_window(week);
            let (five_percent, five_reset) = read_window(five_hour);
            codex.week_percent = week_percent;
            codex.week_reset = week_reset;
            codex.five_hour_percent = five_percent;
            codex.five_hour_reset = five_reset;
            codex.is_throttled = week_percent == Some(0u8) || five_percent == Some(0u8);
            let ghost before = snapshot.providers@;
            snapshot.providers.insert(k, codex);
            assert(snapshot.providers@ == before.insert(k as int, codex));
            snapshot.has_throttle = any_provider_throttled(&snapshot.providers);
            snapshot.last_updated = Some(instant_now());
        },
        None => {},
    }
}


/// The unsigned integer that a JSON text holds at a JSON pointer (as
/// `serde_json` reads the text into a `Value` and follows the pointer):
/// `None` when the text is no JSON, the pointer leads nowhere, or what it
/// leads to is no unsigned integer.
pub uninterp spec fn json_u64_at(text: Seq<char>, pointer: Seq<char>) -> Option<u64>;

/// The string that a JSON text holds at a JSON pointer (read as for
/// `json_u64_at`): `None` when there is no string there.
pub uninterp spec fn json_str_at(text: Seq<char>, pointer: Seq<char>) -> Option<Seq<char>>;

/// `serde_json::from_str` into a `Value`, then `Value::pointer` and
/// `Value::as_u64`: the number named `json_u64_at`.
#[verifier::external_body]
fn json_u64_at_value(text: &str, pointer: &str) -> (r: Option<u64>)
    ensures
        r == json_u64_at(text@, pointer@),
{
    serde_json::from_str::<serde_json::Value>(text).ok()?.pointer(pointer)?.as_u64()
}

/// `serde_json::from_str` into a `Value`, then `Value::pointer` and
/// `Value::as_str`: the string named `json_str_at`.
#[verifier::external_body]
fn json_str_at_value(text: &str, pointer: &str) -> (r: Option<String>)
    ensures
        opt_view(r) == json_str_at(text@, pointer@),
{
    serde_json::from_str::<serde_json::Value>(text).ok()?.pointer(pointer)?.as_str().map(str::to_owned)
}

/// The percentage that a Codex report gives at a pointer: the number there
/// when it is at most 100.
pub open spec fn json_percent(text: Seq<char>, pointer: Seq<char>) -> Option<u8> {
    match json_u64_at(text, pointer) {
        Some(p) => if p <= 100 {
            Some(p as u8)
        } else {
            None
        },
        None => None,
    }
}

/// Applies a Codex quota report, given as the JSON text of the Codex log
/// reader (`{"week": {"remaining_percent": .., "reset": ..}, "five_hour":
/// {..}}`), to the first Codex provider. Every report replaces the whole
/// observation: a window, percentage or reset that the text lacks (or text
/// that is no JSON) leaves none behind. Without a Codex provider nothing
/// changes.
pub fn update_snapshot_with_codex_json(snapshot: &mut QuotaSnapshot, json_str: &str)
    ensures
        final(snapshot).providers@.len() == old(snapshot).providers@.len(),
        match provider_index(old(snapshot).providers@, ProviderId::Codex) {
            Some(k) => {
                let q = old(snapshot).providers@[k];
                &&& quota_is(
                    final(snapshot).providers@[k],
                    q.id,
                    q.title@,
                    q.author@,
                    json_percent(json_str@, "/five_hour/remaining_percent"@),
                    json_str_at(json_str@, "/five_hour/reset"@),
                    json_percent(json_str@, "/week/remaining_percent"@),
                    json_str_at(json_str@, "/week/reset"@),
                )
                &&& forall|j: int|
                    0 <= j < old(snapshot).providers@.len() && j != k
                        ==> final(snapshot).providers@[j] == old(snapshot).providers@[j]
                &&& final(snapshot).has_throttle == any_throttled(final(snapshot).providers@)
                &&& final(snapshot).last_updated is Some
            },
            None => *final(snapshot) == *old(snapshot),
        },
{
    let week = CodexWindow {
        remaining_percent: json_u64_at_value(json_str, "/week/remaining_percent"),
        reset: json_str_at_value(json_str, "/week/reset"),
    };
    let five_hour = CodexWindow {
        remaining_percent: json_u64_at_value(json_str, "/five_hour/remaining_percent"),
        reset: json_str_at_value(json_str, "/five_hour/reset"),
    };
    update_snapshot_with_codex_windows(snapshot, Some(week), Some(five_hour));
}


/// Whether a JSON text holds anything at a JSON pointer (read as for
/// `json_u64_at`); false when the text is no JSON.
pub uninterp spec fn json_has(text: Seq<char>, pointer: Seq<char>) -> bool;

/// The length of the array that a JSON text holds at a JSON pointer (read
/// as for `json_u64_at`): `None` when there is no array there.
pub uninterp spec fn json_array_len_at(text: Seq<char>, pointer: Seq<char>) -> Option<usize>;

/// The signed integer that a JSON text holds at a JSON pointer (read as for
/// `json_u64_at`, then `Value::as_i64`).
pub uninterp spec fn json_i64_at(text: Seq<char>, pointer: Seq<char>) -> Option<i64>;

/// The number that a JSON text holds at a JSON pointer (read as for
/// `json_u64_at`, then `Value::as_f64`), cut to a whole number between 0 and
/// 255 as a cast to `u8` does: `None` when there is no number there.
pub uninterp spec fn json_whole_percent_at(text: Seq<char>, pointer: Seq<char>) -> Option<u8>;

/// `serde_json::from_str` into a `Value`, then `Value::pointer`: whether it
/// finds a value, the named `json_has`.
#[verifier::external_body]
fn json_has_value(text: &str, pointer: &str) -> (r: bool)
    ensures
        r == json_has(text@, pointer@),
{
    match serde_json::from_str::<serde_json::Value>(text) {
        Ok(value) => value.pointer(pointer).is_some(),
        Err(_) => false,
    }
}

/// `serde_json::from_str` into a `Value`, then `Value::pointer`,
/// `Value::as_array` and the array's length: the named `json_array_len_at`.
#[verifier::external_body]
fn json_array_len_at_value(text: &str, pointer: &str) -> (r: Option<usize>)
    ensures
        r == json_array_len_at(text@, pointer@),
{
    Some(serde_json::from_str::<serde_json::Value>(text).ok()?.pointer(pointer)?.as_array()?.len())
}

/// `serde_json::from_str` into a `Value`, then `Value::pointer` and
/// `Value::as_i64`: the named `json_i64_at`.
#[verifier::external_body]
fn json_i64_at_value(text: &str, pointer: &str) -> (r: Option<i64>)
    ensures
        r == json_i64_at(text@, pointer@),
{
    serde_json::from_str::<serde_json::Value>(text).ok()?.pointer(pointer)?.as_i64()
}

/// `serde_json::from_str` into a `Value`, then `Value::pointer`,
/// `Value::as_f64` and a cast to `u8`: the named `json_whole_percent_at`.
#[verifier::external_body]
fn json_whole_percent_at_value(text: &str, pointer: &str) -> (r: Option<u8>)
    ensures
        r == json_whole_percent_at(text@, pointer@),
{
    serde_json::from_str::<serde_json::Value>(text).ok()?.pointer(pointer)?.as_f64().map(|p| p as u8)
}

/// What remains of a used percentage: 100 minus it, at least 0.
pub open spec fn remaining_of(used: u8) -> u8 {
    if used >= 100 {
        0u8
    } else {
        (100 - used) as u8
    }
}

/// The remaining percentage that a report gives at a pointer to a used
/// percentage.
pub open spec fn json_remaining(text: Seq<char>, pointer: Seq<char>) -> Option<u8> {
    match json_whole_percent_at(text, pointer) {
        Some(used) => Some(remaining_of(used)),
        None => None,
    }
}

fn remaining_at(text: &str, pointer: &str) -> (r: Option<u8>)
    ensures
        r == json_remaining(text@, pointer@),
{
    match json_whole_percent_at_value(text, pointer) {
        Some(used) => Some(if used >= 100 {
            0u8
        } else {
            100 - used
        }),
        None => None,
    }
}

/// The five-hour and weekly remaining percentages of a Codex rate-limit
/// report (`rateLimits.secondary` and `rateLimits.primary`, whose
/// `usedPercent` is consumption): `None` when the text is no JSON or has no
/// `rateLimits`.
pub fn parse_codex_rate_limits(json_str: &str) -> (r: Option<(Option<u8>, Option<u8>)>)
    ensures
        r == (if json_has(json_str@, "/rateLimits"@) {
            Some(
                (
                    json_remaining(json_str@, "/rateLimits/secondary/usedPercent"@),
                    json_remaining(json_str@, "/rateLimits/primary/usedPercent"@),
                ),
            )
        } else {
            None
        }),
{
    if !json_has_value(json_str, "/rateLimits") {
        return None;
    }
    let week = remaining_at(json_str, "/rateLimits/primary/usedPercent");
    let five_hour = remaining_at(json_str, "/rateLimits/secondary/usedPercent");
    Some((five_hour, week))
}

/// The pointer to a field of the `i`-th GLM limit.
pub open spec fn glm_pointer(i: nat, field: Seq<char>) -> Seq<char> {
    "/data/limits/"@ + dec(i) + "/"@ + field
}

fn glm_field_pointer(i: usize, field: &str) -> (r: String)
    ensures
        r@ == glm_pointer(i as nat, field@),
{
    let mut p = String::new();
    push_str(&mut p, "/data/limits/");
    push_dec(&mut p, i as u64);
    push_str(&mut p, "/");
    push_str(&mut p, field);
    p
}

/// The five-hour and weekly remaining percentages after the first `n` GLM
/// limits (`TOKENS_LIMIT` and `TIME_LIMIT`, whose `percentage` is
/// consumption): `None` once a limit lacks its type text or its percentage.
pub open spec fn glm_parsed(text: Seq<char>, n: nat) -> Option<(Option<u8>, Option<u8>)>
    decreases n,
{
    if n == 0 {
        Some((None, None))
    } else {
        let i = (n - 1) as nat;
        match glm_parsed(text, i) {
            None => None,
            Some((five_hour, week)) => match (
                json_str_at(text, glm_pointer(i, "type"@)),
                json_whole_percent_at(text, glm_pointer(i, "percentage"@)),
            ) {
                (Some(t), Some(used)) => if t == "TOKENS_LIMIT"@ {
                    Some((Some(remaining_of(used)), week))
                } else if t == "TIME_LIMIT"@ {
                    Some((five_hour, Some(remaining_of(used))))
                } else {
                    Some((five_hour, week))
                },
                _ => None,
            },
        }
    }
}

proof fn lemma_glm_parsed_stays_none(text: Seq<char>, m: nat, n: nat)
    requires
        m <= n,
        glm_parsed(text, m) is None,
    ensures
        glm_parsed(text, n) is None,
    decreases n - m,
{
    if m < n {
        lemma_glm_parsed_stays_none(text, m, (n - 1) as nat);
    }
}

/// The five-hour and weekly remaining percentages of a GLM quota report
/// (`data.limits`): `None` when the text is no JSON, has no limits array, or
/// a limit lacks its type text or its percentage.
pub fn parse_glm_limits(json_str: &str) -> (r: Option<(Option<u8>, Option<u8>)>)
    ensures
        r == (match json_array_len_at(json_str@, "/data/limits"@) {
            Some(n) => glm_parsed(json_str@, n as nat),
            None => None,
        }),
{
    let n = match json_array_len_at_value(json_str, "/data/limits") {
        Some(n) => n,
        None => return None,
    };
    let mut five_hour: Option<u8> = None;
    let mut week: Option<u8> = None;
    let mut i: usize = 0;
    while i < n
        invariant
            i <= n,
            json_array_len_at(json_str@, "/data/limits"@) == Some(n),
            glm_parsed(json_str@, i as nat) == Some((five_hour, week)),
        decreases n - i,
    {
        let type_pointer = glm_field_pointer(i, "type");
        let percent_pointer = glm_field_pointer(i, "percentage");
        let limit_type = match json_str_at_value(json_str, type_pointer.as_str()) {
            Some(t) => t,
            None => {
                assert(glm_parsed(json_str@, (i + 1) as nat) is None);
                proof {
                    lemma_glm_parsed_stays_none(json_str@, (i + 1) as nat, n as nat);
                }
                return None;
            },
        };
        let used = match json_whole_percent_at_value(json_str, percent_pointer.as_str()) {
            Some(u) => u,
            None => {
                assert(glm_parsed(json_str@, (i + 1) as nat) is None);
                proof {
                    lemma_glm_parsed_stays_none(json_str@, (i + 1) as nat, n as nat);
                }
                return None;
            },
        };
        let remaining = if used >= 100 {
            0u8
        } else {
            100 - used
        };
        let type_chars = chars_of(limit_type.as_str());
        if eq_str(&type_chars, "TOKENS_LIMIT") {
            five_hour = Some(remaining);
        } else if eq_str(&type_chars, "TIME_LIMIT") {
            week = Some(remaining);
        }
        i += 1;
    }
    Some((five_hour, week))
}


/// The GLM provider's values after the first `n` limits of a GLM quota
/// report: a limit without a type text is skipped, a missing percentage
/// counts as 0 used.
pub open spec fn glm_json_update(text: Seq<char>, n: nat, st: AgyValues, offset: int) -> AgyValues
    decreases n,
{
    if n == 0 {
        st
    } else {
        let i = (n - 1) as nat;
        let prev = glm_json_update(text, i, st, offset);
        match json_str_at(text, glm_pointer(i, "type"@)) {
            Some(t) => glm_limit_update(
                t,
                match json_whole_percent_at(text, glm_pointer(i, "percentage"@)) {
                    Some(used) => used,
                    None => 0u8,
                },
                json_i64_at(text, glm_pointer(i, "nextResetTime"@)),
                prev,
                offset,
            ),
            None => prev,
        }
    }
}

/// Applies a GLM quota report, given as its JSON text (`data.limits`, each
/// with `type`, the used `percentage` and `nextResetTime` in milliseconds),
/// to the first GLM provider, with reset times shown `offset_minutes` east of
/// UTC (see `update_snapshot_with_glm_limits`). Text that is no JSON or has
/// no limits array changes nothing.
pub fn update_snapshot_with_glm_json(snapshot: &mut QuotaSnapshot, json_str: &str, offset_minutes: i32)
    ensures
        match json_array_len_at(json_str@, "/data/limits"@) {
            None => *final(snapshot) == *old(snapshot),
            Some(n) => {
                &&& final(snapshot).providers@.len() == old(snapshot).providers@.len()
                &&& match provider_index(old(snapshot).providers@, ProviderId::Glm) {
                    Some(k) => {
                        let q = old(snapshot).providers@[k];
                        let st = glm_json_update(
                            json_str@,
                            n as nat,
                            (q.five_hour_percent, opt_view(q.five_hour_reset), q.week_percent, opt_view(
                                q.week_reset,
                            )),
                            offset_minutes as int,
                        );
                        &&& quota_is(final(snapshot).providers@[k], q.id, q.title@, q.author@, st.0, st.1, st.2, st.3)
                        &&& forall|j: int|
                            0 <= j < old(snapshot).providers@.len() && j != k
                                ==> final(snapshot).providers@[j] == old(snapshot).providers@[j]
                    },
                    None => final(snapshot).providers@ == old(snapshot).providers@,
                }
                &&& final(snapshot).has_throttle == any_throttled(final(snapshot).providers@)
                &&& final(snapshot).last_updated is Some
            },
        },
{
    let n = match json_array_len_at_value(json_str, "/data/limits") {
        Some(n) => n,
        None => return,
    };
    let mut limits: Vec<GlmLimit> = Vec::new();
    let mut i: usize = 0;
    while i < n
        invariant
            i <= n,
            forall|st: AgyValues|
                #[trigger] glm_json_update(json_str@, i as nat, st, offset_minutes as int)
                    == glm_limits_update(limits@, st, offset_minutes as int),
        decreases n - i,
    {
        let type_pointer = glm_field_pointer(i, "type");
        let percent_pointer = glm_field_pointer(i, "percentage");
        let reset_pointer = glm_field_pointer(i, "nextResetTime");
        let ghost before = limits@;
        match json_str_at_value(json_str, type_pointer.as_str()) {
            Some(limit_type) => {
                let used_percent = match json_whole_percent_at_value(json_str, percent_pointer.as_str()) {
                    Some(u) => u,
                    None => 0u8,
                };
                let next_reset_ms = json_i64_at_value(json_str, reset_pointer.as_str());
                let limit = GlmLimit { limit_type, used_percent, next_reset_ms };
                limits.push(limit);
                assert forall|st: AgyValues|
                    #[trigger] glm_json_update(json_str@, (i + 1) as nat, st, offset_minutes as int)
                        == glm_limits_update(limits@, st, offset_minutes as int) by {
                    assert(limits@.drop_last() == before);
                    assert(glm_json_update(json_str@, i as nat, st, offset_minutes as int)
                        == glm_limits_update(before, st, offset_minutes as int));
                }
            },
            None => {
                assert forall|st: AgyValues|
                    #[trigger] glm_json_update(json_str@, (i + 1) as nat, st, offset_minutes as int)
                        == glm_limits_update(limits@, st, offset_minutes as int) by {
                    assert(glm_json_update(json_str@, i as nat, st, offset_minutes as int)
                        == glm_limits_update(before, st, offset_minutes as int));
                }
            },
        }
        i += 1;
    }
    update_snapshot_with_glm_limits(snapshot, &limits, offset_minutes);
}

} // verus!
