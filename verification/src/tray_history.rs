//! The tray app's session record and completion history: a session that
//! ends without a clean exit is logged when the next one starts, and the
//! history keeps its most recent rows.
use crate::text::{
    chars_of, dec, lines, pad2, pad4, push_char, push_chars, push_dec, push_pad2, push_pad4,
    push_str, split_lines, trim, trimmed, views,
};
use vstd::prelude::*;

verus! {

/// How many rows the completion history keeps.
pub const HISTORY_LIMIT: usize = 30;

/// First line of the history file.
pub open spec fn history_header() -> Seq<char> {
    "Datum und Uhrzeit;Aktion;Auslöser;Lauf-ID"@
}

/// A value made safe for one CSV field: line breaks and `;` become spaces.
pub open spec fn csv_safe_spec(value: Seq<char>) -> Seq<char> {
    value.map_values(|c: char| if c == '\r' || c == '\n' || c == ';' { ' ' } else { c })
}

pub fn csv_safe(value: &str) -> (r: String)
    ensures
        r@ == csv_safe_spec(value@),
{
    let v = chars_of(value);
    let mut out: Vec<char> = Vec::new();
    let mut i: usize = 0;
    while i < v.len()
        invariant
            i <= v@.len(),
            v@ == value@,
            out@ == csv_safe_spec(v@.take(i as int)),
        decreases v@.len() - i,
    {
        let c = v[i];
        out.push(if c == '\r' || c == '\n' || c == ';' { ' ' } else { c });
        i += 1;
        assert(out@ =~= csv_safe_spec(v@.take(i as int)));
    }
    assert(v@.take(v@.len() as int) == v@);
    crate::text::string_of(&out)
}

/// One history row.
pub open spec fn row_text(
    timestamp: Seq<char>,
    action: Seq<char>,
    trigger: Seq<char>,
    session_id: Seq<char>,
) -> Seq<char> {
    csv_safe_spec(timestamp) + ";"@ + csv_safe_spec(action) + ";"@ + csv_safe_spec(trigger) + ";"@
        + csv_safe_spec(session_id)
}

pub fn history_row(timestamp: &str, action: &str, trigger: &str, session_id: &str) -> (r: String)
    ensures
        r@ == row_text(timestamp@, action@, trigger@, session_id@),
{
    let mut s = csv_safe(timestamp);
    push_str(&mut s, ";");
    let a = csv_safe(action);
    push_str(&mut s, a.as_str());
    push_str(&mut s, ";");
    let t = csv_safe(trigger);
    push_str(&mut s, t.as_str());
    push_str(&mut s, ";");
    let i = csv_safe(session_id);
    push_str(&mut s, i.as_str());
    s
}

/// The rows of a history file: its lines after the header, blank ones left
/// out.
pub open spec fn rows_of(contents: Seq<char>) -> Seq<Seq<char>> {
    let ls = lines(contents);
    if ls.len() == 0 {
        Seq::empty()
    } else {
        ls.skip(1).filter(|l: Seq<char>| trim(l).len() > 0)
    }
}

pub fn history_rows(contents: &str) -> (r: Vec<String>)
    ensures
        strings_view(r@) == rows_of(contents@),
{
    let v = chars_of(contents);
    let ls = split_lines(&v);
    let ghost lv = views(ls@);
    let mut out: Vec<String> = Vec::new();
    if ls.len() == 0 {
        assert(strings_view(out@) =~= Seq::<Seq<char>>::empty());
        return out;
    }
    let mut i: usize = 1;
    while i < ls.len()
        invariant
            1 <= i <= ls@.len(),
            lv == views(ls@),
            lv == lines(contents@),
            strings_view(out@) == lv.subrange(1, i as int).filter(
                |l: Seq<char>| trim(l).len() > 0,
            ),
        decreases ls@.len() - i,
    {
        assert(lv[i as int] == ls@[i as int]@);
        let t = trimmed(&ls[i]);
        let ghost before = lv.subrange(1, i as int);
        assert(lv.subrange(1, i + 1) == before.push(lv[i as int]));
        proof {
            lemma_filter_push(before, lv[i as int]);
        }
        if t.len() > 0 {
            let line = crate::text::string_of(&ls[i]);
            out.push(line);
            assert(strings_view(out@) =~= strings_view(out@.drop_last()).push(line@));
        }
        i += 1;
    }
    assert(lv.subrange(1, lv.len() as int) == lv.skip(1));
    assert(lv.subrange(1, 1) =~= Seq::<Seq<char>>::empty());
    out
}

proof fn lemma_filter_push(s: Seq<Seq<char>>, x: Seq<char>)
    ensures
        s.push(x).filter(|l: Seq<char>| trim(l).len() > 0) == (if trim(x).len() > 0 {
            s.filter(|l: Seq<char>| trim(l).len() > 0).push(x)
        } else {
            s.filter(|l: Seq<char>| trim(l).len() > 0)
        }),
{
    reveal(Seq::filter);
    assert(s.push(x).drop_last() == s);
}

/// The character views of a sequence of strings.
pub open spec fn strings_view(v: Seq<String>) -> Seq<Seq<char>> {
    Seq::new(v.len(), |i: int| v[i]@)
}

/// The rows after one more is appended: the oldest rows go so that, with the
/// new row last, at most `HISTORY_LIMIT` remain.
pub open spec fn appended_rows(rows: Seq<Seq<char>>, row: Seq<char>) -> Seq<Seq<char>> {
    if rows.len() >= HISTORY_LIMIT {
        rows.skip(rows.len() - (HISTORY_LIMIT - 1)).push(row)
    } else {
        rows.push(row)
    }
}

/// Appends a row, dropping the oldest rows beyond the limit.
pub fn append_row(rows: &mut Vec<String>, row: String)
    ensures
        strings_view(final(rows)@) == appended_rows(strings_view(old(rows)@), row@),
{
    let ghost start = strings_view(rows@);
    if rows.len() >= HISTORY_LIMIT {
        let drop = rows.len() - (HISTORY_LIMIT - 1);
        let mut kept: Vec<String> = Vec::new();
        let mut i = drop;
        while i < rows.len()
            invariant
                drop <= i <= rows@.len(),
                strings_view(rows@) == start,
                strings_view(kept@) == start.subrange(drop as int, i as int),
            decreases rows@.len() - i,
        {
            let r = copy_string(&rows[i]);
            assert(start[i as int] == rows@[i as int]@);
            let ghost kv = strings_view(kept@);
            kept.push(r);
            assert(strings_view(kept@) =~= kv.push(r@));
            assert(start.subrange(drop as int, i + 1) =~= start.subrange(drop as int, i as int).push(
                start[i as int],
            ));
            i += 1;
        }
        *rows = kept;
        assert(start.subrange(drop as int, start.len() as int) == start.skip(drop as int));
    }
    let ghost mid = strings_view(rows@);
    rows.push(row);
    assert(strings_view(rows@) =~= mid.push(row@));
}

fn copy_string(s: &String) -> (r: String)
    ensures
        r@ == s@,
{
    let mut r = String::new();
    push_str(&mut r, s.as_str());
    r
}

/// The history never holds more than `HISTORY_LIMIT` rows, the new row is the
/// last one, and the rows before it are the most recent earlier ones in
/// their order.
pub proof fn lemma_history_rotation(rows: Seq<Seq<char>>, row: Seq<char>)
    requires
        rows.len() <= HISTORY_LIMIT,
    ensures
        appended_rows(rows, row).len() <= HISTORY_LIMIT,
        appended_rows(rows, row).last() == row,
        appended_rows(rows, row).drop_last() == rows.skip(
            rows.len() - (appended_rows(rows, row).len() - 1),
        ),
{
    let r = appended_rows(rows, row);
    if rows.len() >= HISTORY_LIMIT {
        assert(r.drop_last() == rows.skip(rows.len() - (HISTORY_LIMIT - 1)));
    } else {
        assert(r.drop_last() == rows);
        assert(rows.skip(0) == rows);
    }
}

/// The text of a history file with the given rows.
pub open spec fn history_text(rows: Seq<Seq<char>>) -> Seq<char> {
    history_header() + "\n"@ + if rows.len() == 0 {
        Seq::empty()
    } else {
        joined_lines(rows) + "\n"@
    }
}

/// Rows joined with line feeds.
pub open spec fn joined_lines(rows: Seq<Seq<char>>) -> Seq<char>
    decreases rows.len(),
{
    if rows.len() == 0 {
        Seq::empty()
    } else if rows.len() == 1 {
        rows[0]
    } else {
        joined_lines(rows.drop_last()) + "\n"@ + rows.last()
    }
}

pub fn history_contents(rows: &Vec<String>) -> (r: String)
    ensures
        r@ == history_text(strings_view(rows@)),
{
    let ghost rv = strings_view(rows@);
    let mut s = String::new();
    push_str(&mut s, "Datum und Uhrzeit;Aktion;Auslöser;Lauf-ID");
    push_str(&mut s, "\n");
    let ghost head = s@;
    if rows.len() == 0 {
        return s;
    }
    let mut i: usize = 0;
    while i < rows.len()
        invariant
            i <= rows@.len(),
            rows@.len() > 0,
            rv == strings_view(rows@),
            s@ == head + joined_lines(rv.take(i as int)),
        decreases rows@.len() - i,
    {
        if i > 0 {
            push_str(&mut s, "\n");
        }
        push_str(&mut s, rows[i].as_str());
        proof {
            let t = rv.take(i + 1);
            assert(t.drop_last() == rv.take(i as int));
            assert(t.last() == rows@[i as int]@);
            if i == 0 {
                assert(joined_lines(rv.take(0)) == Seq::<char>::empty());
            }
        }
        i += 1;
    }
    assert(rv.take(rows@.len() as int) == rv);
    push_str(&mut s, "\n");
    s
}

/// The last non-blank line of a file's contents.
pub open spec fn tail_of(contents: Seq<char>) -> Option<Seq<char>> {
    let ls = lines(contents);
    if exists|i: int| 0 <= i < ls.len() && trim(#[trigger] ls[i]).len() > 0 {
        let i = choose|i: int|
            0 <= i < ls.len() && trim(#[trigger] ls[i]).len() > 0 && forall|j: int|
                i < j < ls.len() ==> trim(#[trigger] ls[j]).len() == 0;
        Some(ls[i])
    } else {
        None
    }
}

pub fn read_tail(contents: &str) -> (r: Option<String>)
    ensures
        match r {
            Some(t) => tail_of(contents@) == Some(t@),
            None => tail_of(contents@) is None,
        },
{
    let v = chars_of(contents);
    let ls = split_lines(&v);
    let ghost lv = views(ls@);
    let mut i = ls.len();
    while i > 0
        invariant
            i <= ls@.len(),
            lv == views(ls@),
            lv == lines(contents@),
            forall|j: int| i <= j < ls@.len() ==> trim(#[trigger] lv[j]).len() == 0,
        decreases i,
    {
        assert(lv[i - 1] == ls@[i - 1]@);
        let t = trimmed(&ls[i - 1]);
        if t.len() > 0 {
            proof {
                let k = (i - 1) as int;
                assert(0 <= k < lv.len() && trim(lv[k]).len() > 0 && forall|j: int|
                    k < j < lv.len() ==> trim(#[trigger] lv[j]).len() == 0);
                let c = choose|c: int|
                    0 <= c < lv.len() && trim(#[trigger] lv[c]).len() > 0 && forall|j: int|
                        c < j < lv.len() ==> trim(#[trigger] lv[j]).len() == 0;
                if c < k {
                    assert(trim(lv[k]).len() == 0);
                } else if c > k {
                    assert(trim(lv[c]).len() == 0);
                }
            }
            return Some(crate::text::string_of(&ls[i - 1]));
        }
        i -= 1;
    }
    None
}

/// The state of the two history files that an expected exit is checked
/// against: `None` when neither has a line.
pub open spec fn tail_text(completion: Option<Seq<char>>, cancellation: Option<Seq<char>>) -> Option<
    Seq<char>,
> {
    if completion is None && cancellation is None {
        None
    } else {
        Some(
            "completion="@ + (match completion {
                Some(c) => c,
                None => Seq::empty(),
            }) + ";cancellation="@ + (match cancellation {
                Some(c) => c,
                None => Seq::empty(),
            }),
        )
    }
}

pub fn history_tail(completion: Option<String>, cancellation: Option<String>) -> (r: Option<String>)
    ensures
        match r {
            Some(t) => tail_text(
                match completion {
                    Some(c) => Some(c@),
                    None => None,
                },
                match cancellation {
                    Some(c) => Some(c@),
                    None => None,
                },
            ) == Some(t@),
            None => completion is None && cancellation is None,
        },
{
    if completion.is_none() && cancellation.is_none() {
        return None;
    }
    let mut s = String::new();
    push_str(&mut s, "completion=");
    if let Some(c) = &completion {
        push_str(&mut s, c.as_str());
    }
    push_str(&mut s, ";cancellation=");
    if let Some(c) = &cancellation {
        push_str(&mut s, c.as_str());
    }
    Some(s)
}

/// What the tray app keeps about its running session.
#[derive(Clone, Debug)]
pub struct SessionMarker {
    pub session_id: String,
    pub started_at: String,
    pub expected_exit: bool,
    pub expected_history_tail: Option<String>,
}

/// Marks whether the coming exit is expected (a power action is due); an
/// expected exit remembers the history's state, so a new line in it shows
/// that the power action was carried out.
pub fn set_expected_exit(marker: &mut SessionMarker, expected: bool, current_tail: Option<String>)
    ensures
        final(marker).session_id == old(marker).session_id,
        final(marker).started_at == old(marker).started_at,
        final(marker).expected_exit == expected,
        expected ==> final(marker).expected_history_tail == current_tail,
        !expected ==> final(marker).expected_history_tail is None,
{
    marker.expected_exit = expected;
    marker.expected_history_tail = if expected {
        current_tail
    } else {
        None
    };
}

/// Whether the previous session ended without a clean exit: unless its exit
/// was expected and the history has changed since (the power action was
/// logged), the next start records an unexpected end.
pub fn previous_exit_was_unexpected(previous: &SessionMarker, current_tail: &Option<String>) -> (r:
    bool)
    ensures
        r == !(previous.expected_exit && !same_text(previous.expected_history_tail, *current_tail)),
{
    if !previous.expected_exit {
        return true;
    }
    let same = match (&previous.expected_history_tail, current_tail) {
        (Some(a), Some(b)) => {
            let av = chars_of(a.as_str());
            crate::text::eq_str(&av, b.as_str())
        },
        (None, None) => true,
        _ => false,
    };
    same
}

/// Two optional texts are equal.
pub open spec fn same_text(a: Option<String>, b: Option<String>) -> bool {
    match (a, b) {
        (Some(x), Some(y)) => x@ == y@,
        (None, None) => true,
        _ => false,
    }
}

/// Action text of an unexpected end.
pub fn unexpected_exit_action() -> (r: &'static str)
    ensures
        r@ == "Tray-App unplanmäßig beendet"@,
{
    "Tray-App unplanmäßig beendet"
}

/// Trigger text of an unexpected end.
pub fn unexpected_exit_trigger() -> (r: &'static str)
    ensures
        r@ == "Vorherige Sitzung ohne sauberes Ende"@,
{
    "Vorherige Sitzung ohne sauberes Ende"
}

/// `YYYY-MM-DD hh:mm:ss` of a local time.
pub open spec fn timestamp_text(year: u16, month: u16, day: u16, hour: u16, minute: u16, second: u16) -> Seq<
    char,
> {
    pad4(year as nat) + "-"@ + pad2(month as nat) + "-"@ + pad2(day as nat) + " "@ + pad2(
        hour as nat,
    ) + ":"@ + pad2(minute as nat) + ":"@ + pad2(second as nat)
}

pub fn format_timestamp(year: u16, month: u16, day: u16, hour: u16, minute: u16, second: u16) -> (r:
    String)
    ensures
        r@ == timestamp_text(year, month, day, hour, minute, second),
{
    let mut s = String::new();
    push_pad4(&mut s, year as u64);
    push_str(&mut s, "-");
    push_pad2(&mut s, month as u64);
    push_str(&mut s, "-");
    push_pad2(&mut s, day as u64);
    push_str(&mut s, " ");
    push_pad2(&mut s, hour as u64);
    push_str(&mut s, ":");
    push_pad2(&mut s, minute as u64);
    push_str(&mut s, ":");
    push_pad2(&mut s, second as u64);
    s
}

/// A time stamp without `-`, ` ` and `:`.
pub open spec fn compact_spec(s: Seq<char>) -> Seq<char> {
    s.filter(|c: char| c != '-' && c != ' ' && c != ':')
}

pub fn compact_timestamp(timestamp: &str) -> (r: String)
    ensures
        r@ == compact_spec(timestamp@),
{
    let v = chars_of(timestamp);
    let mut out: Vec<char> = Vec::new();
    let mut i: usize = 0;
    while i < v.len()
        invariant
            i <= v@.len(),
            v@ == timestamp@,
            out@ == compact_spec(v@.take(i as int)),
        decreases v@.len() - i,
    {
        let c = v[i];
        proof {
            reveal(Seq::filter);
            assert(v@.take(i + 1).drop_last() == v@.take(i as int));
        }
        if c != '-' && c != ' ' && c != ':' {
            out.push(c);
        }
        i += 1;
    }
    assert(v@.take(v@.len() as int) == v@);
    crate::text::string_of(&out)
}

/// The id of a tray session: `tray-`, the compact start time and the
/// process id.
pub fn session_id(compact_start: &str, pid: u32) -> (r: String)
    ensures
        r@ == "tray-"@ + compact_start@ + "-"@ + dec(pid as nat),
{
    let mut s = String::new();
    push_str(&mut s, "tray-");
    push_str(&mut s, compact_start);
    push_str(&mut s, "-");
    push_dec(&mut s, pid as u64);
    s
}

} // verus!
