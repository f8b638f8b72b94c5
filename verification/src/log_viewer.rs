//! The completion log as the log window shows it: rows read from the history
//! files, split into power actions and tray diagnostics, newest first, and
//! the texts of its table.
use crate::language::Language;
use crate::quota::lang;
use crate::text::{
    chars_of, contains, contains_seq, eq_str, push_chars, push_str, split_chars, split_lines,
    split_on, split_words, starts_with, string_of, lines, views, words,
};
use vstd::prelude::*;

verus! {

/// One row of a history file.
#[derive(Clone, Debug)]
pub struct LogEntry {
    pub timestamp: String,
    pub action: String,
    pub trigger: String,
    pub run_id: String,
}

/// The texts of an entry.
pub open spec fn entry_view(e: LogEntry) -> (Seq<char>, Seq<char>, Seq<char>, Seq<char>) {
    (e.timestamp@, e.action@, e.trigger@, e.run_id@)
}

pub open spec fn entries_view(v: Seq<LogEntry>) -> Seq<(Seq<char>, Seq<char>, Seq<char>, Seq<char>)> {
    Seq::new(v.len(), |i: int| entry_view(v[i]))
}

/// The entry that a line holds: its first four `;`-separated fields, or
/// `None` when it has fewer.
pub open spec fn entry_of_line(line: Seq<char>) -> Option<
    (Seq<char>, Seq<char>, Seq<char>, Seq<char>),
> {
    let f = split_on(line, ';');
    if f.len() >= 4 {
        Some((f[0], f[1], f[2], f[3]))
    } else {
        None
    }
}

/// The entries of lines `k..` of a file.
pub open spec fn entries_from(ls: Seq<Seq<char>>, k: int) -> Seq<
    (Seq<char>, Seq<char>, Seq<char>, Seq<char>),
>
    decreases ls.len() - k,
{
    if k < 0 || k >= ls.len() {
        Seq::empty()
    } else {
        match entry_of_line(ls[k]) {
            Some(e) => seq![e] + entries_from(ls, k + 1),
            None => entries_from(ls, k + 1),
        }
    }
}

/// The entries of a history file: every line after the header with at least
/// four fields.
pub open spec fn entries_of(text: Seq<char>) -> Seq<(Seq<char>, Seq<char>, Seq<char>, Seq<char>)> {
    entries_from(lines(text), 1)
}

proof fn lemma_entries_from_step(ls: Seq<Seq<char>>, k: int)
    requires
        0 <= k < ls.len(),
    ensures
        entries_from(ls, k) == (match entry_of_line(ls[k]) {
            Some(e) => seq![e] + entries_from(ls, k + 1),
            None => entries_from(ls, k + 1),
        }),
{
}

pub fn parse_log_entries(text: &str) -> (r: Vec<LogEntry>)
    ensures
        entries_view(r@) == entries_of(text@),
{
    let v = chars_of(text);
    let ls = split_lines(&v);
    let ghost lv = views(ls@);
    let mut out: Vec<LogEntry> = Vec::new();
    let mut k: usize = 1;
    if ls.len() == 0 {
        assert(entries_view(out@) =~= entries_of(text@));
        return out;
    }
    while k < ls.len()
        invariant
            1 <= k <= ls@.len(),
            lv == views(ls@),
            lv == lines(text@),
            entries_view(out@) + entries_from(lv, k as int) == entries_of(text@),
        decreases ls@.len() - k,
    {
        assert(lv[k as int] == ls@[k as int]@);
        proof {
            lemma_entries_from_step(lv, k as int);
        }
        let fields = split_chars(&ls[k], ';');
        let ghost fv = views(fields@);
        if fields.len() >= 4 {
            assert(fv[0] == fields@[0]@ && fv[1] == fields@[1]@ && fv[2] == fields@[2]@ && fv[3]
                == fields@[3]@);
            let entry = LogEntry {
                timestamp: string_of(&fields[0]),
                action: string_of(&fields[1]),
                trigger: string_of(&fields[2]),
                run_id: string_of(&fields[3]),
            };
            let ghost before = entries_view(out@);
            out.push(entry);
            assert(entries_view(out@) =~= before.push(
                (fv[0], fv[1], fv[2], fv[3]),
            ));
            assert(before.push((fv[0], fv[1], fv[2], fv[3])) + entries_from(lv, k + 1) =~= before
                + (seq![(fv[0], fv[1], fv[2], fv[3])] + entries_from(lv, k + 1)));
        }
        k += 1;
    }
    assert(entries_from(lv, k as int) =~= Seq::empty());
    assert(entries_view(out@) + Seq::empty() =~= entries_view(out@));
    out
}

/// Entries about the tray app itself rather than a power action.
pub open spec fn tray_entry(action: Seq<char>, trigger: Seq<char>) -> bool {
    contains_seq(action, "Tray-App"@) || contains_seq(action, "Tray app"@) || contains_seq(
        trigger,
        "Vorherige Sitzung"@,
    ) || contains_seq(trigger, "Previous session"@)
}

pub fn is_tray_entry(entry: &LogEntry) -> (r: bool)
    ensures
        r == tray_entry(entry.action@, entry.trigger@),
{
    let a = chars_of(entry.action.as_str());
    let t = chars_of(entry.trigger.as_str());
    contains(&a, "Tray-App") || contains(&a, "Tray app") || contains(&t, "Vorherige Sitzung")
        || contains(&t, "Previous session")
}

/// Title of the log window.
pub fn log_title(language: Language) -> (r: &'static str)
    ensures
        r@ == lang(
            language,
            "Herdr-Nachtwächter - Abschlussprotokoll"@,
            "Herdr Night Watch - Completion Log"@,
        ),
{
    language.text("Herdr-Nachtwächter - Abschlussprotokoll", "Herdr Night Watch - Completion Log")
}

// ---------------------------------------------------------------------------
// Newest first
// ---------------------------------------------------------------------------

/// Order of texts by their characters (the order of `String`'s `cmp`, since
/// UTF-8 keeps the order of code points).
pub open spec fn text_less(a: Seq<char>, b: Seq<char>) -> bool
    decreases a.len(),
{
    if b.len() == 0 {
        false
    } else if a.len() == 0 {
        true
    } else if a[0] != b[0] {
        a[0] < b[0]
    } else {
        text_less(a.drop_first(), b.drop_first())
    }
}

/// The order of texts is transitive.
pub proof fn lemma_text_less_transitive(a: Seq<char>, b: Seq<char>, c: Seq<char>)
    requires
        text_less(a, b),
        text_less(b, c),
    ensures
        text_less(a, c),
    decreases a.len(),
{
    if a.len() > 0 && b.len() > 0 && c.len() > 0 && a[0] == b[0] && b[0] == c[0] {
        lemma_text_less_transitive(a.drop_first(), b.drop_first(), c.drop_first());
    }
}

/// No text comes before itself.
pub proof fn lemma_text_less_irreflexive(a: Seq<char>)
    ensures
        !text_less(a, a),
    decreases a.len(),
{
    if a.len() > 0 {
        lemma_text_less_irreflexive(a.drop_first());
    }
}

fn less_text(a: &[char], b: &[char]) -> (r: bool)
    ensures
        r == text_less(a@, b@),
{
    let mut i: usize = 0;
    assert(a@.skip(0) == a@);
    assert(b@.skip(0) == b@);
    while i < a.len() && i < b.len() && a[i] == b[i]
        invariant
            i <= a@.len(),
            i <= b@.len(),
            text_less(a@, b@) == text_less(a@.skip(i as int), b@.skip(i as int)),
        decreases a@.len() - i,
    {
        assert(a@.skip(i as int).drop_first() == a@.skip(i + 1));
        assert(b@.skip(i as int).drop_first() == b@.skip(i + 1));
        i += 1;
    }
    assert(i < b@.len() ==> b@.skip(i as int)[0] == b@[i as int]);
    assert(i < a@.len() ==> a@.skip(i as int)[0] == a@[i as int]);
    if i >= b.len() {
        false
    } else if i >= a.len() {
        true
    } else {
        a[i] < b[i]
    }
}

/// Entries are newest first: no entry has an older time stamp than one
/// after it.
pub open spec fn newest_first(v: Seq<(Seq<char>, Seq<char>, Seq<char>, Seq<char>)>) -> bool {
    forall|i: int, j: int| 0 <= i < j < v.len() ==> !text_less(#[trigger] v[i].0, #[trigger] v[j].0)
}

/// How many entries the log window shows per section.
pub const LOG_ENTRY_LIMIT: usize = 30;

/// Inserting an entry before the first older one keeps entries newest first.
proof fn lemma_insert_newest_first(
    s: Seq<(Seq<char>, Seq<char>, Seq<char>, Seq<char>)>,
    p: int,
    x: (Seq<char>, Seq<char>, Seq<char>, Seq<char>),
)
    requires
        newest_first(s),
        0 <= p <= s.len(),
        forall|i: int| 0 <= i < p ==> !text_less(#[trigger] s[i].0, x.0),
        p < s.len() ==> text_less(s[p].0, x.0),
    ensures
        newest_first(s.insert(p, x)),
{
    let t = s.insert(p, x);
    assert forall|i: int, j: int| 0 <= i < j < t.len() implies !text_less(
        #[trigger] t[i].0,
        #[trigger] t[j].0,
    ) by {
        if j < p {
            assert(t[i] == s[i] && t[j] == s[j]);
        } else if j == p {
            assert(t[i] == s[i] && t[j] == x);
        } else if i < p {
            assert(t[i] == s[i] && t[j] == s[j - 1]);
        } else if i == p {
            assert(t[i] == x && t[j] == s[j - 1]);
            if text_less(x.0, s[j - 1].0) {
                lemma_text_less_transitive(s[p].0, x.0, s[j - 1].0);
                if p == j - 1 {
                    lemma_text_less_irreflexive(s[p].0);
                }
            }
        } else {
            assert(t[i] == s[i - 1] && t[j] == s[j - 1]);
        }
    }
}

/// A copy of an entry.
fn copy_entry(e: &LogEntry) -> (r: LogEntry)
    ensures
        entry_view(r) == entry_view(*e),
{
    let mut timestamp = String::new();
    push_str(&mut timestamp, e.timestamp.as_str());
    let mut action = String::new();
    push_str(&mut action, e.action.as_str());
    let mut trigger = String::new();
    push_str(&mut trigger, e.trigger.as_str());
    let mut run_id = String::new();
    push_str(&mut run_id, e.run_id.as_str());
    LogEntry { timestamp, action, trigger, run_id }
}

/// Sorts entries newest first and keeps the newest `LOG_ENTRY_LIMIT`: the
/// result is ordered, holds entries of the input only (each at most as often
/// as there), and no entry left out is newer than one kept.
#[verifier::spinoff_prover]
#[verifier::rlimit(30)]
pub fn newest_entries(entries: &Vec<LogEntry>) -> (r: Vec<LogEntry>)
    ensures
        newest_first(entries_view(r@)),
        r@.len() == if entries@.len() < LOG_ENTRY_LIMIT {
            entries@.len()
        } else {
            LOG_ENTRY_LIMIT as nat
        },
        entries_view(r@).to_multiset().subset_of(entries_view(entries@).to_multiset()),
        forall|x: (Seq<char>, Seq<char>, Seq<char>, Seq<char>), k: int|
            #![trigger entries_view(entries@).to_multiset().count(x), entries_view(r@)[k]]
            entries_view(entries@).to_multiset().count(x) > entries_view(r@).to_multiset().count(x)
                && 0 <= k < r@.len() ==> !text_less(entries_view(r@)[k].0, x.0),
{
    broadcast use vstd::seq_lib::group_to_multiset_ensures;

    let mut sorted: Vec<LogEntry> = Vec::new();
    let mut i: usize = 0;
    let ghost input = entries_view(entries@);
    while i < entries.len()
        invariant
            i <= entries@.len(),
            input == entries_view(entries@),
            newest_first(entries_view(sorted@)),
            entries_view(sorted@).to_multiset() == input.take(i as int).to_multiset(),
        decreases entries@.len() - i,
    {
        let e = copy_entry(&entries[i]);
        let ets = chars_of(e.timestamp.as_str());
        let ghost sv = entries_view(sorted@);
        let mut p: usize = 0;
        while p < sorted.len() && !less_text(&chars_of(sorted[p].timestamp.as_str()), &ets)
            invariant
                p <= sorted@.len(),
                sv == entries_view(sorted@),
                ets@ == e.timestamp@,
                forall|k: int| 0 <= k < p ==> !text_less(#[trigger] sv[k].0, ets@),
            decreases sorted@.len() - p,
        {
            assert(sv[p as int].0 == sorted@[p as int].timestamp@);
            p += 1;
        }
        proof {
            if p < sorted@.len() {
                assert(sv[p as int].0 == sorted@[p as int].timestamp@);
            }
            lemma_insert_newest_first(sv, p as int, entry_view(e));
            assert(input.take(i + 1) == input.take(i as int).push(input[i as int]));
            assert(input[i as int] == entry_view(e));
        }
        sorted.insert(p, e);
        assert(entries_view(sorted@) =~= sv.insert(p as int, entry_view(e)));
        proof {
            vstd::seq_lib::to_multiset_insert(sv, p as int, entry_view(e));
            vstd::seq_lib::to_multiset_build(input.take(i as int), input[i as int]);
        }
        assert(sv.insert(p as int, entry_view(e)).to_multiset() == sv.to_multiset().insert(
            entry_view(e),
        ));
        assert(input.take(i as int).push(input[i as int]).to_multiset() == input.take(
            i as int,
        ).to_multiset().insert(input[i as int]));
        i += 1;
    }
    assert(input.take(entries@.len() as int) == input);
    let ghost full = entries_view(sorted@);
    assert(full.to_multiset().len() == input.to_multiset().len());
    assert(full.len() == input.len());
    sorted.truncate(LOG_ENTRY_LIMIT);
    let ghost kept = entries_view(sorted@);
    proof {
        let n = kept.len() as int;
        assert(kept == full.take(n));
        let dropped = full.skip(n);
        assert(full == kept + dropped);
        vstd::seq_lib::lemma_multiset_commutative(kept, dropped);
        assert forall|x: (Seq<char>, Seq<char>, Seq<char>, Seq<char>), k: int|
            #![trigger input.to_multiset().count(x), kept[k]]
            input.to_multiset().count(x) > kept.to_multiset().count(x) && 0 <= k < n implies !text_less(
            kept[k].0,
            x.0,
        ) by {
            assert(dropped.to_multiset().count(x) > 0);
            assert(dropped.contains(x));
            let j = choose|j: int| 0 <= j < dropped.len() && dropped[j] == x;
            assert(full[n + j] == x);
            assert(full[k] == kept[k]);
        }
    }
    sorted
}

/// The two sections of the log window: power actions, and the tray's own
/// diagnostics. Rows of the tray app that older versions wrote into the
/// completion history go to the tray section.
pub fn split_sections(completion: &Vec<LogEntry>, tray: &Vec<LogEntry>) -> (r: (
    Vec<LogEntry>,
    Vec<LogEntry>,
))
    ensures
        entries_view(r.0@) == entries_view(completion@).filter(
            |e: (Seq<char>, Seq<char>, Seq<char>, Seq<char>)| !tray_entry(e.1, e.2),
        ),
        entries_view(r.1@) == entries_view(tray@) + entries_view(completion@).filter(
            |e: (Seq<char>, Seq<char>, Seq<char>, Seq<char>)| tray_entry(e.1, e.2),
        ),
{
    let ghost cv = entries_view(completion@);
    let mut energy: Vec<LogEntry> = Vec::new();
    let mut tray_out: Vec<LogEntry> = Vec::new();
    let mut k: usize = 0;
    while k < tray.len()
        invariant
            k <= tray@.len(),
            entries_view(tray_out@) == entries_view(tray@).take(k as int),
        decreases tray@.len() - k,
    {
        let e = copy_entry(&tray[k]);
        let ghost before = entries_view(tray_out@);
        tray_out.push(e);
        assert(entries_view(tray_out@) =~= before.push(entry_view(e)));
        assert(entries_view(tray@).take(k + 1) =~= entries_view(tray@).take(k as int).push(
            entries_view(tray@)[k as int],
        ));
        k += 1;
    }
    assert(entries_view(tray@).take(tray@.len() as int) == entries_view(tray@));
    let ghost tray_part = entries_view(tray_out@);
    let mut i: usize = 0;
    while i < completion.len()
        invariant
            i <= completion@.len(),
            cv == entries_view(completion@),
            entries_view(energy@) == cv.take(i as int).filter(
                |e: (Seq<char>, Seq<char>, Seq<char>, Seq<char>)| !tray_entry(e.1, e.2),
            ),
            entries_view(tray_out@) == tray_part + cv.take(i as int).filter(
                |e: (Seq<char>, Seq<char>, Seq<char>, Seq<char>)| tray_entry(e.1, e.2),
            ),
        decreases completion@.len() - i,
    {
        let e = copy_entry(&completion[i]);
        let is_tray = is_tray_entry(&e);
        proof {
            reveal(Seq::filter);
            assert(cv.take(i + 1).drop_last() == cv.take(i as int));
            assert(cv.take(i + 1).last() == entry_view(e));
        }
        if is_tray {
            let ghost before = entries_view(tray_out@);
            tray_out.push(e);
            assert(entries_view(tray_out@) =~= before.push(entry_view(e)));
        } else {
            let ghost before = entries_view(energy@);
            energy.push(e);
            assert(entries_view(energy@) =~= before.push(entry_view(e)));
        }
        i += 1;
    }
    assert(cv.take(completion@.len() as int) == cv);
    (energy, tray_out)
}


// ---------------------------------------------------------------------------
// Table texts
// ---------------------------------------------------------------------------

/// `{:0>2}`: a text padded with zeros on the left to two characters.
pub open spec fn zero_pad2(s: Seq<char>) -> Seq<char> {
    if s.len() == 0 {
        "00"@
    } else if s.len() == 1 {
        seq!['0'] + s
    } else {
        s
    }
}

fn push_zero_pad2(out: &mut String, s: &[char])
    ensures
        final(out)@ == old(out)@ + zero_pad2(s@),
{
    proof {
        reveal_strlit("00");
    }
    if s.len() == 0 {
        push_str(out, "00");
    } else {
        if s.len() == 1 {
            crate::text::push_char(out, '0');
        }
        push_chars(out, s);
    }
}

/// Date and time columns of a time stamp `YYYY-MM-DD hh:mm:ss`: the date as
/// `DD.MM.YYYY` (German) or `MM/DD/YYYY` (English) when it has three parts,
/// as it is otherwise.
pub open spec fn date_time_texts(timestamp: Seq<char>, language: Language) -> (Seq<char>, Seq<char>) {
    let w = words(timestamp);
    let date = if w.len() > 0 {
        w[0]
    } else {
        Seq::empty()
    };
    let time = if w.len() > 1 {
        w[1]
    } else {
        Seq::empty()
    };
    let parts = split_on(date, '-');
    (
        if parts.len() == 3 {
            match language {
                Language::German => zero_pad2(parts[2]) + "."@ + zero_pad2(parts[1]) + "."@
                    + parts[0],
                Language::English => zero_pad2(parts[1]) + "/"@ + zero_pad2(parts[2]) + "/"@
                    + parts[0],
            }
        } else {
            date
        },
        time,
    )
}

pub fn display_date_time(timestamp: &str, language: Language) -> (r: (String, String))
    ensures
        r.0@ == date_time_texts(timestamp@, language).0,
        r.1@ == date_time_texts(timestamp@, language).1,
{
    let v = chars_of(timestamp);
    let w = split_words(&v);
    let ghost wv = views(w@);
    let date: Vec<char> = if w.len() > 0 {
        assert(wv[0] == w@[0]@);
        crate::text::subvec(&w[0], 0, w[0].len())
    } else {
        Vec::new()
    };
    let time = if w.len() > 1 {
        assert(wv[1] == w@[1]@);
        string_of(&w[1])
    } else {
        String::new()
    };
    proof {
        if w.len() > 0 {
            assert(w@[0]@.subrange(0, w@[0]@.len() as int) == w@[0]@);
        }
    }
    let parts = split_chars(&date, '-');
    let ghost pv = views(parts@);
    let mut out = String::new();
    if parts.len() == 3 {
        assert(pv[0] == parts@[0]@ && pv[1] == parts@[1]@ && pv[2] == parts@[2]@);
        match language {
            Language::German => {
                push_zero_pad2(&mut out, &parts[2]);
                push_str(&mut out, ".");
                push_zero_pad2(&mut out, &parts[1]);
                push_str(&mut out, ".");
                push_chars(&mut out, &parts[0]);
            },
            Language::English => {
                push_zero_pad2(&mut out, &parts[1]);
                push_str(&mut out, "/");
                push_zero_pad2(&mut out, &parts[2]);
                push_str(&mut out, "/");
                push_chars(&mut out, &parts[0]);
            },
        }
    } else {
        push_chars(&mut out, &date);
    }
    (out, time)
}

pub open spec fn action_kind_text(action: Seq<char>, language: Language) -> Seq<char> {
    if action == "Energiesparmodus angefordert"@ {
        lang(language, "Energiesparmodus"@, "Sleep mode"@)
    } else if action == "Herunterfahren angefordert"@ {
        lang(language, "Herunterfahren"@, "Shutdown"@)
    } else if action == "Tray-App unplanmäßig beendet"@ {
        lang(language, "Tray-App"@, "Tray app"@)
    } else {
        action
    }
}

/// The kind of action of a logged row, in the window's language.
pub fn localized_action_kind<'a>(action: &'a str, language: Language) -> (r: &'a str)
    ensures
        r@ == action_kind_text(action@, language),
{
    let v = chars_of(action);
    if eq_str(&v, "Energiesparmodus angefordert") {
        language.text("Energiesparmodus", "Sleep mode")
    } else if eq_str(&v, "Herunterfahren angefordert") {
        language.text("Herunterfahren", "Shutdown")
    } else if eq_str(&v, "Tray-App unplanmäßig beendet") {
        language.text("Tray-App", "Tray app")
    } else {
        action
    }
}

pub open spec fn action_text(action: Seq<char>, language: Language) -> Seq<char> {
    if language == Language::English && action == "Energiesparmodus angefordert"@ {
        "Sleep requested"@
    } else if language == Language::English && action == "Herunterfahren angefordert"@ {
        "Shutdown requested"@
    } else if language == Language::English && action == "Tray-App unplanmäßig beendet"@ {
        "Tray app ended unexpectedly"@
    } else {
        action
    }
}

/// The actions that the tray and the watcher write into the logs.
pub open spec fn logged_action(action: Seq<char>) -> bool {
    action == "Energiesparmodus angefordert"@ || action == "Herunterfahren angefordert"@
        || action == "Tray-App unplanmäßig beendet"@
}

/// Logged actions keep apart in every language: two different logged
/// actions never read the same, neither as actions nor as kinds; and a
/// shutdown request and an unexpected tray end read as their kind followed by
/// more words (a shutdown request names the shutdown).
pub proof fn lemma_logged_actions_stay_apart(a: Seq<char>, b: Seq<char>, language: Language)
    requires
        logged_action(a),
        logged_action(b),
        a != b,
    ensures
        action_text(a, language) != action_text(b, language),
        action_kind_text(a, language) != action_kind_text(b, language),
        a != "Energiesparmodus angefordert"@ ==> starts_with(
            action_text(a, language),
            action_kind_text(a, language),
        ),
{
    reveal_strlit("Energiesparmodus angefordert");
    reveal_strlit("Herunterfahren angefordert");
    reveal_strlit("Tray-App unplanmäßig beendet");
    reveal_strlit("Sleep requested");
    reveal_strlit("Shutdown requested");
    reveal_strlit("Tray app ended unexpectedly");
    reveal_strlit("Energiesparmodus");
    reveal_strlit("Sleep mode");
    reveal_strlit("Herunterfahren");
    reveal_strlit("Shutdown");
    reveal_strlit("Tray-App");
    reveal_strlit("Tray app");
    let ka = action_kind_text(a, language);
    let ta = action_text(a, language);
    if a != "Energiesparmodus angefordert"@ {
        assert(ta.take(ka.len() as int) =~= ka);
    }
    if ka == action_kind_text(b, language) {
        assert(ka[0] == action_kind_text(b, language)[0]);
        assert(ka[ka.len() - 1] == action_kind_text(b, language)[ka.len() - 1]);
    }
    if ta == action_text(b, language) {
        assert(ta[0] == action_text(b, language)[0]);
        assert(ta.len() == action_text(b, language).len());
    }
}

/// A logged action in the window's language (rows are written in German).
pub fn localized_action<'a>(action: &'a str, language: Language) -> (r: &'a str)
    ensures
        r@ == action_text(action@, language),
{
    if language == Language::German {
        return action;
    }
    let v = chars_of(action);
    if eq_str(&v, "Energiesparmodus angefordert") {
        "Sleep requested"
    } else if eq_str(&v, "Herunterfahren angefordert") {
        "Shutdown requested"
    } else if eq_str(&v, "Tray-App unplanmäßig beendet") {
        "Tray app ended unexpectedly"
    } else {
        action
    }
}

pub open spec fn trigger_text(trigger: Seq<char>, language: Language) -> Seq<char> {
    if language == Language::English && trigger == "Herdr-Agenten fertig"@ {
        "Herdr agents finished"@
    } else if language == Language::English && trigger == "Internet seit 5 Minuten nicht erreichbar"@ {
        "Internet unavailable for 5 minutes"@
    } else if language == Language::English && trigger == "Sofortbestätigung"@ {
        "Immediate confirmation"@
    } else if language == Language::English && trigger == "Vorherige Sitzung ohne sauberes Ende"@ {
        "Previous session had no clean exit"@
    } else {
        trigger
    }
}

/// A logged trigger in the window's language.
pub fn localized_trigger<'a>(trigger: &'a str, language: Language) -> (r: &'a str)
    ensures
        r@ == trigger_text(trigger@, language),
{
    if language == Language::German {
        return trigger;
    }
    let v = chars_of(trigger);
    if eq_str(&v, "Herdr-Agenten fertig") {
        "Herdr agents finished"
    } else if eq_str(&v, "Internet seit 5 Minuten nicht erreichbar") {
        "Internet unavailable for 5 minutes"
    } else if eq_str(&v, "Sofortbestätigung") {
        "Immediate confirmation"
    } else if eq_str(&v, "Vorherige Sitzung ohne sauberes Ende") {
        "Previous session had no clean exit"
    } else {
        trigger
    }
}

/// How a row's result is marked.
#[derive(Clone, Copy, Debug, PartialEq, Eq, Structural)]
pub enum ResultKind {
    /// Something failed or ended unexpectedly (a cross).
    Failure,
    /// A power action was requested (a check mark).
    PowerAction,
    /// Anything else (a dot).
    Other,
}

pub open spec fn result_kind_of(action: Seq<char>) -> ResultKind {
    if contains_seq(action, "unplanmäßig"@) || contains_seq(action, "unexpected"@) || contains_seq(
        action,
        "fehlgeschlagen"@,
    ) || contains_seq(action, "failed"@) {
        ResultKind::Failure
    } else if contains_seq(action, "Energiespar"@) || contains_seq(action, "Herunter"@)
        || contains_seq(action, "requested"@) || contains_seq(action, "angefordert"@) {
        ResultKind::PowerAction
    } else {
        ResultKind::Other
    }
}

pub fn result_kind(action: &str) -> (r: ResultKind)
    ensures
        r == result_kind_of(action@),
{
    let v = chars_of(action);
    if contains(&v, "unplanmäßig") || contains(&v, "unexpected") || contains(&v, "fehlgeschlagen")
        || contains(&v, "failed") {
        ResultKind::Failure
    } else if contains(&v, "Energiespar") || contains(&v, "Herunter") || contains(&v, "requested")
        || contains(&v, "angefordert") {
        ResultKind::PowerAction
    } else {
        ResultKind::Other
    }
}

impl ResultKind {
    /// The mark shown for the result.
    pub fn symbol(self) -> (r: &'static str)
        ensures
            r@ == (match self {
                ResultKind::Failure => "✕"@,
                ResultKind::PowerAction => "✓"@,
                ResultKind::Other => "•"@,
            }),
    {
        match self {
            ResultKind::Failure => "✕",
            ResultKind::PowerAction => "✓",
            ResultKind::Other => "•",
        }
    }
}

/// The tint of a row's action cell.
#[derive(Clone, Copy, Debug, PartialEq, Eq, Structural)]
pub enum ActionTone {
    /// Sleep (green).
    Sleep,
    /// Shutdown or an unexpected end (red).
    Alarm,
    /// Anything else (gray).
    Neutral,
}

pub fn action_tone(action: &str) -> (r: ActionTone)
    ensures
        r == (if contains_seq(action@, "Energiespar"@) || contains_seq(action@, "Sleep"@) {
            ActionTone::Sleep
        } else if contains_seq(action@, "Herunter"@) || contains_seq(action@, "Shutdown"@)
            || contains_seq(action@, "unplanmäßig"@) || contains_seq(action@, "unexpected"@) {
            ActionTone::Alarm
        } else {
            ActionTone::Neutral
        }),
{
    let v = chars_of(action);
    if contains(&v, "Energiespar") || contains(&v, "Sleep") {
        ActionTone::Sleep
    } else if contains(&v, "Herunter") || contains(&v, "Shutdown") || contains(&v, "unplanmäßig")
        || contains(&v, "unexpected") {
        ActionTone::Alarm
    } else {
        ActionTone::Neutral
    }
}

} // verus!
