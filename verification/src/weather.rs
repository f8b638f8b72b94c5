//! Weather for the live window's clock: the symbol of a weather report and
//! the requests sent to the weather service.
use crate::language::{Language, stored_text};
use crate::text::{chars_of, push_char, push_chars, push_str, trim, trimmed, utf8_char, utf8_of};
use vstd::prelude::*;

verus! {

/// The weather symbols that the clock can show.
#[derive(Clone, Copy, Debug, PartialEq, Eq, Structural)]
pub enum WeatherSymbol {
    ClearDay,
    ClearNight,
    PartlyCloudy,
    Overcast,
    Fog,
    Rain,
    Snow,
    Storm,
    Wind,
    Unknown,
}

/// The symbol of an Open-Meteo weather code, before wind is considered.
pub open spec fn code_symbol(code: u8, is_day: bool) -> WeatherSymbol {
    if code == 0 {
        if is_day {
            WeatherSymbol::ClearDay
        } else {
            WeatherSymbol::ClearNight
        }
    } else if code == 1 || code == 2 {
        WeatherSymbol::PartlyCloudy
    } else if code == 3 {
        WeatherSymbol::Overcast
    } else if code == 45 || code == 48 {
        WeatherSymbol::Fog
    } else if (51 <= code <= 67) || (80 <= code <= 82) {
        WeatherSymbol::Rain
    } else if (71 <= code <= 77) || code == 85 || code == 86 {
        WeatherSymbol::Snow
    } else if 95 <= code <= 99 {
        WeatherSymbol::Storm
    } else {
        WeatherSymbol::Unknown
    }
}

/// The symbol of a weather report. Strong wind (at least 35 km/h) replaces
/// only a clear or partly cloudy sky, never rain, snow or storm.
pub fn weather_symbol_for(weather_code: Option<u8>, is_day: bool, strong_wind: bool) -> (r:
    WeatherSymbol)
    ensures
        r == (match weather_code {
            None => WeatherSymbol::Unknown,
            Some(code) => {
                let s = code_symbol(code, is_day);
                if strong_wind && (s == WeatherSymbol::ClearDay || s == WeatherSymbol::ClearNight
                    || s == WeatherSymbol::PartlyCloudy) {
                    WeatherSymbol::Wind
                } else {
                    s
                }
            },
        }),
{
    let code = match weather_code {
        Some(c) => c,
        None => {
            return WeatherSymbol::Unknown;
        },
    };
    let symbol = if code == 0 {
        if is_day {
            WeatherSymbol::ClearDay
        } else {
            WeatherSymbol::ClearNight
        }
    } else if code == 1 || code == 2 {
        WeatherSymbol::PartlyCloudy
    } else if code == 3 {
        WeatherSymbol::Overcast
    } else if code == 45 || code == 48 {
        WeatherSymbol::Fog
    } else if (51 <= code && code <= 67) || (80 <= code && code <= 82) {
        WeatherSymbol::Rain
    } else if (71 <= code && code <= 77) || code == 85 || code == 86 {
        WeatherSymbol::Snow
    } else if 95 <= code && code <= 99 {
        WeatherSymbol::Storm
    } else {
        WeatherSymbol::Unknown
    };
    let clear = match symbol {
        WeatherSymbol::ClearDay | WeatherSymbol::ClearNight | WeatherSymbol::PartlyCloudy => true,
        _ => false,
    };
    if clear && strong_wind {
        WeatherSymbol::Wind
    } else {
        symbol
    }
}

/// Wind never hides precipitation or a storm.
pub proof fn lemma_wind_keeps_precipitation(code: u8, is_day: bool)
    requires
        code_symbol(code, is_day) == WeatherSymbol::Rain || code_symbol(code, is_day)
            == WeatherSymbol::Snow || code_symbol(code, is_day) == WeatherSymbol::Storm,
    ensures
        !(code_symbol(code, is_day) == WeatherSymbol::ClearDay || code_symbol(code, is_day)
            == WeatherSymbol::ClearNight || code_symbol(code, is_day)
            == WeatherSymbol::PartlyCloudy),
{
}

// ---------------------------------------------------------------------------
// Requests
// ---------------------------------------------------------------------------


/// An upper-case hexadecimal digit.
pub open spec fn hex_upper(n: u8) -> char {
    if n < 10 {
        ((48 + n) as u8) as char
    } else {
        ((55 + n) as u8) as char
    }
}

/// A byte in a URL query: unreserved characters stay, anything else is
/// `%` and two upper-case hexadecimal digits.
pub open spec fn encoded_byte(b: u8) -> Seq<char> {
    if (65 <= b <= 90) || (97 <= b <= 122) || (48 <= b <= 57) || b == 45 || b == 46 || b == 95
        || b == 126 {
        seq![(b as u8) as char]
    } else {
        seq!['%', hex_upper(b / 16), hex_upper(b % 16)]
    }
}

pub open spec fn percent_encoded(bytes: Seq<u8>) -> Seq<char>
    decreases bytes.len(),
{
    if bytes.len() == 0 {
        Seq::empty()
    } else {
        percent_encoded(bytes.drop_last()) + encoded_byte(bytes.last())
    }
}

proof fn lemma_percent_encoded_append(a: Seq<u8>, b: Seq<u8>)
    ensures
        percent_encoded(a + b) == percent_encoded(a) + percent_encoded(b),
    decreases b.len(),
{
    if b.len() == 0 {
        assert(a + b == a);
        assert(percent_encoded(a) + Seq::<char>::empty() == percent_encoded(a));
    } else {
        lemma_percent_encoded_append(a, b.drop_last());
        assert((a + b).drop_last() == a + b.drop_last());
        assert((a + b).last() == b.last());
    }
}

fn utf8_char_exec(c: char) -> (r: Vec<u8>)
    ensures
        r@ == utf8_char(c),
{
    let v = c as u32;
    if v < 0x80 {
        vec![v as u8]
    } else if v < 0x800 {
        vec![(0xC0 + v / 64) as u8, (0x80 + v % 64) as u8]
    } else if v < 0x10000 {
        vec![(0xE0 + v / 4096) as u8, (0x80 + (v / 64) % 64) as u8, (0x80 + v % 64) as u8]
    } else {
        vec![
            (0xF0 + v / 262144) as u8,
            (0x80 + (v / 4096) % 64) as u8,
            (0x80 + (v / 64) % 64) as u8,
            (0x80 + v % 64) as u8,
        ]
    }
}

fn hex_upper_exec(n: u8) -> (r: char)
    requires
        n < 16,
    ensures
        r == hex_upper(n),
{
    if n < 10 {
        (48 + n) as char
    } else {
        (55 + n) as char
    }
}

fn push_encoded_byte(out: &mut String, b: u8)
    ensures
        final(out)@ == old(out)@ + encoded_byte(b),
{
    if (65 <= b && b <= 90) || (97 <= b && b <= 122) || (48 <= b && b <= 57) || b == 45 || b == 46
        || b == 95 || b == 126 {
        push_char(out, b as char);
        assert(seq![(b as u8) as char] == seq![b as char]);
    } else {
        push_char(out, '%');
        push_char(out, hex_upper_exec(b / 16));
        push_char(out, hex_upper_exec(b % 16));
    }
}

/// A text as a URL query value: its UTF-8 bytes, each unreserved byte as it
/// is and every other one percent-encoded.
pub fn percent_encode(value: &str) -> (r: String)
    ensures
        r@ == percent_encoded(utf8_of(value@)),
{
    let v = chars_of(value);
    let mut out = String::new();
    let mut i: usize = 0;
    while i < v.len()
        invariant
            i <= v@.len(),
            v@ == value@,
            out@ == percent_encoded(utf8_of(v@.take(i as int))),
        decreases v@.len() - i,
    {
        let bytes = utf8_char_exec(v[i]);
        let ghost before = out@;
        let mut k: usize = 0;
        while k < bytes.len()
            invariant
                k <= bytes@.len(),
                out@ == before + percent_encoded(bytes@.take(k as int)),
            decreases bytes@.len() - k,
        {
            push_encoded_byte(&mut out, bytes[k]);
            assert(bytes@.take(k + 1).drop_last() == bytes@.take(k as int));
            k += 1;
        }
        proof {
            assert(bytes@.take(bytes@.len() as int) == bytes@);
            let t = v@.take(i + 1);
            assert(t.drop_last() == v@.take(i as int));
            assert(t.last() == v@[i as int]);
            lemma_percent_encoded_append(utf8_of(v@.take(i as int)), utf8_char(v@[i as int]));
        }
        i += 1;
    }
    assert(v@.take(v@.len() as int) == v@);
    out
}

/// The geocoding request for a search text: `None` when the trimmed text
/// has fewer than two bytes.
pub open spec fn search_url_of(query: Seq<char>, language: Language) -> Option<Seq<char>> {
    let q = trim(query);
    if utf8_of(q).len() < 2 {
        None
    } else {
        Some(
            "https://geocoding-api.open-meteo.com/v1/search?name="@ + percent_encoded(utf8_of(q))
                + "&count=8&language="@ + stored_text(language) + "&format=json"@,
        )
    }
}

pub fn location_search_url(query: &str, language: Language) -> (r: Option<String>)
    ensures
        match r {
            Some(u) => search_url_of(query@, language) == Some(u@),
            None => search_url_of(query@, language) is None,
        },
{
    let v = chars_of(query);
    let q = trimmed(&v);
    let qs = crate::text::string_of(&q);
    let encoded = percent_encode(qs.as_str());
    let byte_len = utf8_len(&q);
    if byte_len < 2 {
        return None;
    }
    let mut url = String::new();
    push_str(&mut url, "https://geocoding-api.open-meteo.com/v1/search?name=");
    push_str(&mut url, encoded.as_str());
    push_str(&mut url, "&count=8&language=");
    push_str(&mut url, language.setting_value());
    push_str(&mut url, "&format=json");
    Some(url)
}

fn utf8_len(v: &[char]) -> (r: usize)
    ensures
        r as nat == utf8_of(v@).len() || (r == 2 && utf8_of(v@).len() >= 2),
{
    let mut n: usize = 0;
    let mut i: usize = 0;
    while i < v.len() && n < 2
        invariant
            i <= v@.len(),
            n as nat == utf8_of(v@.take(i as int)).len(),
        decreases v@.len() - i,
    {
        let bytes = utf8_char_exec(v[i]);
        assert(v@.take(i + 1).drop_last() == v@.take(i as int));
        n = n + bytes.len();
        i += 1;
    }
    if i == v.len() {
        assert(v@.take(v@.len() as int) == v@);
        n
    } else {
        proof {
            lemma_utf8_prefix_len(v@, i as int);
        }
        2
    }
}

proof fn lemma_utf8_prefix_len(s: Seq<char>, i: int)
    requires
        0 <= i <= s.len(),
    ensures
        utf8_of(s.take(i)).len() <= utf8_of(s).len(),
    decreases s.len() - i,
{
    if i < s.len() {
        lemma_utf8_prefix_len(s, i + 1);
        assert(s.take(i + 1).drop_last() == s.take(i));
    } else {
        assert(s.take(i) == s);
    }
}

/// `s` with every `'` doubled, as a PowerShell single-quoted string needs.
pub open spec fn quote_doubled(s: Seq<char>) -> Seq<char>
    decreases s.len(),
{
    if s.len() == 0 {
        Seq::empty()
    } else {
        quote_doubled(s.drop_last()) + if s.last() == '\'' {
            seq!['\'', '\'']
        } else {
            seq![s.last()]
        }
    }
}

/// The PowerShell command that fetches a URL as compact JSON.
pub open spec fn fetch_script_text(url: Seq<char>) -> Seq<char> {
    "$ProgressPreference='SilentlyContinue'; $ErrorActionPreference='Stop'; "@
        + "(Invoke-RestMethod -UseBasicParsing -TimeoutSec 10 -Uri '"@ + quote_doubled(url)
        + "') | ConvertTo-Json -Depth 5 -Compress"@
}

pub fn fetch_script(url: &str) -> (r: String)
    ensures
        r@ == fetch_script_text(url@),
{
    let mut s = String::new();
    push_str(&mut s, "$ProgressPreference='SilentlyContinue'; $ErrorActionPreference='Stop'; ");
    push_str(&mut s, "(Invoke-RestMethod -UseBasicParsing -TimeoutSec 10 -Uri '");
    let v = chars_of(url);
    let ghost head = s@;
    let mut i: usize = 0;
    while i < v.len()
        invariant
            i <= v@.len(),
            v@ == url@,
            s@ == head + quote_doubled(v@.take(i as int)),
        decreases v@.len() - i,
    {
        if v[i] == '\'' {
            push_char(&mut s, '\'');
            push_char(&mut s, '\'');
        } else {
            push_char(&mut s, v[i]);
        }
        assert(v@.take(i + 1).drop_last() == v@.take(i as int));
        i += 1;
    }
    assert(v@.take(v@.len() as int) == v@);
    push_str(&mut s, "') | ConvertTo-Json -Depth 5 -Compress");
    s
}

/// The error when the weather command failed, from what it wrote to its
/// error output.
pub fn weather_service_error(stderr_text: &str) -> (r: String)
    ensures
        trim(stderr_text@).len() == 0 ==> r@ == "Wetterdienst ist momentan nicht erreichbar"@,
        trim(stderr_text@).len() > 0 ==> r@ == "Wetterdienst: "@ + trim(stderr_text@),
{
    let v = chars_of(stderr_text);
    let detail = trimmed(&v);
    let mut s = String::new();
    if detail.len() == 0 {
        push_str(&mut s, "Wetterdienst ist momentan nicht erreichbar");
    } else {
        push_str(&mut s, "Wetterdienst: ");
        push_chars(&mut s, &detail);
    }
    s
}

/// The short label of a place: its name, then its country after a comma
/// where the country is known.
pub open spec fn label_text(name: Seq<char>, country: Seq<char>) -> Seq<char> {
    if country.len() == 0 {
        name
    } else {
        name + seq![',', ' '] + country
    }
}

/// The label of a place in the search results: its name, then its region
/// (the first-level administrative area, else the country) after a middle
/// dot, where one of them is known.
pub open spec fn search_label_text(name: Seq<char>, admin1: Seq<char>, country: Seq<char>) -> Seq<
    char,
> {
    let region = if admin1.len() == 0 {
        country
    } else {
        admin1
    };
    if region.len() == 0 {
        name
    } else {
        name + seq![' ', '\u{b7}', ' '] + region
    }
}

/// The short label of a chosen weather location.
pub fn location_label(name: &str, country: &str) -> (r: String)
    ensures
        r@ == label_text(name@, country@),
{
    let mut out = String::new();
    push_str(&mut out, name);
    let c = chars_of(country);
    if c.len() > 0 {
        push_char(&mut out, ',');
        push_char(&mut out, ' ');
        push_str(&mut out, country);
    }
    out
}

/// The label of a weather location in the list of search results.
pub fn format_location(name: &str, admin1: &str, country: &str) -> (r: String)
    ensures
        r@ == search_label_text(name@, admin1@, country@),
{
    let mut out = String::new();
    push_str(&mut out, name);
    let a = chars_of(admin1);
    let c = chars_of(country);
    if a.len() > 0 {
        push_char(&mut out, ' ');
        push_char(&mut out, '\u{b7}');
        push_char(&mut out, ' ');
        push_str(&mut out, admin1);
    } else if c.len() > 0 {
        push_char(&mut out, ' ');
        push_char(&mut out, '\u{b7}');
        push_char(&mut out, ' ');
        push_str(&mut out, country);
    }
    out
}

/// Pause after the last edit of the search text before a search starts, in
/// milliseconds.
pub const SEARCH_DEBOUNCE_MS: u64 = 250;

/// The place search of the location window, on a millisecond clock: whether
/// a search runs, the text last searched for, and when the pause after the
/// last edit began.
#[derive(Clone, Debug)]
pub struct LocationSearch {
    pub searching: bool,
    pub last_query: String,
    pub pause_started_ms: Option<u64>,
}

/// Whether a trimmed search text is searched for: at least two bytes long,
/// no search running, and not the text that was just searched for.
pub open spec fn search_starts(searching: bool, last_query: Seq<char>, query: Seq<char>) -> bool {
    utf8_of(trim(query)).len() >= 2 && !searching && trim(query) != last_query
}

/// Whether the pause after the last edit has passed at `now`.
pub open spec fn pause_over(pause_started_ms: Option<u64>, now: u64) -> bool {
    match pause_started_ms {
        Some(started) => now >= started && now - started >= SEARCH_DEBOUNCE_MS,
        None => false,
    }
}

impl LocationSearch {
    pub fn new() -> (r: Self)
        ensures
            !r.searching,
            r.last_query@ == Seq::<char>::empty(),
            r.pause_started_ms is None,
    {
        LocationSearch { searching: false, last_query: String::new(), pause_started_ms: None }
    }

    /// The search text was edited at `now`: the pause starts again, and the
    /// same text may be searched for again.
    pub fn edited(&mut self, now_ms: u64)
        ensures
            final(self).searching == old(self).searching,
            final(self).last_query@ == Seq::<char>::empty(),
            final(self).pause_started_ms == Some(now_ms),
    {
        self.last_query = String::new();
        self.pause_started_ms = Some(now_ms);
    }

    /// The text to search for at `now`, while the field holds `query`: once
    /// the pause is over, the trimmed text when it is searched for (which
    /// then runs). A text under two bytes ends the pause.
    pub fn tick(&mut self, query: &str, now_ms: u64) -> (r: Option<String>)
        ensures
            !pause_over(old(self).pause_started_ms, now_ms) ==> r is None && final(self).searching
                == old(self).searching && final(self).last_query@ == old(self).last_query@
                && final(self).pause_started_ms == old(self).pause_started_ms,
            pause_over(old(self).pause_started_ms, now_ms) && search_starts(
                old(self).searching,
                old(self).last_query@,
                query@,
            ) ==> (r matches Some(q) && q@ == trim(query@)) && final(self).searching
                && final(self).last_query@ == trim(query@) && final(self).pause_started_ms is None,
            pause_over(old(self).pause_started_ms, now_ms) && !search_starts(
                old(self).searching,
                old(self).last_query@,
                query@,
            ) ==> r is None && final(self).searching == old(self).searching
                && final(self).last_query@ == old(self).last_query@
                && final(self).pause_started_ms == (if utf8_of(trim(query@)).len() < 2 {
                None
            } else {
                old(self).pause_started_ms
            }),
    {
        let over = match self.pause_started_ms {
            Some(started) => now_ms >= started && now_ms - started >= SEARCH_DEBOUNCE_MS,
            None => false,
        };
        if !over {
            return None;
        }
        let v = chars_of(query);
        let q = trimmed(&v);
        let short = utf8_len(&q) < 2;
        let last = chars_of(self.last_query.as_str());
        let same = crate::text::chars_eq(&q, &last);
        if short || self.searching || same {
            if short {
                self.pause_started_ms = None;
            }
            return None;
        }
        let text = crate::text::string_of(&q);
        self.last_query = crate::text::string_of(&q);
        self.searching = true;
        self.pause_started_ms = None;
        Some(text)
    }

    /// The running search finished at `now`, while the field holds `query`:
    /// when the text changed meanwhile, the pause starts again.
    pub fn finished(&mut self, query: &str, now_ms: u64)
        ensures
            !final(self).searching,
            final(self).last_query@ == old(self).last_query@,
            final(self).pause_started_ms == (if trim(query@) != old(self).last_query@ {
                Some(now_ms)
            } else {
                None
            }),
    {
        self.searching = false;
        let v = chars_of(query);
        let q = trimmed(&v);
        let last = chars_of(self.last_query.as_str());
        self.pause_started_ms = if crate::text::chars_eq(&q, &last) {
            None
        } else {
            Some(now_ms)
        };
    }
}

} // verus!
