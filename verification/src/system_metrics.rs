//! System metrics of the live window: the readings it shows, how stale CPU
//! temperatures are dropped and how the temperature sensor is polled, and the
//! HTTP responses of the local sensor service.
use crate::text::{
    chars_eq_ignore_ascii_case, chars_of, eq_ignore_ascii_case, lemma_utf8_injective, lines,
    parse_bounded, split_chars, split_lines, split_on, split_words, subvec, trim, trimmed,
    utf8_of, views, words,
};
use vstd::prelude::*;

verus! {

/// One sample of the system's load, each part `None` when it is not known.
#[derive(Clone, Copy, Debug, PartialEq, Eq, Structural)]
pub struct SystemMetrics {
    pub cpu_percent: Option<u8>,
    pub gpu_percent: Option<u8>,
    pub vram_percent: Option<u8>,
    pub ram_percent: Option<u8>,
    pub cpu_temperature_c: Option<u8>,
    pub gpu_temperature_c: Option<u8>,
    pub gpu_watts: Option<u16>,
    pub gpu_power_percent: Option<u8>,
}

impl Default for SystemMetrics {
    fn default() -> (r: Self)
        ensures
            r.cpu_percent is None && r.gpu_percent is None && r.vram_percent is None
                && r.ram_percent is None && r.cpu_temperature_c is None && r.gpu_temperature_c is None
                && r.gpu_watts is None && r.gpu_power_percent is None,
    {
        SystemMetrics {
            cpu_percent: None,
            gpu_percent: None,
            vram_percent: None,
            ram_percent: None,
            cpu_temperature_c: None,
            gpu_temperature_c: None,
            gpu_watts: None,
            gpu_power_percent: None,
        }
    }
}

/// What the graphics card reported.
#[derive(Clone, Copy, Debug, PartialEq, Eq, Structural)]
pub struct NvidiaTelemetry {
    pub temperature_c: Option<u8>,
    pub power_watts: Option<u16>,
    pub power_percent: Option<u8>,
    pub vram_percent: Option<u8>,
}

/// Assembles one sample from its parts: the processor, memory and graphics
/// load, the graphics card's report and the CPU temperature.
pub fn assemble_metrics(
    cpu_percent: Option<u8>,
    ram_percent: Option<u8>,
    gpu_percent: Option<u8>,
    nvidia: Option<NvidiaTelemetry>,
    cpu_temperature_c: Option<u8>,
) -> (r: SystemMetrics)
    ensures
        r == (SystemMetrics {
            cpu_percent,
            gpu_percent,
            vram_percent: match nvidia {
                Some(t) => t.vram_percent,
                None => None,
            },
            ram_percent,
            cpu_temperature_c,
            gpu_temperature_c: match nvidia {
                Some(t) => t.temperature_c,
                None => None,
            },
            gpu_watts: match nvidia {
                Some(t) => t.power_watts,
                None => None,
            },
            gpu_power_percent: match nvidia {
                Some(t) => t.power_percent,
                None => None,
            },
        }),
{
    let (vram_percent, gpu_temperature_c, gpu_watts, gpu_power_percent) = match nvidia {
        Some(t) => (t.vram_percent, t.temperature_c, t.power_watts, t.power_percent),
        None => (None, None, None, None),
    };
    SystemMetrics {
        cpu_percent,
        gpu_percent,
        vram_percent,
        ram_percent,
        cpu_temperature_c,
        gpu_temperature_c,
        gpu_watts,
        gpu_power_percent,
    }
}

/// Memory load in percent as the system reports it, at most 100.
pub fn memory_load_percent(load: u32) -> (r: u8)
    ensures
        r == (if load > 100 {
            100
        } else {
            load
        }),
{
    if load > 100 {
        100
    } else {
        load as u8
    }
}

/// A `FILETIME` as one 64-bit count.
pub fn filetime_value(high: u32, low: u32) -> (r: u64)
    ensures
        r == high as int * 0x1_0000_0000 + low as int,
{
    let r = ((high as u64) << 32u64) | (low as u64);
    assert(((high as u64) << 32u64) | (low as u64) == (high as u64) * 0x1_0000_0000u64 + (
    low as u64)) by (bit_vector);
    r
}

// ---------------------------------------------------------------------------
// Polling the temperature sensor
// ---------------------------------------------------------------------------

/// Seconds between readings while the sensor answers.
pub const CPU_TEMPERATURE_REFRESH_INTERVAL_SECS: u64 = 10;

/// First pause after the sensor gave no value.
pub const CPU_TEMPERATURE_RETRY_INTERVAL_SECS: u64 = 30;

/// Longest pause after repeated failures.
pub const CPU_TEMPERATURE_MAX_RETRY_INTERVAL_SECS: u64 = 300;

/// The pause before the next reading, in seconds: after a value the regular
/// interval, and the retry pause is reset; after a failure the current retry
/// pause, which doubles for the next failure up to five minutes.
pub fn cpu_temperature_refresh_interval(value_available: bool, retry_interval: &mut u64) -> (r:
    u64)
    ensures
        value_available ==> r == CPU_TEMPERATURE_REFRESH_INTERVAL_SECS && *final(retry_interval)
            == CPU_TEMPERATURE_RETRY_INTERVAL_SECS,
        !value_available ==> r == *old(retry_interval) && *final(retry_interval) == (if *old(
            retry_interval,
        ) * 2 > CPU_TEMPERATURE_MAX_RETRY_INTERVAL_SECS {
            CPU_TEMPERATURE_MAX_RETRY_INTERVAL_SECS as int
        } else {
            *old(retry_interval) * 2
        }),
{
    if value_available {
        *retry_interval = CPU_TEMPERATURE_RETRY_INTERVAL_SECS;
        CPU_TEMPERATURE_REFRESH_INTERVAL_SECS
    } else {
        let interval = *retry_interval;
        let doubled = if interval > u64::MAX / 2 {
            u64::MAX
        } else {
            interval * 2
        };
        *retry_interval = if doubled > CPU_TEMPERATURE_MAX_RETRY_INTERVAL_SECS {
            CPU_TEMPERATURE_MAX_RETRY_INTERVAL_SECS
        } else {
            doubled
        };
        interval
    }
}

/// Retry pauses never exceed five minutes once they start at or below it,
/// and a value always resets them.
pub proof fn lemma_retry_interval_bounded(retry: u64)
    requires
        retry <= CPU_TEMPERATURE_MAX_RETRY_INTERVAL_SECS,
    ensures
        (if retry * 2 > CPU_TEMPERATURE_MAX_RETRY_INTERVAL_SECS {
            CPU_TEMPERATURE_MAX_RETRY_INTERVAL_SECS as int
        } else {
            retry * 2
        }) <= CPU_TEMPERATURE_MAX_RETRY_INTERVAL_SECS,
{
}

/// A temperature older than this is not shown.
pub const CPU_TEMPERATURE_STALE_AFTER_MS: u64 = 30_000;

/// The cached temperature at `now_ms`: dropped once it is 30 seconds old or
/// older, kept otherwise.
pub open spec fn fresh_temperature(cache: TemperatureCache, now_ms: u64) -> Option<u8> {
    match cache.last_update_ms {
        Some(t) => if now_ms >= t && now_ms - t >= CPU_TEMPERATURE_STALE_AFTER_MS {
            None
        } else {
            cache.cached
        },
        None => cache.cached,
    }
}

/// The last CPU temperature that the sensor worker delivered, with the time
/// (on the app's millisecond clock) at which it was read.
#[derive(Clone, Copy, Debug, PartialEq, Eq, Structural)]
pub struct TemperatureCache {
    pub cached: Option<u8>,
    pub last_update_ms: Option<u64>,
}

impl TemperatureCache {
    pub fn new() -> (r: Self)
        ensures
            r.cached is None && r.last_update_ms is None,
    {
        TemperatureCache { cached: None, last_update_ms: None }
    }

    /// Takes an update of the worker: a value, or none when the sensor gave
    /// none.
    pub fn apply_update(&mut self, value: Option<u8>, sampled_at_ms: u64)
        ensures
            final(self).cached == value,
            final(self).last_update_ms == Some(sampled_at_ms),
    {
        self.cached = value;
        self.last_update_ms = Some(sampled_at_ms);
    }

    /// The worker is gone: nothing is known any more.
    pub fn disconnect(&mut self)
        ensures
            final(self).cached is None && final(self).last_update_ms is None,
    {
        self.cached = None;
        self.last_update_ms = None;
    }

    /// The temperature to show at `now_ms`: the cached one unless it is 30
    /// seconds old or older (then it is dropped).
    pub fn reading(&mut self, now_ms: u64) -> (r: Option<u8>)
        ensures
            r == final(self).cached,
            final(self).last_update_ms == old(self).last_update_ms,
            final(self).cached == fresh_temperature(*old(self), now_ms),
    {
        if let Some(t) = self.last_update_ms {
            if now_ms >= t && now_ms - t >= CPU_TEMPERATURE_STALE_AFTER_MS {
                self.cached = None;
            }
        }
        self.cached
    }
}

/// Seconds between two reads of the graphics card.
pub const NVIDIA_REFRESH_INTERVAL_MS: u64 = 10_000;

/// The graphics card's last report. After the first failed read the card is
/// not asked again.
#[derive(Clone, Copy, Debug, PartialEq, Eq, Structural)]
pub struct NvidiaCache {
    pub available: bool,
    pub last_read_ms: Option<u64>,
    pub cached: Option<NvidiaTelemetry>,
}

impl NvidiaCache {
    pub fn new() -> (r: Self)
        ensures
            r.available && r.last_read_ms is None && r.cached is None,
    {
        NvidiaCache { available: true, last_read_ms: None, cached: None }
    }

    /// Whether the card is to be read at `now_ms`.
    pub fn read_due(&self, now_ms: u64) -> (r: bool)
        ensures
            r == (self.available && match self.last_read_ms {
                Some(t) => !(now_ms >= t && now_ms - t < NVIDIA_REFRESH_INTERVAL_MS),
                None => true,
            }),
    {
        if !self.available {
            return false;
        }
        match self.last_read_ms {
            Some(t) => !(now_ms >= t && now_ms - t < NVIDIA_REFRESH_INTERVAL_MS),
            None => true,
        }
    }

    /// Records a read at `now_ms`; a failed read (`None`) marks the card as
    /// unavailable. Gives the report to show.
    pub fn record(&mut self, now_ms: u64, result: Option<NvidiaTelemetry>) -> (r: Option<
        NvidiaTelemetry,
    >)
        ensures
            final(self).last_read_ms == Some(now_ms),
            final(self).cached == result,
            final(self).available == (old(self).available && result is Some),
            r == result,
    {
        self.last_read_ms = Some(now_ms);
        match result {
            Some(t) => {
                self.cached = Some(t);
            },
            None => {
                self.available = false;
                self.cached = None;
            },
        }
        self.cached
    }
}

/// The state that system sampling keeps between two samples: the graphics
/// card's report and the last CPU temperature.
#[derive(Clone, Copy, Debug, PartialEq, Eq, Structural)]
pub struct Sampler {
    pub nvidia: NvidiaCache,
    pub temperature: TemperatureCache,
}

impl Sampler {
    pub fn new() -> (r: Self)
        ensures
            r.nvidia.available && r.nvidia.last_read_ms is None && r.nvidia.cached is None,
            r.temperature.cached is None && r.temperature.last_update_ms is None,
    {
        Sampler { nvidia: NvidiaCache::new(), temperature: TemperatureCache::new() }
    }

    /// One sample at `now_ms`: the processor, memory and graphics load as
    /// read (each at most 100 %), the graphics card's report (read now when
    /// `nvidia_read` is `Some`, else the cached one) and the CPU temperature
    /// unless it is stale.
    pub fn sample(
        &mut self,
        now_ms: u64,
        cpu_percent: Option<u8>,
        memory_load: Option<u32>,
        gpu_percent: Option<u8>,
        nvidia_read: Option<Option<NvidiaTelemetry>>,
    ) -> (r: SystemMetrics)
        ensures
            ({
                let nvidia = match nvidia_read {
                    Some(result) => result,
                    None => old(self).nvidia.cached,
                };
                r == assemble_spec(
                    capped(cpu_percent),
                    match memory_load {
                        Some(l) => Some(if l > 100 { 100u8 } else { l as u8 }),
                        None => None,
                    },
                    capped(gpu_percent),
                    capped_telemetry(nvidia),
                    fresh_temperature(old(self).temperature, now_ms),
                )
            }),
            final(self).temperature == (TemperatureCache {
                cached: fresh_temperature(old(self).temperature, now_ms),
                last_update_ms: old(self).temperature.last_update_ms,
            }),
            final(self).nvidia == (match nvidia_read {
                Some(result) => NvidiaCache {
                    available: old(self).nvidia.available && result is Some,
                    last_read_ms: Some(now_ms),
                    cached: result,
                },
                None => old(self).nvidia,
            }),
            percent_in_range(r.cpu_percent) && percent_in_range(r.gpu_percent)
                && percent_in_range(r.ram_percent) && percent_in_range(r.vram_percent)
                && percent_in_range(r.gpu_power_percent),
    {
        let nvidia = match nvidia_read {
            Some(result) => self.nvidia.record(now_ms, result),
            None => self.nvidia.cached,
        };
        let ram_percent = match memory_load {
            Some(l) => Some(memory_load_percent(l)),
            None => None,
        };
        let cpu_temperature_c = self.temperature.reading(now_ms);
        assemble_metrics(
            cap_percent(cpu_percent),
            ram_percent,
            cap_percent(gpu_percent),
            cap_telemetry(nvidia),
            cpu_temperature_c,
        )
    }
}

/// A percentage, when there is one, lies between 0 and 100.
pub open spec fn percent_in_range(p: Option<u8>) -> bool {
    match p {
        Some(v) => v <= 100,
        None => true,
    }
}

/// A percentage held at 100 at most.
pub open spec fn capped(p: Option<u8>) -> Option<u8> {
    match p {
        Some(v) => Some(if v > 100 { 100u8 } else { v }),
        None => None,
    }
}

/// A graphics card report with its percentages held at 100 at most.
pub open spec fn capped_telemetry(t: Option<NvidiaTelemetry>) -> Option<NvidiaTelemetry> {
    match t {
        Some(t) => Some(
            NvidiaTelemetry {
                temperature_c: t.temperature_c,
                power_watts: t.power_watts,
                power_percent: capped(t.power_percent),
                vram_percent: capped(t.vram_percent),
            },
        ),
        None => None,
    }
}

fn cap_percent(p: Option<u8>) -> (r: Option<u8>)
    ensures
        r == capped(p),
{
    match p {
        Some(v) => Some(if v > 100 { 100u8 } else { v }),
        None => None,
    }
}

fn cap_telemetry(t: Option<NvidiaTelemetry>) -> (r: Option<NvidiaTelemetry>)
    ensures
        r == capped_telemetry(t),
{
    match t {
        Some(t) => Some(
            NvidiaTelemetry {
                temperature_c: t.temperature_c,
                power_watts: t.power_watts,
                power_percent: cap_percent(t.power_percent),
                vram_percent: cap_percent(t.vram_percent),
            },
        ),
        None => None,
    }
}

/// A sample assembled from its parts.
pub open spec fn assemble_spec(
    cpu_percent: Option<u8>,
    ram_percent: Option<u8>,
    gpu_percent: Option<u8>,
    nvidia: Option<NvidiaTelemetry>,
    cpu_temperature_c: Option<u8>,
) -> SystemMetrics {
    SystemMetrics {
        cpu_percent,
        gpu_percent,
        vram_percent: match nvidia {
            Some(t) => t.vram_percent,
            None => None,
        },
        ram_percent,
        cpu_temperature_c,
        gpu_temperature_c: match nvidia {
            Some(t) => t.temperature_c,
            None => None,
        },
        gpu_watts: match nvidia {
            Some(t) => t.power_watts,
            None => None,
        },
        gpu_power_percent: match nvidia {
            Some(t) => t.power_percent,
            None => None,
        },
    }
}

// ---------------------------------------------------------------------------
// HTTP responses of the sensor service
// ---------------------------------------------------------------------------

/// Largest response body accepted, in bytes.
pub const CPU_TEMPERATURE_MAX_RESPONSE_BYTES: usize = 1_048_576;

/// Largest header block accepted, in bytes.
pub const CPU_TEMPERATURE_MAX_RESPONSE_HEADERS_BYTES: usize = 16_384;

/// The text that a byte sequence decodes to as UTF-8: the text whose UTF-8
/// encoding the bytes are, `None` when there is none (the bytes are not
/// valid UTF-8).
pub open spec fn utf8_decoded(bytes: Seq<u8>) -> Option<Seq<char>> {
    if exists|t: Seq<char>| utf8_of(t) == bytes {
        Some(choose|t: Seq<char>| utf8_of(t) == bytes)
    } else {
        None
    }
}

/// `std::str::from_utf8`: the bytes as text when they are valid UTF-8, that
/// is, the text whose UTF-8 encoding they are; `None` when no text is
/// encoded by them.
#[verifier::external_body]
fn decode_utf8(bytes: &[u8]) -> (r: Option<String>)
    ensures
        match r {
            Some(s) => utf8_of(s@) == bytes@,
            None => forall|t: Seq<char>| utf8_of(t) != bytes@,
        },
{
    match std::str::from_utf8(bytes) {
        Ok(text) => Some(text.to_string()),
        Err(_) => None,
    }
}

/// The bytes as text, when they are valid UTF-8.
fn decode_text(bytes: &[u8]) -> (r: Option<String>)
    ensures
        match r {
            Some(s) => utf8_decoded(bytes@) == Some(s@),
            None => utf8_decoded(bytes@) is None,
        },
{
    let r = decode_utf8(bytes);
    proof {
        if r is Some {
            let t = choose|t: Seq<char>| utf8_of(t) == bytes@;
            lemma_utf8_injective(t, r->0@);
        }
    }
    r
}

/// A blank line (`\r\n\r\n`) starts at `i`.
pub open spec fn blank_line_at(b: Seq<u8>, i: int) -> bool {
    0 <= i && i + 4 <= b.len() && b[i] == 13 && b[i + 1] == 10 && b[i + 2] == 13 && b[i + 3]
        == 10
}

/// The first blank line at or after `i`.
pub open spec fn blank_line_from(b: Seq<u8>, i: int) -> Option<int>
    decreases b.len() - i,
{
    if i < 0 || i + 4 > b.len() {
        None
    } else if blank_line_at(b, i) {
        Some(i)
    } else {
        blank_line_from(b, i + 1)
    }
}

fn find_blank_line(b: &[u8]) -> (r: Option<usize>)
    ensures
        match r {
            Some(i) => blank_line_from(b@, 0) == Some(i as int),
            None => blank_line_from(b@, 0) is None,
        },
{
    let n = b.len();
    let mut i: usize = 0;
    while i < n && n - i >= 4
        invariant
            n == b@.len(),
            blank_line_from(b@, 0) == blank_line_from(b@, i as int),
        decreases n - i,
    {
        if b[i] == 13 && b[i + 1] == 10 && b[i + 2] == 13 && b[i + 3] == 10 {
            return Some(i);
        }
        i += 1;
    }
    None
}

/// What the header block says about the body.
#[derive(Clone, Copy, Debug, PartialEq, Eq, Structural)]
pub struct LhmHttpHeaders {
    pub body_start: usize,
    pub content_length: Option<usize>,
    pub chunked: bool,
}

/// A `Transfer-Encoding` value names `chunked` among its comma-separated
/// codings (in any letter case).
pub open spec fn names_chunked(value: Seq<char>) -> bool {
    exists|k: int|
        0 <= k < split_on(value, ',').len() && eq_ignore_ascii_case(
            trim(#[trigger] split_on(value, ',')[k]),
            "chunked"@,
        )
}

/// The first `:` of a header line.
pub open spec fn colon_at(line: Seq<char>, p: int) -> bool {
    0 <= p < line.len() && line[p] == ':' && forall|j: int| 0 <= j < p ==> line[j] != ':'
}

/// Reads the header lines from `k` on, carrying the content length and the
/// chunked flag; a later line of a field overrides an earlier one. A
/// non-blank line without `:`, or a content length that is no number or
/// larger than the body limit, fails the response.
pub open spec fn fields_from(ls: Seq<Seq<char>>, k: int, length: Option<nat>, chunked: bool) -> Result<
    (Option<nat>, bool),
    (),
>
    decreases ls.len() - k,
{
    if k < 0 || k >= ls.len() {
        Ok((length, chunked))
    } else {
        let line = ls[k];
        if trim(line).len() == 0 {
            fields_from(ls, k + 1, length, chunked)
        } else if !line.contains(':') {
            Err(())
        } else {
            let p = choose|p: int| colon_at(line, p);
            let name = line.take(p);
            let value = line.skip(p + 1);
            if eq_ignore_ascii_case(name, "content-length"@) {
                match parse_bounded(trim(value), CPU_TEMPERATURE_MAX_RESPONSE_BYTES as nat) {
                    Some(n) => fields_from(ls, k + 1, Some(n), chunked),
                    None => Err(()),
                }
            } else if eq_ignore_ascii_case(name, "transfer-encoding"@) {
                fields_from(ls, k + 1, length, names_chunked(value))
            } else {
                fields_from(ls, k + 1, length, chunked)
            }
        }
    }
}

/// The status code of a status line: its second word as a number.
pub open spec fn status_of(line: Seq<char>) -> Option<nat> {
    if words(line).len() < 2 {
        None
    } else {
        parse_bounded(words(line)[1], 65535)
    }
}

/// Reads the header block of a sensor response received so far: `Ok(None)`
/// while the block is incomplete, an error for an oversized block, text that
/// is not UTF-8, a status other than 200 or a malformed field.
pub open spec fn headers_of(b: Seq<u8>) -> Result<Option<(nat, Option<nat>, bool)>, ()> {
    match blank_line_from(b, 0) {
        None => if b.len() > CPU_TEMPERATURE_MAX_RESPONSE_HEADERS_BYTES {
            Err(())
        } else {
            Ok(None)
        },
        Some(e) => if e > CPU_TEMPERATURE_MAX_RESPONSE_HEADERS_BYTES {
            Err(())
        } else {
            match utf8_decoded(b.take(e)) {
                None => Err(()),
                Some(text) => {
                    let ls = lines(text);
                    if ls.len() == 0 || status_of(ls[0]) != Some(200nat) {
                        Err(())
                    } else {
                        match fields_from(ls, 1, None, false) {
                            Ok((length, chunked)) => Ok(Some(((e + 4) as nat, length, chunked))),
                            Err(()) => Err(()),
                        }
                    }
                },
            }
        },
    }
}

/// The header view of a parse result.
pub open spec fn headers_view(h: LhmHttpHeaders) -> (nat, Option<nat>, bool) {
    (
        h.body_start as nat,
        match h.content_length {
            Some(n) => Some(n as nat),
            None => None,
        },
        h.chunked,
    )
}

fn first_colon(line: &[char]) -> (r: Option<usize>)
    ensures
        r is None <==> !line@.contains(':'),
        r matches Some(p) ==> colon_at(line@, p as int),
{
    crate::text::find_char(line, ':')
}

fn names_chunked_exec(value: &[char]) -> (r: bool)
    ensures
        r == names_chunked(value@),
{
    let pieces = split_chars(value, ',');
    let mut i: usize = 0;
    while i < pieces.len()
        invariant
            i <= pieces@.len(),
            views(pieces@) == split_on(value@, ','),
            forall|k: int|
                0 <= k < i ==> !eq_ignore_ascii_case(
                    trim(#[trigger] split_on(value@, ',')[k]),
                    "chunked"@,
                ),
        decreases pieces@.len() - i,
    {
        assert(views(pieces@)[i as int] == pieces@[i as int]@);
        let t = trimmed(&pieces[i]);
        if chars_eq_ignore_ascii_case(&t, "chunked") {
            return true;
        }
        i += 1;
    }
    false
}

/// Reads the header block of a sensor response received so far.
#[verifier::spinoff_prover]
#[verifier::rlimit(30)]
pub fn parse_lhm_http_headers(response: &[u8]) -> (r: Result<Option<LhmHttpHeaders>, ()>)
    ensures
        match r {
            Ok(Some(h)) => headers_of(response@) == Ok::<Option<(nat, Option<nat>, bool)>, ()>(
                Some(headers_view(h)),
            ),
            Ok(None) => headers_of(response@) == Ok::<Option<(nat, Option<nat>, bool)>, ()>(None),
            Err(()) => headers_of(response@) is Err,
        },
{
    let e = match find_blank_line(response) {
        Some(e) => e,
        None => {
            if response.len() > CPU_TEMPERATURE_MAX_RESPONSE_HEADERS_BYTES {
                return Err(());
            }
            return Ok(None);
        },
    };
    if e > CPU_TEMPERATURE_MAX_RESPONSE_HEADERS_BYTES {
        return Err(());
    }
    assert(blank_line_at(response@, e as int)) by {
        lemma_blank_line_from_found(response@, 0, e as int);
    }
    let head: Vec<u8> = bytes_between(response, 0, e);
    assert(head@ == response@.take(e as int));
    let text = match decode_text(&head) {
        Some(t) => t,
        None => {
            return Err(());
        },
    };
    let chars = chars_of(text.as_str());
    let ls = split_lines(&chars);
    let ghost lv = views(ls@);
    if ls.len() == 0 {
        return Err(());
    }
    assert(lv[0] == ls@[0]@);
    let status_words = split_words(&ls[0]);
    if status_words.len() < 2 {
        return Err(());
    }
    assert(views(status_words@)[1] == status_words@[1]@);
    match crate::text::parse_unsigned(&status_words[1], 65535) {
        Some(code) => if code != 200 {
            return Err(());
        },
        None => {
            return Err(());
        },
    }
    let mut length: Option<usize> = None;
    let mut chunked = false;
    let mut k: usize = 1;
    assert(headers_of(response@) == match fields_from(lv, 1, None, false) {
        Ok((l, c)) => Ok::<Option<(nat, Option<nat>, bool)>, ()>(Some(((e + 4) as nat, l, c))),
        Err(()) => Err(()),
    });
    while k < ls.len()
        invariant
            1 <= k <= ls@.len(),
            lv == views(ls@),
            e + 4 <= response@.len(),
            headers_of(response@) == match fields_from(lv, 1, None, false) {
                Ok((l, c)) => Ok::<Option<(nat, Option<nat>, bool)>, ()>(Some(((e + 4) as nat, l, c))),
                Err(()) => Err(()),
            },
            fields_from(lv, 1, None, false) == fields_from(
                lv,
                k as int,
                match length {
                    Some(n) => Some(n as nat),
                    None => None,
                },
                chunked,
            ),
            length matches Some(n) ==> n <= CPU_TEMPERATURE_MAX_RESPONSE_BYTES,
        decreases ls@.len() - k,
    {
        let line = &ls[k];
        assert(lv[k as int] == line@);
        let ghost spec_length = match length {
            Some(n) => Some(n as nat),
            None => None,
        };
        let t = trimmed(line);
        if t.len() > 0 {
            let p = match first_colon(line) {
                Some(p) => p,
                None => {
                    assert(fields_from(lv, k as int, spec_length, chunked) is Err);
                    return Err(());
                },
            };
            proof {
                let q = choose|q: int| colon_at(line@, q);
                assert(colon_at(line@, p as int));
                if q < p {
                    assert(line@[q] != ':');
                } else if q > p {
                    assert(line@[p as int] != ':');
                }
            }
            let name = subvec(line, 0, p);
            let value = subvec(line, p + 1, line.len());
            assert(name@ == line@.take(p as int));
            assert(value@ == line@.skip(p + 1));
            if chars_eq_ignore_ascii_case(&name, "content-length") {
                let tv = trimmed(&value);
                match crate::text::parse_unsigned(&tv, CPU_TEMPERATURE_MAX_RESPONSE_BYTES as u64) {
                    Some(n) => {
                        length = Some(n as usize);
                    },
                    None => {
                        assert(fields_from(lv, k as int, spec_length, chunked) is Err);
                        return Err(());
                    },
                }
            } else if chars_eq_ignore_ascii_case(&name, "transfer-encoding") {
                chunked = names_chunked_exec(&value);
            }
        }
        k += 1;
    }
    Ok(Some(LhmHttpHeaders { body_start: e + 4, content_length: length, chunked }))
}

proof fn lemma_blank_line_from_found(b: Seq<u8>, i: int, e: int)
    requires
        blank_line_from(b, i) == Some(e),
    ensures
        blank_line_at(b, e),
        i <= e,
    decreases b.len() - i,
{
    if !(i < 0 || i + 4 > b.len()) && !blank_line_at(b, i) {
        lemma_blank_line_from_found(b, i + 1, e);
    }
}

/// The bytes `b[a..c]`.
fn bytes_between(b: &[u8], a: usize, c: usize) -> (r: Vec<u8>)
    requires
        a <= c <= b@.len(),
    ensures
        r@ == b@.subrange(a as int, c as int),
{
    let mut r: Vec<u8> = Vec::new();
    let mut i = a;
    while i < c
        invariant
            a <= i <= c,
            c <= b@.len(),
            r@ == b@.subrange(a as int, i as int),
        decreases c - i,
    {
        r.push(b[i]);
        i += 1;
        assert(r@ == b@.subrange(a as int, i as int));
    }
    r
}


// ---------------------------------------------------------------------------
// Response bodies
// ---------------------------------------------------------------------------

/// Value of a hexadecimal digit.
pub open spec fn hex_digit(c: char) -> Option<nat> {
    if '0' <= c && c <= '9' {
        Some((c as nat - '0' as nat) as nat)
    } else if 'a' <= c && c <= 'f' {
        Some((c as nat - 'a' as nat + 10) as nat)
    } else if 'A' <= c && c <= 'F' {
        Some((c as nat - 'A' as nat + 10) as nat)
    } else {
        None
    }
}

pub open spec fn all_hex(s: Seq<char>) -> bool {
    forall|i: int| 0 <= i < s.len() ==> (#[trigger] hex_digit(s[i])) is Some
}

/// Value of a sequence of hexadecimal digits.
pub open spec fn hex_value(s: Seq<char>) -> nat
    decreases s.len(),
{
    if s.len() == 0 {
        0
    } else {
        hex_value(s.drop_last()) * 16 + match hex_digit(s.last()) {
            Some(d) => d,
            None => 0,
        }
    }
}

/// `usize::from_str_radix(s, 16)` as a number: an optional `+`, then one or
/// more hexadecimal digits. (A value beyond `usize::MAX` fails there; here it
/// is a number that no body is long enough to hold, which fails the same
/// decoding.)
pub open spec fn parse_hex(s: Seq<char>) -> Option<nat> {
    let body = if s.len() > 0 && s[0] == '+' {
        s.drop_first()
    } else {
        s
    };
    if body.len() > 0 && all_hex(body) {
        Some(hex_value(body))
    } else {
        None
    }
}

proof fn lemma_hex_value_monotone(s: Seq<char>, i: int)
    requires
        0 <= i <= s.len(),
    ensures
        hex_value(s.take(i)) <= hex_value(s),
    decreases s.len() - i,
{
    if i < s.len() {
        lemma_hex_value_monotone(s, i + 1);
        assert(s.take(i + 1).drop_last() == s.take(i));
    } else {
        assert(s.take(i) == s);
    }
}

fn hex_digit_exec(c: char) -> (r: Option<u64>)
    ensures
        match r {
            Some(d) => hex_digit(c) == Some(d as nat) && d < 16,
            None => hex_digit(c) is None,
        },
{
    if '0' <= c && c <= '9' {
        Some((c as u32 - '0' as u32) as u64)
    } else if 'a' <= c && c <= 'f' {
        Some((c as u32 - 'a' as u32 + 10) as u64)
    } else if 'A' <= c && c <= 'F' {
        Some((c as u32 - 'A' as u32 + 10) as u64)
    } else {
        None
    }
}

/// A hexadecimal size that is at most `limit`.
fn parse_hex_upto(v: &[char], limit: usize) -> (r: Option<usize>)
    ensures
        r matches Some(x) ==> parse_hex(v@) == Some(x as nat) && x <= limit,
        r is None ==> parse_hex(v@) is None || parse_hex(v@)->0 > limit,
{
    let start: usize = if v.len() > 0 && v[0] == '+' {
        1
    } else {
        0
    };
    let ghost body = v@.skip(start as int);
    if start >= v.len() {
        return None;
    }
    if start == 1 {
        assert(v@.skip(1) == v@.drop_first());
    } else {
        assert(v@.skip(0) == v@);
    }
    let n = v.len();
    let mut acc: u64 = 0;
    let mut i = start;
    assert(parse_hex(v@) == (if body.len() > 0 && all_hex(body) {
        Some(hex_value(body))
    } else {
        None
    }));
    while i < n
        invariant
            start <= i <= n,
            start < n,
            n == v@.len(),
            body == v@.skip(start as int),
            parse_hex(v@) == (if body.len() > 0 && all_hex(body) {
                Some(hex_value(body))
            } else {
                None
            }),
            acc as nat == hex_value(body.take(i - start)),
            acc <= limit,
            all_hex(body.take(i - start)),
        decreases n - i,
    {
        assert(body[i - start] == v@[i as int]);
        assert(body.take(i - start + 1).drop_last() == body.take(i - start));
        assert(body.take(i - start + 1).last() == v@[i as int]);
        let d = match hex_digit_exec(v[i]) {
            Some(d) => d,
            None => {
                assert(hex_digit(body[i - start]) is None);
                assert(!all_hex(body));
                return None;
            },
        };
        if d > limit as u64 || acc > (limit as u64 - d) / 16 {
            proof {
                assert(acc * 16 + d > limit) by (nonlinear_arith)
                    requires
                        d > limit || acc > (limit - d) / 16,
                        d < 16,
                ;
                if all_hex(body) {
                    lemma_hex_value_monotone(body, i - start + 1);
                }
            }
            return None;
        }
        proof {
            assert(acc * 16 + d <= limit) by (nonlinear_arith)
                requires
                    acc <= (limit - d) / 16,
                    d < 16,
                    d <= limit,
            ;
        }
        acc = acc * 16 + d;
        i += 1;
        assert(all_hex(body.take(i - start)));
    }
    assert(body.take(n - start) == body);
    Some(acc as usize)
}

/// The first line end (`\r\n`) at or after `i`.
pub open spec fn crlf_from(b: Seq<u8>, i: int) -> Option<int>
    decreases b.len() - i,
{
    if i < 0 || i + 2 > b.len() {
        None
    } else if b[i] == 13 && b[i + 1] == 10 {
        Some(i)
    } else {
        crlf_from(b, i + 1)
    }
}

fn find_crlf(b: &[u8], from: usize) -> (r: Option<usize>)
    requires
        from <= b@.len(),
    ensures
        match r {
            Some(i) => crlf_from(b@, from as int) == Some(i as int) && from <= i && i + 2 <= b@.len(),
            None => crlf_from(b@, from as int) is None,
        },
{
    let n = b.len();
    let mut i = from;
    while i < n && n - i >= 2
        invariant
            from <= i <= n,
            n == b@.len(),
            crlf_from(b@, from as int) == crlf_from(b@, i as int),
        decreases n - i,
    {
        if b[i] == 13 && b[i + 1] == 10 {
            return Some(i);
        }
        i += 1;
    }
    None
}

/// Decodes a chunked body: chunks of a hexadecimal size line (extensions
/// after `;` ignored) and the data followed by a line end, until a chunk of
/// size 0. The decoded body may not exceed the body limit.
pub open spec fn chunks_from(b: Seq<u8>, decoded: Seq<u8>) -> Result<Seq<u8>, ()>
    decreases b.len(),
{
    match crlf_from(b, 0) {
        None => Err(()),
        Some(le) => if le < 0 || le + 2 > b.len() {
            Err(())
        } else {
            match utf8_decoded(b.take(le)) {
                None => Err(()),
                Some(text) => match parse_hex(trim(split_on(text, ';')[0])) {
                    None => Err(()),
                    Some(size) => {
                        let rest = b.skip(le + 2);
                        if size == 0 {
                            Ok(decoded)
                        } else if size > rest.len() {
                            Err(())
                        } else if decoded.len() + size > CPU_TEMPERATURE_MAX_RESPONSE_BYTES {
                            Err(())
                        } else {
                            let after = rest.skip(size as int);
                            if after.len() >= 2 && after[0] == 13 && after[1] == 10 {
                                chunks_from(after.skip(2), decoded + rest.take(size as int))
                            } else {
                                Err(())
                            }
                        }
                    },
                },
            }
        },
    }
}

/// Decodes a chunked response body.
#[verifier::spinoff_prover]
#[verifier::rlimit(30)]
pub fn decode_lhm_chunked_body(body: &[u8]) -> (r: Result<Vec<u8>, ()>)
    ensures
        match r {
            Ok(v) => chunks_from(body@, Seq::empty()) == Ok::<Seq<u8>, ()>(v@),
            Err(()) => chunks_from(body@, Seq::empty()) is Err,
        },
{
    let mut decoded: Vec<u8> = Vec::new();
    let mut pos: usize = 0;
    assert(body@.skip(0) == body@);
    loop
        invariant
            pos <= body@.len(),
            chunks_from(body@, Seq::empty()) == chunks_from(body@.skip(pos as int), decoded@),
            decoded@.len() <= CPU_TEMPERATURE_MAX_RESPONSE_BYTES,
        decreases body@.len() - pos,
    {
        let ghost cur = body@.skip(pos as int);
        let found = find_crlf(body, pos);
        let le = match found {
            Some(le) => le,
            None => {
                proof {
                    lemma_crlf_shift(body@, pos as int, 0);
                }
                return Err(());
            },
        };
        proof {
            lemma_crlf_shift(body@, pos as int, 0);
        }
        assert(crlf_from(cur, 0) == Some(le - pos));
        let blen = body.len();
        assert(le + 2 <= blen);
        let line = bytes_between(body, pos, le);
        assert(line@ == cur.take(le - pos));
        let text = match decode_text(&line) {
            Some(t) => t,
            None => {
                return Err(());
            },
        };
        let chars = chars_of(text.as_str());
        let pieces = split_chars(&chars, ';');
        assert(views(pieces@)[0] == pieces@[0]@);
        let size_text = trimmed(&pieces[0]);
        let rest_start = le + 2;
        assert(cur.skip(le - pos + 2) == body@.skip(rest_start as int));
        let rest_len = body.len() - rest_start;
        let size = match parse_hex_upto(&size_text, rest_len) {
            Some(size) => size,
            None => {
                return Err(());
            },
        };
        if size == 0 {
            return Ok(decoded);
        }
        if size > CPU_TEMPERATURE_MAX_RESPONSE_BYTES - decoded.len() {
            return Err(());
        }
        let after = rest_start + size;
        if !(body.len() - after >= 2 && body[after] == 13 && body[after + 1] == 10) {
            assert(body@.skip(rest_start as int).skip(size as int) == body@.skip(after as int));
            return Err(());
        }
        let ghost old_decoded = decoded@;
        let mut k = rest_start;
        while k < after
            invariant
                rest_start <= k <= after,
                after <= body@.len(),
                decoded@ == old_decoded + body@.subrange(rest_start as int, k as int),
            decreases after - k,
        {
            decoded.push(body[k]);
            k += 1;
            assert(decoded@ == old_decoded + body@.subrange(rest_start as int, k as int));
        }
        proof {
            let rest = body@.skip(rest_start as int);
            assert(rest.take(size as int) == body@.subrange(rest_start as int, after as int));
            assert(rest.skip(size as int) == body@.skip(after as int));
            assert(body@.skip(after as int).skip(2) == body@.skip(after + 2));
        }
        pos = after + 2;
    }
}

proof fn lemma_crlf_shift(b: Seq<u8>, pos: int, i: int)
    requires
        0 <= pos <= b.len(),
        0 <= i,
    ensures
        match crlf_from(b, pos + i) {
            Some(j) => crlf_from(b.skip(pos), i) == Some(j - pos),
            None => crlf_from(b.skip(pos), i) is None,
        },
    decreases b.len() - pos - i,
{
    let s = b.skip(pos);
    if pos + i + 2 <= b.len() {
        assert(s[i] == b[pos + i]);
        assert(s[i + 1] == b[pos + i + 1]);
        lemma_crlf_shift(b, pos, i + 1);
    }
}

/// Whether a sensor response read so far is complete before the connection
/// closes: its headers are in, its body is not chunked, and it holds at least
/// the header block and the content length it announces (their sum held at
/// `usize::MAX`).
pub fn response_complete(headers: &LhmHttpHeaders, received: usize) -> (r: bool)
    ensures
        r == (!headers.chunked && match headers.content_length {
            Some(length) => received as int >= (if headers.body_start as int + length as int
                > usize::MAX as int {
                usize::MAX as int
            } else {
                headers.body_start as int + length as int
            }),
            None => false,
        }),
{
    if headers.chunked {
        return false;
    }
    match headers.content_length {
        Some(length) => {
            let end = if headers.body_start > usize::MAX - length {
                usize::MAX
            } else {
                headers.body_start + length
            };
            received >= end
        },
        None => false,
    }
}

/// The body of a complete sensor response.
pub open spec fn body_of(b: Seq<u8>) -> Result<Seq<u8>, ()> {
    match headers_of(b) {
        Ok(Some((start, length, chunked))) => {
            let body = b.skip(start as int);
            if chunked {
                chunks_from(body, Seq::empty())
            } else {
                match length {
                    Some(l) => if l <= body.len() {
                        Ok(body.take(l as int))
                    } else {
                        Err(())
                    },
                    None => Ok(body),
                }
            }
        },
        _ => Err(()),
    }
}

/// The body of a complete sensor response: decoded when chunked, cut to the
/// content length when one is given, the rest of the response otherwise.
pub fn parse_lhm_http_body(response: &[u8]) -> (r: Result<Vec<u8>, ()>)
    ensures
        match r {
            Ok(v) => body_of(response@) == Ok::<Seq<u8>, ()>(v@),
            Err(()) => body_of(response@) is Err,
        },
{
    let headers = match parse_lhm_http_headers(response) {
        Ok(Some(h)) => h,
        _ => {
            return Err(());
        },
    };
    proof {
        lemma_body_start_in_range(response@);
    }
    let body = bytes_between(response, headers.body_start, response.len());
    assert(body@ == response@.skip(headers.body_start as int));
    if headers.chunked {
        return decode_lhm_chunked_body(&body);
    }
    match headers.content_length {
        Some(length) => {
            if length > body.len() {
                return Err(());
            }
            let cut = bytes_between(&body, 0, length);
            assert(cut@ == body@.take(length as int));
            Ok(cut)
        },
        None => Ok(body),
    }
}

proof fn lemma_body_start_in_range(b: Seq<u8>)
    ensures
        headers_of(b) matches Ok(Some((start, _, _))) ==> start <= b.len(),
{
    if let Some(e) = blank_line_from(b, 0) {
        lemma_blank_line_from_found(b, 0, e);
    }
}


/// A network address of the machine, read by the caller from its text: an
/// IPv4 address by its 32 bits, an IPv6 address by its 128 bits.
#[derive(Clone, Copy, Debug, PartialEq, Eq, Structural)]
pub enum HostAddress {
    V4(u32),
    V6(u128),
}

/// Loopback addresses: `127.0.0.0/8` and `::1`.
pub open spec fn loopback(a: HostAddress) -> bool {
    match a {
        HostAddress::V4(bits) => bits / 0x0100_0000 == 127,
        HostAddress::V6(bits) => bits == 1,
    }
}

impl HostAddress {
    pub fn is_loopback(&self) -> (r: bool)
        ensures
            r == loopback(*self),
    {
        match self {
            HostAddress::V4(bits) => *bits / 0x0100_0000 == 127,
            HostAddress::V6(bits) => *bits == 1,
        }
    }
}

/// Where the sensor service may listen: the address as it was announced,
/// that address as read (`None` when it is no address), and the port.
#[derive(Clone, Debug)]
pub struct SensorEndpoint {
    pub address: String,
    pub host: Option<HostAddress>,
    pub port: u16,
}

/// An endpoint is queried only when its address is one of this machine's:
/// a loopback address or one of the local interfaces' addresses.
pub open spec fn local_endpoint(host: Option<HostAddress>, locals: Seq<HostAddress>) -> bool {
    match host {
        Some(a) => loopback(a) || locals.contains(a),
        None => false,
    }
}

pub open spec fn keeps_local(locals: Seq<HostAddress>) -> spec_fn(SensorEndpoint) -> bool {
    |e: SensorEndpoint| local_endpoint(e.host, locals)
}

fn contains_host(locals: &[HostAddress], a: HostAddress) -> (r: bool)
    ensures
        r == locals@.contains(a),
{
    let mut i: usize = 0;
    while i < locals.len()
        invariant
            i <= locals.len(),
            forall|j: int| 0 <= j < i ==> locals@[j] != a,
        decreases locals.len() - i,
    {
        if locals[i] == a {
            return true;
        }
        i = i + 1;
    }
    false
}

/// The announced endpoints whose address belongs to this machine, in their
/// order; any other address, and text that is no address, is dropped.
pub fn retain_local_lhm_endpoints(endpoints: Vec<SensorEndpoint>, local_addresses: &[HostAddress]) -> (r:
    Vec<SensorEndpoint>)
    ensures
        r@ == endpoints@.filter(keeps_local(local_addresses@)),
{
    let ghost all = endpoints@;
    let ghost keep = keeps_local(local_addresses@);
    let mut rest = endpoints;
    let mut kept: Vec<SensorEndpoint> = Vec::new();
    let ghost mut k: int = 0;
    proof {
        reveal(Seq::filter);
        assert(all.subrange(0, 0) =~= Seq::<SensorEndpoint>::empty());
        assert(all.subrange(0, all.len() as int) =~= all);
    }
    while rest.len() > 0
        invariant
            0 <= k <= all.len(),
            rest@ =~= all.subrange(k, all.len() as int),
            kept@ == all.subrange(0, k).filter(keep),
            keep == keeps_local(local_addresses@),
        decreases rest.len(),
    {
        let e = rest.remove(0);
        proof {
            assert(e == all[k]);
            let before = all.subrange(0, k);
            let after = all.subrange(0, k + 1);
            assert(after.drop_last() =~= before);
            assert(after.last() == e);
            reveal(Seq::filter);
        }
        let local = match &e.host {
            Some(a) => a.is_loopback() || contains_host(local_addresses, *a),
            None => false,
        };
        if local {
            kept.push(e);
        }
        proof {
            k = k + 1;
        }
    }
    proof {
        assert(all.subrange(0, k) =~= all);
    }
    kept
}

/// Only this machine's sensor endpoints are queried: every retained endpoint
/// has a loopback or local address, and every announced endpoint with such
/// an address is retained.
pub proof fn lemma_retained_endpoints_are_local(endpoints: Seq<SensorEndpoint>, locals: Seq<HostAddress>)
    ensures
        forall|i: int|
            0 <= i < endpoints.filter(keeps_local(locals)).len() ==> local_endpoint(
                #[trigger] endpoints.filter(keeps_local(locals))[i].host,
                locals,
            ),
        forall|i: int|
            0 <= i < endpoints.len() && local_endpoint(endpoints[i].host, locals) ==> #[trigger] endpoints.filter(
                keeps_local(locals),
            ).contains(endpoints[i]),
{
    let keep = keeps_local(locals);
    assert forall|i: int| 0 <= i < endpoints.filter(keep).len() implies local_endpoint(
        #[trigger] endpoints.filter(keep)[i].host,
        locals,
    ) by {
        endpoints.lemma_filter_pred(keep, i);
    }
    assert forall|i: int|
        0 <= i < endpoints.len() && local_endpoint(endpoints[i].host, locals) implies #[trigger] endpoints.filter(
        keep,
    ).contains(endpoints[i]) by {
        endpoints.lemma_filter_contains(keep, i);
    }
}

/// One round over the sensor endpoints, in their order: whether any has
/// answered so far.
pub struct SensorSweep {
    pub responded: bool,
}

/// What a round over the endpoints reports for their replies in order (for
/// each, `None` when it gave no readable reply, else the CPU temperature
/// found in its reply): the first temperature found; with none, no value
/// when some endpoint answered, and an error when none did.
pub open spec fn sweep_result(replies: Seq<Option<Option<u8>>>) -> Result<Option<u8>, ()>
    decreases replies.len(),
{
    if replies.len() == 0 {
        Err(())
    } else {
        match replies[0] {
            Some(Some(t)) => Ok(Some(t)),
            Some(None) => match sweep_result(replies.drop_first()) {
                Err(()) => Ok(None),
                other => other,
            },
            None => sweep_result(replies.drop_first()),
        }
    }
}

impl SensorSweep {
    pub fn new() -> (r: Self)
        ensures
            !r.responded,
    {
        SensorSweep { responded: false }
    }

    /// Takes one endpoint's reply and says whether the round ends with a
    /// temperature.
    pub fn answer(&mut self, reply: Option<Option<u8>>) -> (found: Option<u8>)
        ensures
            final(self).responded == (old(self).responded || reply is Some),
            found == (match reply {
                Some(Some(t)) => Some(t),
                _ => None,
            }),
    {
        match reply {
            Some(value) => {
                self.responded = true;
                value
            },
            None => None,
        }
    }

    /// The result of a round that found no temperature.
    pub fn outcome(&self) -> (r: Result<Option<u8>, ()>)
        ensures
            r == (if self.responded {
                Ok::<Option<u8>, ()>(None)
            } else {
                Err(())
            }),
    {
        if self.responded {
            Ok(None)
        } else {
            Err(())
        }
    }
}

/// A whole round over replies already in hand.
pub fn sweep_replies(replies: &[Option<Option<u8>>]) -> (r: Result<Option<u8>, ()>)
    ensures
        r == sweep_result(replies@),
{
    let mut sweep = SensorSweep::new();
    let mut i: usize = 0;
    assert(replies@.skip(0) =~= replies@);
    while i < replies.len()
        invariant
            i <= replies.len(),
            sweep_result(replies@) == (if sweep.responded {
                match sweep_result(replies@.skip(i as int)) {
                    Err(()) => Ok(None),
                    other => other,
                }
            } else {
                sweep_result(replies@.skip(i as int))
            }),
        decreases replies.len() - i,
    {
        proof {
            assert(replies@.skip(i as int).drop_first() =~= replies@.skip(i + 1));
        }
        if let Some(t) = sweep.answer(replies[i]) {
            return Ok(Some(t));
        }
        i = i + 1;
    }
    proof {
        assert(replies@.skip(i as int).len() == 0);
    }
    sweep.outcome()
}

} // verus!
