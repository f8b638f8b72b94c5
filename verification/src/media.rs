//! The media panel's model: the current media session's snapshot, where its
//! timeline stands at a later moment, and when the media worker refreshes.
use crate::clock::{duration_nanos_of, elapsed_nanos};
use crate::text::{chars_of, push_str, trim, trimmed};
use vstd::prelude::*;

verus! {

/// What the media session reported at one moment.
#[derive(Clone, Debug)]
pub struct MediaSnapshot {
    pub title: String,
    pub artist: String,
    pub start_100ns: i64,
    pub end_100ns: i64,
    pub position_100ns: i64,
    pub seek_enabled: bool,
    pub is_playing: bool,
    pub position_sampled_at: std::time::Instant,
}

/// `v` held between `lo` and `hi` (`lo <= hi`).
pub open spec fn clamp_i64(v: int, lo: int, hi: int) -> int {
    if v < lo {
        lo
    } else if v > hi {
        hi
    } else {
        v
    }
}

/// Where the timeline stands `elapsed_100ns` after the snapshot: a playing
/// session moves on (the elapsed time and the sum both saturating at
/// `i64::MAX`), a paused one stays; the
/// result is held inside the track.
pub open spec fn position_after_spec(
    playing: bool,
    start: i64,
    end: i64,
    position: i64,
    elapsed_100ns: nat,
) -> int {
    let e = if elapsed_100ns > i64::MAX {
        i64::MAX as int
    } else {
        elapsed_100ns as int
    };
    let moved = if playing {
        if position + e > i64::MAX {
            i64::MAX as int
        } else {
            position + e
        }
    } else {
        position as int
    };
    clamp_i64(
        moved,
        start as int,
        if end > start {
            end as int
        } else {
            start as int
        },
    )
}

/// `Duration::as_nanos`: the duration's length in nanoseconds, the named
/// `duration_nanos_of`.
#[verifier::external_body]
fn duration_nanos(d: std::time::Duration) -> (r: u128)
    ensures
        r == duration_nanos_of(d),
{
    d.as_nanos()
}

/// `Instant::checked_duration_since`: the time from `earlier` to `now`, whose
/// length is then `elapsed_nanos(now, earlier)`; `None` when `earlier` is the
/// later reading, where the saturating length is zero.
#[verifier::external_body]
fn checked_elapsed(now: std::time::Instant, earlier: std::time::Instant) -> (r: Option<
    std::time::Duration,
>)
    ensures
        match r {
            Some(d) => duration_nanos_of(d) == elapsed_nanos(now, earlier),
            None => elapsed_nanos(now, earlier) == 0,
        },
{
    now.checked_duration_since(earlier)
}

/// `Duration::default`, the empty duration.
#[verifier::external_body]
fn no_time() -> (r: std::time::Duration)
    ensures
        duration_nanos_of(r) == 0,
{
    std::time::Duration::default()
}

impl MediaSnapshot {
    /// The timeline position `elapsed_100ns` (in units of 100 ns) after the
    /// snapshot was taken.
    pub fn position_after(&self, elapsed_100ns: u128) -> (r: i64)
        ensures
            r == position_after_spec(
                self.is_playing,
                self.start_100ns,
                self.end_100ns,
                self.position_100ns,
                elapsed_100ns as nat,
            ),
    {
        let elapsed: i64 = if elapsed_100ns > i64::MAX as u128 {
            i64::MAX
        } else {
            elapsed_100ns as i64
        };
        let moved: i64 = if self.is_playing {
            if self.position_100ns > i64::MAX - elapsed {
                i64::MAX
            } else {
                self.position_100ns + elapsed
            }
        } else {
            self.position_100ns
        };
        let hi: i64 = if self.end_100ns > self.start_100ns {
            self.end_100ns
        } else {
            self.start_100ns
        };
        if moved < self.start_100ns {
            self.start_100ns
        } else if moved > hi {
            hi
        } else {
            moved
        }
    }

    /// The timeline position after a duration: the position for the whole
    /// number of 100 ns units in the duration.
    pub fn position_at(&self, elapsed: std::time::Duration) -> (r: i64)
        ensures
            r == position_after_spec(
                self.is_playing,
                self.start_100ns,
                self.end_100ns,
                self.position_100ns,
                (duration_nanos_of(elapsed) / 100) as nat,
            ),
    {
        let units = duration_nanos(elapsed) / 100;
        let r = self.position_after(units);
        assert(r == position_after_spec(
            self.is_playing,
            self.start_100ns,
            self.end_100ns,
            self.position_100ns,
            units as nat,
        ));
        r
    }

    /// The timeline position now: the position after the time from the
    /// snapshot's sampling to a reading of the clock (none when that reading
    /// came first).
    pub fn current_position_100ns(&self) -> (r: i64)
        ensures
            exists|now: std::time::Instant|
                r == position_after_spec(
                    self.is_playing,
                    self.start_100ns,
                    self.end_100ns,
                    self.position_100ns,
                    (#[trigger] elapsed_nanos(now, self.position_sampled_at) / 100) as nat,
                ),
    {
        let now = crate::clock::instant_now();
        let elapsed = match checked_elapsed(now, self.position_sampled_at) {
            Some(d) => d,
            None => no_time(),
        };
        self.position_at(elapsed)
    }
}

/// A paused session stays where it was; a playing one never moves backwards
/// and never leaves the track.
pub proof fn lemma_timeline_position(
    playing: bool,
    start: i64,
    end: i64,
    position: i64,
    a: nat,
    b: nat,
)
    requires
        a <= b,
    ensures
        !playing ==> position_after_spec(playing, start, end, position, a) == position_after_spec(
            playing,
            start,
            end,
            position,
            b,
        ),
        position_after_spec(playing, start, end, position, a) <= position_after_spec(
            playing,
            start,
            end,
            position,
            b,
        ),
        start <= position_after_spec(playing, start, end, position, b),
        position_after_spec(playing, start, end, position, b) <= (if end > start {
            end as int
        } else {
            start as int
        }),
{
}

/// Builds the snapshot of a media session from what Windows reported:
/// `None` for each part that could not be read. A session without title
/// and artist is no media; a missing position is the track's start; seeking
/// needs the control and a track of positive length.
pub fn session_snapshot(
    title: Option<String>,
    artist: Option<String>,
    start: Option<i64>,
    end: Option<i64>,
    position: Option<i64>,
    seek_control: Option<bool>,
    playing: bool,
    sampled_at: std::time::Instant,
) -> (r: Result<MediaSnapshot, String>)
    ensures
        ({
            let t = match title {
                Some(s) => s@,
                None => Seq::<char>::empty(),
            };
            let a = match artist {
                Some(s) => s@,
                None => Seq::<char>::empty(),
            };
            let s0 = match start {
                Some(v) => v,
                None => 0i64,
            };
            let e0 = match end {
                Some(v) => v,
                None => 0i64,
            };
            let p0 = match position {
                Some(v) => v,
                None => s0,
            };
            &&& (trim(t).len() == 0 && trim(a).len() == 0) ==> (r matches Err(m) && m@
                == "Mediensession ohne Titel"@)
            &&& !(trim(t).len() == 0 && trim(a).len() == 0) ==> (r matches Ok(snap) && snap.title@
                == (if trim(t).len() == 0 {
                "Unbekannter Titel"@
            } else {
                t
            }) && snap.artist@ == a && snap.start_100ns == s0 && snap.end_100ns == e0
                && snap.position_100ns == clamp_i64(
                p0 as int,
                s0 as int,
                if e0 > s0 {
                    e0 as int
                } else {
                    s0 as int
                },
            ) && snap.seek_enabled == (seek_control == Some(true) && e0 > s0) && snap.is_playing
                == playing && snap.position_sampled_at == sampled_at)
        }),
{
    let title = match title {
        Some(s) => s,
        None => String::new(),
    };
    let artist = match artist {
        Some(s) => s,
        None => String::new(),
    };
    let tv = chars_of(title.as_str());
    let av = chars_of(artist.as_str());
    let title_blank = trimmed(&tv).len() == 0;
    let artist_blank = trimmed(&av).len() == 0;
    if title_blank && artist_blank {
        let mut m = String::new();
        push_str(&mut m, "Mediensession ohne Titel");
        return Err(m);
    }
    let s0: i64 = match start {
        Some(v) => v,
        None => 0,
    };
    let e0: i64 = match end {
        Some(v) => v,
        None => 0,
    };
    let p0: i64 = match position {
        Some(v) => v,
        None => s0,
    };
    let hi: i64 = if e0 > s0 {
        e0
    } else {
        s0
    };
    let p = if p0 < s0 {
        s0
    } else if p0 > hi {
        hi
    } else {
        p0
    };
    let seek_enabled = match seek_control {
        Some(c) => c,
        None => false,
    } && e0 > s0;
    let shown_title = if title_blank {
        let mut t = String::new();
        push_str(&mut t, "Unbekannter Titel");
        t
    } else {
        title
    };
    Ok(
        MediaSnapshot {
            title: shown_title,
            artist,
            start_100ns: s0,
            end_100ns: e0,
            position_100ns: p,
            seek_enabled,
            is_playing: playing,
            position_sampled_at: sampled_at,
        },
    )
}

/// A request to the media worker.
#[derive(Clone, Debug, PartialEq, Eq, Structural)]
pub enum MediaCommand {
    Seek(i64),
    Event,
    Shutdown,
}

/// Why the media worker refreshes: a session or playback change, or a
/// timeline change.
#[derive(Clone, Copy, Debug, PartialEq, Eq, Structural)]
pub enum RefreshCause {
    Immediate,
    Timeline,
}

/// The flags by which Windows's media events reach the worker. Many events
/// between two looks of the worker wake it once, and an immediate refresh
/// wins over a timeline one.
#[derive(Clone, Copy, Debug, PartialEq, Eq, Structural)]
pub struct RefreshFlags {
    pub wake_pending: bool,
    pub immediate_pending: bool,
    pub timeline_pending: bool,
}

impl RefreshFlags {
    pub fn new() -> (r: Self)
        ensures
            !r.wake_pending && !r.immediate_pending && !r.timeline_pending,
    {
        RefreshFlags { wake_pending: false, immediate_pending: false, timeline_pending: false }
    }

    /// Marks a wake; true when the worker must be sent an event (it was not
    /// already woken).
    fn wake(&mut self) -> (send: bool)
        ensures
            send == !old(self).wake_pending,
            final(self).wake_pending,
            final(self).immediate_pending == old(self).immediate_pending,
            final(self).timeline_pending == old(self).timeline_pending,
    {
        let send = !self.wake_pending;
        self.wake_pending = true;
        send
    }

    /// A session or playback change; true when an event must be sent.
    pub fn notify_immediate(&mut self) -> (send: bool)
        ensures
            send == !old(self).wake_pending,
            *final(self) == notified(*old(self), RefreshCause::Immediate),
    {
        self.immediate_pending = true;
        self.wake()
    }

    /// A timeline change; true when an event must be sent.
    pub fn notify_timeline(&mut self) -> (send: bool)
        ensures
            send == !old(self).wake_pending,
            *final(self) == notified(*old(self), RefreshCause::Timeline),
    {
        self.timeline_pending = true;
        self.wake()
    }

    /// Takes the pending refresh, the immediate one first; the other flag
    /// stays for the next look.
    pub fn take_pending(&mut self) -> (r: Option<RefreshCause>)
        ensures
            !final(self).wake_pending,
            old(self).immediate_pending ==> r == Some(RefreshCause::Immediate)
                && !final(self).immediate_pending && final(self).timeline_pending == old(
                self,
            ).timeline_pending,
            !old(self).immediate_pending && old(self).timeline_pending ==> r == Some(
                RefreshCause::Timeline,
            ) && !final(self).immediate_pending && !final(self).timeline_pending,
            !old(self).immediate_pending && !old(self).timeline_pending ==> r is None
                && !final(self).immediate_pending && !final(self).timeline_pending,
    {
        self.wake_pending = false;
        if self.immediate_pending {
            self.immediate_pending = false;
            Some(RefreshCause::Immediate)
        } else if self.timeline_pending {
            self.timeline_pending = false;
            Some(RefreshCause::Timeline)
        } else {
            None
        }
    }
}

/// The flags after a notification of the given cause.
pub open spec fn notified(flags: RefreshFlags, cause: RefreshCause) -> RefreshFlags {
    match cause {
        RefreshCause::Immediate => RefreshFlags {
            wake_pending: true,
            immediate_pending: true,
            timeline_pending: flags.timeline_pending,
        },
        RefreshCause::Timeline => RefreshFlags {
            wake_pending: true,
            immediate_pending: flags.immediate_pending,
            timeline_pending: true,
        },
    }
}

/// Between two looks of the worker, repeated notifications send one event:
/// after any notification a further one sends nothing, and repeating a
/// notification changes nothing.
pub proof fn lemma_notifications_coalesce(flags: RefreshFlags, first: RefreshCause, second: RefreshCause)
    ensures
        notified(flags, first).wake_pending,
        notified(notified(flags, first), first) == notified(flags, first),
        notified(notified(flags, first), second).wake_pending,
{
}

/// Minimum time between two refreshes for session events, in milliseconds.
pub const EVENT_REFRESH_INTERVAL_MS: u64 = 2000;

/// Minimum time between two refreshes for timeline events.
pub const TIMELINE_REFRESH_INTERVAL_MS: u64 = 5000;

/// Time until the next refresh after one that read the sessions.
pub const FALLBACK_REFRESH_INTERVAL_MS: u64 = 30000;

/// Time until the next refresh after one that failed.
pub const RECOVERY_REFRESH_INTERVAL_MS: u64 = 2000;

/// A refresh that waits for its time, on the worker's millisecond clock.
#[derive(Clone, Copy, Debug, PartialEq, Eq, Structural)]
pub struct PendingRefresh {
    pub cause: RefreshCause,
    pub due_at_ms: u64,
}

/// When a refresh of a kind is due: one interval after the last refresh of
/// that kind, at once (time 0) when there was none.
pub open spec fn due_after(last_ms: Option<u64>, interval_ms: u64) -> u64 {
    match last_ms {
        Some(t) => (t + interval_ms) as u64,
        None => 0,
    }
}

/// The interval of a refresh cause.
pub open spec fn cause_interval(cause: RefreshCause) -> u64 {
    match cause {
        RefreshCause::Immediate => EVENT_REFRESH_INTERVAL_MS,
        RefreshCause::Timeline => TIMELINE_REFRESH_INTERVAL_MS,
    }
}

/// Last refresh times that a refresh can be scheduled after.
pub open spec fn schedulable(last_ms: Option<u64>, interval_ms: u64) -> bool {
    match last_ms {
        Some(t) => t <= u64::MAX - interval_ms,
        None => true,
    }
}

/// The pending refresh after a new cause: a pending immediate refresh stays;
/// a pending timeline refresh stays against another timeline cause;
/// otherwise the new cause is scheduled after the last refresh of its kind.
pub open spec fn merged(
    pending: Option<PendingRefresh>,
    cause: RefreshCause,
    last_event_refresh_ms: Option<u64>,
    last_timeline_refresh_ms: Option<u64>,
) -> Option<PendingRefresh> {
    let scheduled = PendingRefresh {
        cause,
        due_at_ms: match cause {
            RefreshCause::Immediate => due_after(last_event_refresh_ms, EVENT_REFRESH_INTERVAL_MS),
            RefreshCause::Timeline => due_after(
                last_timeline_refresh_ms,
                TIMELINE_REFRESH_INTERVAL_MS,
            ),
        },
    };
    match pending {
        Some(existing) => if existing.cause == RefreshCause::Immediate || cause
            == RefreshCause::Timeline {
            pending
        } else {
            Some(scheduled)
        },
        None => Some(scheduled),
    }
}

fn due_at(last_ms: Option<u64>, interval_ms: u64) -> (r: u64)
    requires
        schedulable(last_ms, interval_ms),
    ensures
        r == due_after(last_ms, interval_ms),
{
    match last_ms {
        Some(t) => t + interval_ms,
        None => 0,
    }
}

/// Merges a new refresh cause into the pending refresh.
pub fn merge_refresh(
    pending: Option<PendingRefresh>,
    cause: RefreshCause,
    last_event_refresh_ms: Option<u64>,
    last_timeline_refresh_ms: Option<u64>,
) -> (r: Option<PendingRefresh>)
    requires
        schedulable(last_event_refresh_ms, EVENT_REFRESH_INTERVAL_MS),
        schedulable(last_timeline_refresh_ms, TIMELINE_REFRESH_INTERVAL_MS),
    ensures
        r == merged(pending, cause, last_event_refresh_ms, last_timeline_refresh_ms),
{
    let due_at_ms = match cause {
        RefreshCause::Immediate => due_at(last_event_refresh_ms, EVENT_REFRESH_INTERVAL_MS),
        RefreshCause::Timeline => due_at(last_timeline_refresh_ms, TIMELINE_REFRESH_INTERVAL_MS),
    };
    match pending {
        Some(existing) => if existing.cause == RefreshCause::Immediate || cause
            == RefreshCause::Timeline {
            pending
        } else {
            Some(PendingRefresh { cause, due_at_ms })
        },
        None => Some(PendingRefresh { cause, due_at_ms }),
    }
}

/// When the media worker next refreshes, on its millisecond clock: the
/// periodic refresh, a refresh that waits for its time, and the last
/// refresh of each kind (`None` before the first).
#[derive(Clone, Copy, Debug, PartialEq, Eq, Structural)]
pub struct MediaSchedule {
    pub next_fallback_ms: u64,
    pub pending: Option<PendingRefresh>,
    pub last_event_refresh_ms: Option<u64>,
    pub last_timeline_refresh_ms: Option<u64>,
}

/// What the media worker learns while it waits.
#[derive(Clone, Copy, Debug, PartialEq, Eq, Structural)]
pub enum WorkerEvent {
    /// A seek was asked for; it is carried out and the sessions read again.
    Seek,
    /// Windows reported a change: the cause that the notifier's flags held.
    Changed(Option<RefreshCause>),
    /// The wait ran out.
    Timeout,
    /// The worker is told to stop, or nobody can send it requests any more.
    Shutdown,
}

/// What the media worker does next.
#[derive(Clone, Copy, Debug, PartialEq, Eq, Structural)]
pub enum WorkerAction {
    /// Read the sessions and send the snapshot; then report with
    /// `MediaSchedule::refreshed`.
    Refresh,
    /// Wait for `MediaSchedule::timeout_ms`.
    Wait,
    /// End the worker.
    Stop,
}

/// The next refresh interval after a refresh that read the sessions (or found
/// none), or after one that failed.
pub open spec fn refresh_interval(succeeded: bool) -> u64 {
    if succeeded {
        FALLBACK_REFRESH_INTERVAL_MS
    } else {
        RECOVERY_REFRESH_INTERVAL_MS
    }
}

/// The schedule and the worker's action after an event at `now`.
pub open spec fn worker_next(s: MediaSchedule, event: WorkerEvent, now: u64) -> (
    MediaSchedule,
    WorkerAction,
) {
    match event {
        WorkerEvent::Seek => (MediaSchedule { pending: None, ..s }, WorkerAction::Refresh),
        WorkerEvent::Changed(Some(cause)) => (
            MediaSchedule {
                pending: merged(s.pending, cause, s.last_event_refresh_ms, s.last_timeline_refresh_ms),
                ..s
            },
            WorkerAction::Wait,
        ),
        WorkerEvent::Changed(None) => (s, WorkerAction::Wait),
        WorkerEvent::Timeout => match s.pending {
            Some(p) => if p.due_at_ms <= now {
                (
                    match p.cause {
                        RefreshCause::Immediate => MediaSchedule {
                            pending: None,
                            last_event_refresh_ms: Some(now),
                            ..s
                        },
                        RefreshCause::Timeline => MediaSchedule {
                            pending: None,
                            last_timeline_refresh_ms: Some(now),
                            ..s
                        },
                    },
                    WorkerAction::Refresh,
                )
            } else if s.next_fallback_ms <= now {
                (s, WorkerAction::Refresh)
            } else {
                (s, WorkerAction::Wait)
            },
            None => if s.next_fallback_ms <= now {
                (s, WorkerAction::Refresh)
            } else {
                (s, WorkerAction::Wait)
            },
        },
        WorkerEvent::Shutdown => (s, WorkerAction::Stop),
    }
}

/// How long the worker waits at `now`: until the earlier of the pending
/// refresh and the periodic one, and not at all when that has passed.
pub open spec fn wait_ms(s: MediaSchedule, now: u64) -> u64 {
    let deadline = match s.pending {
        Some(p) => if p.due_at_ms < s.next_fallback_ms {
            p.due_at_ms
        } else {
            s.next_fallback_ms
        },
        None => s.next_fallback_ms,
    };
    if deadline > now {
        (deadline - now) as u64
    } else {
        0
    }
}

/// Clock readings that the schedule can be kept on without overflow.
pub open spec fn clock_in_range(now: u64) -> bool {
    now <= u64::MAX - FALLBACK_REFRESH_INTERVAL_MS
}

impl MediaSchedule {
    /// Times that later events can be scheduled after.
    pub open spec fn wf(self) -> bool {
        &&& schedulable(self.last_event_refresh_ms, EVENT_REFRESH_INTERVAL_MS)
        &&& schedulable(self.last_timeline_refresh_ms, TIMELINE_REFRESH_INTERVAL_MS)
    }

    /// The schedule after the worker's first refresh at `now`: nothing was
    /// refreshed for an event yet.
    pub fn start(now_ms: u64, succeeded: bool) -> (r: Self)
        requires
            clock_in_range(now_ms),
        ensures
            r.wf(),
            r == (MediaSchedule {
                next_fallback_ms: (now_ms + refresh_interval(succeeded)) as u64,
                pending: None,
                last_event_refresh_ms: None,
                last_timeline_refresh_ms: None,
            }),
    {
        MediaSchedule {
            next_fallback_ms: now_ms + if succeeded {
                FALLBACK_REFRESH_INTERVAL_MS
            } else {
                RECOVERY_REFRESH_INTERVAL_MS
            },
            pending: None,
            last_event_refresh_ms: None,
            last_timeline_refresh_ms: None,
        }
    }

    /// How long the worker waits at `now`.
    pub fn timeout_ms(&self, now_ms: u64) -> (r: u64)
        ensures
            r == wait_ms(*self, now_ms),
    {
        let deadline = match self.pending {
            Some(p) => if p.due_at_ms < self.next_fallback_ms {
                p.due_at_ms
            } else {
                self.next_fallback_ms
            },
            None => self.next_fallback_ms,
        };
        if deadline > now_ms {
            deadline - now_ms
        } else {
            0
        }
    }

    /// Takes an event at `now` into the schedule and says what the worker
    /// does next.
    pub fn step(&mut self, event: WorkerEvent, now_ms: u64) -> (action: WorkerAction)
        requires
            old(self).wf(),
            clock_in_range(now_ms),
        ensures
            final(self).wf(),
            (*final(self), action) == worker_next(*old(self), event, now_ms),
    {
        match event {
            WorkerEvent::Seek => {
                self.pending = None;
                WorkerAction::Refresh
            },
            WorkerEvent::Changed(Some(cause)) => {
                self.pending = merge_refresh(
                    self.pending,
                    cause,
                    self.last_event_refresh_ms,
                    self.last_timeline_refresh_ms,
                );
                WorkerAction::Wait
            },
            WorkerEvent::Changed(None) => WorkerAction::Wait,
            WorkerEvent::Timeout => {
                match self.pending {
                    Some(p) => {
                        if p.due_at_ms <= now_ms {
                            match p.cause {
                                RefreshCause::Immediate => {
                                    self.last_event_refresh_ms = Some(now_ms);
                                },
                                RefreshCause::Timeline => {
                                    self.last_timeline_refresh_ms = Some(now_ms);
                                },
                            }
                            self.pending = None;
                            return WorkerAction::Refresh;
                        }
                    },
                    None => {},
                }
                if self.next_fallback_ms <= now_ms {
                    WorkerAction::Refresh
                } else {
                    WorkerAction::Wait
                }
            },
            WorkerEvent::Shutdown => WorkerAction::Stop,
        }
    }

    /// A refresh at `now` has read the sessions (or failed): the periodic
    /// refresh follows after the matching interval.
    pub fn refreshed(&mut self, now_ms: u64, succeeded: bool)
        requires
            clock_in_range(now_ms),
        ensures
            *final(self) == (MediaSchedule {
                next_fallback_ms: (now_ms + refresh_interval(succeeded)) as u64,
                ..*old(self)
            }),
    {
        self.next_fallback_ms = now_ms + if succeeded {
            FALLBACK_REFRESH_INTERVAL_MS
        } else {
            RECOVERY_REFRESH_INTERVAL_MS
        };
    }
}

/// A refresh that waits for its time is never dropped by further changes:
/// a pending one stays as it is, except that an immediate cause takes the
/// place of a pending timeline one; and a timeout from its time on
/// refreshes.
pub proof fn lemma_pending_refresh_happens(s: MediaSchedule, cause: Option<RefreshCause>, now: u64)
    requires
        s.pending is Some,
    ensures
        ({
            let after = worker_next(s, WorkerEvent::Changed(cause), now).0;
            &&& after.pending is Some
            &&& (after.pending->0.cause == RefreshCause::Immediate || after.pending == s.pending)
            &&& (s.pending->0.cause == RefreshCause::Immediate ==> after.pending == s.pending)
        }),
        s.pending->0.due_at_ms <= now ==> worker_next(s, WorkerEvent::Timeout, now).1
            == WorkerAction::Refresh && worker_next(s, WorkerEvent::Timeout, now).0.pending is None,
{
}

/// The worker waits exactly as long as nothing is due: a timeout at `now`
/// refreshes when the wait at `now` is zero, and only then.
pub proof fn lemma_wait_matches_step(s: MediaSchedule, now: u64)
    ensures
        (worker_next(s, WorkerEvent::Timeout, now).1 == WorkerAction::Refresh) <==> wait_ms(s, now)
            == 0,
        worker_next(s, WorkerEvent::Timeout, now).1 != WorkerAction::Stop,
{
}

} // verus!
