//! The cache-policy state machine: it reconciles explicit-passage vs.
//! verse-of-the-day, cache enabled vs. disabled, freshness and forced
//! refresh into one deterministic fetch/cache plan. The machine only
//! decides; its driver performs each commanded operation and hands the
//! outcome back as the next event.

use vstd::prelude::*;
use crate::verse::{FetchError, Verse};

verus! {

/// Freshness window of the cached verse-of-the-day slot, in seconds
/// (six hours).
pub const CACHE_TTL_SECS: i64 = 21600;

/// `age <= ttl`: the slot's age, taken from its last-modified time, is
/// still within the freshness window.
pub fn is_fresh(age_secs: i64, ttl_secs: i64) -> (r: bool)
    ensures
        r == (age_secs <= ttl_secs),
{
    age_secs <= ttl_secs
}

/// What probing the cache slot found.
#[derive(Debug, Clone, Copy, PartialEq, Eq)]
pub enum CacheStatus {
    /// No cache location could be determined; caching is off for this run.
    Unavailable,
    /// A location exists but the slot file does not.
    Missing,
    /// The slot exists and is this many seconds old.
    AgeSecs(i64),
}

/// The caller's intent for one invocation.
#[derive(Debug, Clone, Copy, PartialEq, Eq, Structural)]
pub struct Intent {
    /// A passage was named explicitly; absence means verse-of-the-day.
    pub explicit_passage: bool,
    /// Cache reads and writes are permitted at all.
    pub caching_enabled: bool,
    /// The verse-of-the-day must be re-fetched even if the slot is fresh.
    pub force_refresh: bool,
}

/// The next outside operation the driver must perform.
#[derive(Debug, PartialEq, Eq)]
pub enum Command {
    /// Determine the cache slot's status.
    ProbeCache,
    /// Deserialize the cache slot.
    ReadCache,
    /// Perform the one network fetch.
    FetchRemote,
    /// Overwrite the cache slot with the verse just fetched (best effort).
    WriteCache,
    /// Resolution is complete with this outcome.
    Done(Result<Verse, FetchError>),
}

/// Which outcome the machine is waiting for.
#[derive(Debug, PartialEq, Eq)]
pub enum Phase {
    AwaitProbe,
    AwaitRead,
    AwaitFetch { write_back: bool },
    /// Holds the fetched verse while its write-back is in flight.
    AwaitWrite { verse: Verse },
    Finished,
}

/// The outcome of the operation last commanded.
#[derive(Debug, PartialEq, Eq)]
pub enum Event {
    Probed(CacheStatus),
    /// `None` when the slot's bytes did not deserialize (a corrupt slot).
    ReadDone(Option<Verse>),
    FetchDone(Result<Verse, FetchError>),
    /// Whether the write-back succeeded; failure is absorbed either way.
    WriteDone(bool),
}

/// A slot that may be served without a fetch: it exists, is within the
/// freshness window, and no refresh was forced.
pub open spec fn slot_usable(status: CacheStatus, force_refresh: bool) -> bool {
    match status {
        CacheStatus::AgeSecs(age) => age <= CACHE_TTL_SECS && !force_refresh,
        _ => false,
    }
}

/// The machine's first phase and command: the cache is consulted only on
/// the verse-of-the-day path with caching enabled; every other run starts
/// with the fetch and never touches the slot.
pub open spec fn spec_start(intent: Intent) -> (Phase, Command) {
    if intent.explicit_passage || !intent.caching_enabled {
        (Phase::AwaitFetch { write_back: false }, Command::FetchRemote)
    } else {
        (Phase::AwaitProbe, Command::ProbeCache)
    }
}

/// One transition: from the phase awaiting this event to the next phase
/// and command.
pub open spec fn spec_step(intent: Intent, phase: Phase, event: Event) -> (Phase, Command) {
    match (phase, event) {
        (Phase::AwaitProbe, Event::Probed(status)) => {
            if slot_usable(status, intent.force_refresh) {
                (Phase::AwaitRead, Command::ReadCache)
            } else if status is Unavailable {
                (Phase::AwaitFetch { write_back: false }, Command::FetchRemote)
            } else {
                (Phase::AwaitFetch { write_back: true }, Command::FetchRemote)
            }
        },
        (Phase::AwaitRead, Event::ReadDone(Some(v))) => (
            Phase::Finished,
            Command::Done(Ok(v)),
        ),
        (Phase::AwaitRead, Event::ReadDone(None)) => (
            Phase::AwaitFetch { write_back: true },
            Command::FetchRemote,
        ),
        (Phase::AwaitFetch { write_back }, Event::FetchDone(Ok(v))) => {
            if write_back {
                (Phase::AwaitWrite { verse: v }, Command::WriteCache)
            } else {
                (Phase::Finished, Command::Done(Ok(v)))
            }
        },
        (Phase::AwaitFetch { .. }, Event::FetchDone(Err(e))) => (
            Phase::Finished,
            Command::Done(Err(e)),
        ),
        (Phase::AwaitWrite { verse }, Event::WriteDone(_)) => (
            Phase::Finished,
            Command::Done(Ok(verse)),
        ),
        _ => (Phase::Finished, Command::Done(Err(FetchError::ConnectionFailed))),
    }
}

/// The event answers the phase's pending command.
pub open spec fn expects(phase: Phase, event: Event) -> bool {
    match (phase, event) {
        (Phase::AwaitProbe, Event::Probed(_)) => true,
        (Phase::AwaitRead, Event::ReadDone(_)) => true,
        (Phase::AwaitFetch { .. }, Event::FetchDone(_)) => true,
        (Phase::AwaitWrite { .. }, Event::WriteDone(_)) => true,
        _ => false,
    }
}

/// The resolver: the intent, fixed for the invocation, and the phase the
/// resolution has reached.
#[derive(Debug, PartialEq, Eq)]
pub struct Resolver {
    pub intent: Intent,
    pub phase: Phase,
}

impl Resolver {
    /// Begin a resolution, yielding the machine and its first command.
    pub fn start(intent: Intent) -> (r: (Resolver, Command))
        ensures
            r.0.intent == intent,
            (r.0.phase, r.1) == spec_start(intent),
    {
        if intent.explicit_passage || !intent.caching_enabled {
            (
                Resolver { intent, phase: Phase::AwaitFetch { write_back: false } },
                Command::FetchRemote,
            )
        } else {
            (Resolver { intent, phase: Phase::AwaitProbe }, Command::ProbeCache)
        }
    }

    /// Consume the outcome of the last command and yield the next command.
    pub fn step(self, event: Event) -> (r: (Resolver, Command))
        requires
            expects(self.phase, event),
        ensures
            r.0.intent == self.intent,
            (r.0.phase, r.1) == spec_step(self.intent, self.phase, event),
    {
        let Resolver { intent, phase } = self;
        match (phase, event) {
            (Phase::AwaitProbe, Event::Probed(status)) => {
                let usable = match status {
                    CacheStatus::AgeSecs(age) => is_fresh(age, CACHE_TTL_SECS)
                        && !intent.force_refresh,
                    _ => false,
                };
                if usable {
                    (Resolver { intent, phase: Phase::AwaitRead }, Command::ReadCache)
                } else {
                    let write_back = !matches!(status, CacheStatus::Unavailable);
                    (
                        Resolver { intent, phase: Phase::AwaitFetch { write_back } },
                        Command::FetchRemote,
                    )
                }
            },
            (Phase::AwaitRead, Event::ReadDone(Some(v))) => (
                Resolver { intent, phase: Phase::Finished },
                Command::Done(Ok(v)),
            ),
            (Phase::AwaitRead, Event::ReadDone(None)) => (
                Resolver { intent, phase: Phase::AwaitFetch { write_back: true } },
                Command::FetchRemote,
            ),
            (Phase::AwaitFetch { write_back }, Event::FetchDone(Ok(v))) => {
                if write_back {
                    (Resolver { intent, phase: Phase::AwaitWrite { verse: v } }, Command::WriteCache)
                } else {
                    (Resolver { intent, phase: Phase::Finished }, Command::Done(Ok(v)))
                }
            },
            (Phase::AwaitFetch { .. }, Event::FetchDone(Err(e))) => (
                Resolver { intent, phase: Phase::Finished },
                Command::Done(Err(e)),
            ),
            (Phase::AwaitWrite { verse }, Event::WriteDone(_)) => (
                Resolver { intent, phase: Phase::Finished },
                Command::Done(Ok(verse)),
            ),
            _ => (
                Resolver { intent, phase: Phase::Finished },
                Command::Done(Err(FetchError::ConnectionFailed)),
            ),
        }
    }
}

/// A fresh, readable slot on the verse-of-the-day path is served as it is:
/// the whole run commands a probe, a read and nothing else — no fetch and
/// no write — and returns the cached verse.
pub proof fn law_fresh_cache_hit(intent: Intent, age: i64, v: Verse)
    requires
        !intent.explicit_passage,
        intent.caching_enabled,
        !intent.force_refresh,
        age <= CACHE_TTL_SECS,
    ensures
        ({
            let (p0, c0) = spec_start(intent);
            let (p1, c1) = spec_step(intent, p0, Event::Probed(CacheStatus::AgeSecs(age)));
            let (p2, c2) = spec_step(intent, p1, Event::ReadDone(Some(v)));
            c0 == Command::ProbeCache && c1 == Command::ReadCache && c2 == Command::Done(
                Result::<Verse, FetchError>::Ok(v),
            ) && p2 == Phase::Finished
        }),
{
}

/// A stale, missing or force-refreshed slot costs exactly one fetch, and a
/// successful fetch is written back before the fetched verse is returned.
pub proof fn law_stale_slot_refetched(intent: Intent, status: CacheStatus, v: Verse, wrote: bool)
    requires
        !intent.explicit_passage,
        intent.caching_enabled,
        !slot_usable(status, intent.force_refresh),
        !(status is Unavailable),
    ensures
        ({
            let (p0, c0) = spec_start(intent);
            let (p1, c1) = spec_step(intent, p0, Event::Probed(status));
            let (p2, c2) = spec_step(intent, p1, Event::FetchDone(Ok(v)));
            let (p3, c3) = spec_step(intent, p2, Event::WriteDone(wrote));
            c0 == Command::ProbeCache && c1 == Command::FetchRemote && c2 == Command::WriteCache
                && p2 == (Phase::AwaitWrite { verse: v }) && c3 == Command::Done(
                Result::<Verse, FetchError>::Ok(v),
            ) && p3 == Phase::Finished
        }),
{
}

/// A slot whose bytes do not deserialize is treated as a miss, never as an
/// error: the run falls through to one fetch and a write-back.
pub proof fn law_corrupt_slot_is_miss(intent: Intent, age: i64, v: Verse, wrote: bool)
    requires
        !intent.explicit_passage,
        intent.caching_enabled,
        !intent.force_refresh,
        age <= CACHE_TTL_SECS,
    ensures
        ({
            let (p0, c0) = spec_start(intent);
            let (p1, c1) = spec_step(intent, p0, Event::Probed(CacheStatus::AgeSecs(age)));
            let (p2, c2) = spec_step(intent, p1, Event::ReadDone(None));
            let (p3, c3) = spec_step(intent, p2, Event::FetchDone(Ok(v)));
            let (p4, c4) = spec_step(intent, p3, Event::WriteDone(wrote));
            c1 == Command::ReadCache && c2 == Command::FetchRemote && c3 == Command::WriteCache
                && p3 == (Phase::AwaitWrite { verse: v }) && c4 == Command::Done(
                Result::<Verse, FetchError>::Ok(v),
            ) && p4 == Phase::Finished
        }),
{
}

/// With caching disabled the whole run is one fetch: no probe, no read and
/// no write, whatever the slot's freshness, and the fetch outcome is
/// returned as it is.
pub proof fn law_caching_disabled_no_cache_io(intent: Intent, outcome: Result<Verse, FetchError>)
    requires
        !intent.caching_enabled,
    ensures
        ({
            let (p0, c0) = spec_start(intent);
            let (p1, c1) = spec_step(intent, p0, Event::FetchDone(outcome));
            c0 == Command::FetchRemote && c1 == Command::Done(outcome) && p1 == Phase::Finished
        }),
{
}

/// An explicitly named passage is always fetched and never read from or
/// written to the cache slot, whatever the slot holds.
pub proof fn law_explicit_passage_no_cache_io(intent: Intent, outcome: Result<Verse, FetchError>)
    requires
        intent.explicit_passage,
    ensures
        ({
            let (p0, c0) = spec_start(intent);
            let (p1, c1) = spec_step(intent, p0, Event::FetchDone(outcome));
            c0 == Command::FetchRemote && c1 == Command::Done(outcome) && p1 == Phase::Finished
        }),
{
}

/// No cache location means caching is off for the run: the fetch still
/// happens, but nothing is written back even on success.
pub proof fn law_unavailable_location_no_write(intent: Intent, outcome: Result<Verse, FetchError>)
    requires
        !intent.explicit_passage,
        intent.caching_enabled,
    ensures
        ({
            let (p0, c0) = spec_start(intent);
            let (p1, c1) = spec_step(intent, p0, Event::Probed(CacheStatus::Unavailable));
            let (p2, c2) = spec_step(intent, p1, Event::FetchDone(outcome));
            c1 == Command::FetchRemote && c2 == Command::Done(outcome) && p2 == Phase::Finished
        }),
{
}

/// A finished resolution accepts no further event, so nothing more can be
/// commanded after `Done`.
pub proof fn law_finished_is_final(event: Event)
    ensures
        !expects(Phase::Finished, event),
{
}

/// A failed fetch ends the run with that error and commands no write.
pub proof fn law_fetch_error_no_write(intent: Intent, write_back: bool, e: FetchError)
    ensures
        spec_step(intent, Phase::AwaitFetch { write_back }, Event::FetchDone(Err(e))) == (
            Phase::Finished,
            Command::Done(Result::<Verse, FetchError>::Err(e)),
        ),
{
}

/// The phase the machine is in after consuming a sequence of events.
pub open spec fn run_phase(intent: Intent, events: Seq<Event>) -> Phase
    decreases events.len(),
{
    if events.len() == 0 {
        spec_start(intent).0
    } else {
        spec_step(intent, run_phase(intent, events.drop_last()), events.last()).0
    }
}

/// Every event of the sequence answers the phase the machine was then in.
pub open spec fn valid_run(intent: Intent, events: Seq<Event>) -> bool
    decreases events.len(),
{
    if events.len() == 0 {
        true
    } else {
        valid_run(intent, events.drop_last()) && expects(
            run_phase(intent, events.drop_last()),
            events.last(),
        )
    }
}

/// Every command such a run issues: the starting one, then one per event.
pub open spec fn run_commands(intent: Intent, events: Seq<Event>) -> Seq<Command>
    decreases events.len(),
{
    if events.len() == 0 {
        seq![spec_start(intent).1]
    } else {
        run_commands(intent, events.drop_last()).push(
            spec_step(intent, run_phase(intent, events.drop_last()), events.last()).1,
        )
    }
}

/// How many of the commands are the network fetch.
pub open spec fn fetch_count(cs: Seq<Command>) -> int
    decreases cs.len(),
{
    if cs.len() == 0 {
        0int
    } else {
        fetch_count(cs.drop_last()) + if cs.last() is FetchRemote {
            1int
        } else {
            0int
        }
    }
}

/// How many of the commands probe the cache slot.
pub open spec fn probe_count(cs: Seq<Command>) -> int
    decreases cs.len(),
{
    if cs.len() == 0 {
        0int
    } else {
        probe_count(cs.drop_last()) + if cs.last() is ProbeCache {
            1int
        } else {
            0int
        }
    }
}

/// How many of the commands read the cache slot.
pub open spec fn read_count(cs: Seq<Command>) -> int
    decreases cs.len(),
{
    if cs.len() == 0 {
        0int
    } else {
        read_count(cs.drop_last()) + if cs.last() is ReadCache {
            1int
        } else {
            0int
        }
    }
}

/// How many of the commands write the cache slot.
pub open spec fn write_count(cs: Seq<Command>) -> int
    decreases cs.len(),
{
    if cs.len() == 0 {
        0int
    } else {
        write_count(cs.drop_last()) + if cs.last() is WriteCache {
            1int
        } else {
            0int
        }
    }
}

proof fn lemma_counts_push(cs: Seq<Command>, c: Command)
    ensures
        fetch_count(cs.push(c)) == fetch_count(cs) + if c is FetchRemote {
            1int
        } else {
            0int
        },
        probe_count(cs.push(c)) == probe_count(cs) + if c is ProbeCache {
            1int
        } else {
            0int
        },
        read_count(cs.push(c)) == read_count(cs) + if c is ReadCache {
            1int
        } else {
            0int
        },
        write_count(cs.push(c)) == write_count(cs) + if c is WriteCache {
            1int
        } else {
            0int
        },
{
    assert(cs.push(c).drop_last() =~= cs);
    assert(cs.push(c).last() == c);
}

/// The operation counts a run has accumulated, pinned by the phase it has
/// reached: a fetch is commanded exactly once on every path that leaves the
/// cache behind, a read at most once, a write only while one is in flight.
pub open spec fn run_counts_fit_phase(intent: Intent, events: Seq<Event>) -> bool {
    let cs = run_commands(intent, events);
    match run_phase(intent, events) {
        Phase::AwaitProbe => fetch_count(cs) == 0 && read_count(cs) == 0 && write_count(cs) == 0,
        Phase::AwaitRead => fetch_count(cs) == 0 && read_count(cs) == 1 && write_count(cs) == 0,
        Phase::AwaitFetch { .. } => fetch_count(cs) == 1 && read_count(cs) <= 1 && write_count(cs)
            == 0,
        Phase::AwaitWrite { .. } => fetch_count(cs) == 1 && read_count(cs) <= 1 && write_count(cs)
            == 1,
        Phase::Finished => fetch_count(cs) <= 1 && read_count(cs) <= 1 && write_count(cs) <= 1,
    }
}

proof fn lemma_run_counts_fit_phase(intent: Intent, events: Seq<Event>)
    requires
        valid_run(intent, events),
    ensures
        run_counts_fit_phase(intent, events),
    decreases events.len(),
{
    let cs = run_commands(intent, events);
    if events.len() == 0 {
        assert(cs =~= Seq::<Command>::empty().push(spec_start(intent).1));
        lemma_counts_push(Seq::<Command>::empty(), spec_start(intent).1);
    } else {
        let prior = events.drop_last();
        lemma_run_counts_fit_phase(intent, prior);
        let last_cmd = spec_step(intent, run_phase(intent, prior), events.last()).1;
        lemma_counts_push(run_commands(intent, prior), last_cmd);
    }
}

/// However a resolution unfolds, it performs at most one network fetch, at
/// most one cache read and at most one cache write.
pub proof fn law_at_most_one_of_each(intent: Intent, events: Seq<Event>)
    requires
        valid_run(intent, events),
    ensures
        fetch_count(run_commands(intent, events)) <= 1,
        read_count(run_commands(intent, events)) <= 1,
        write_count(run_commands(intent, events)) <= 1,
{
    lemma_run_counts_fit_phase(intent, events);
}

/// A run for an explicitly named passage, or with caching disabled, never
/// commands a cache probe, read or write, however it unfolds.
pub proof fn law_cacheless_run_no_cache_io(intent: Intent, events: Seq<Event>)
    requires
        valid_run(intent, events),
        intent.explicit_passage || !intent.caching_enabled,
    ensures
        probe_count(run_commands(intent, events)) == 0,
        read_count(run_commands(intent, events)) == 0,
        write_count(run_commands(intent, events)) == 0,
        run_phase(intent, events) == (Phase::AwaitFetch { write_back: false }) || run_phase(
            intent,
            events,
        ) == Phase::Finished,
    decreases events.len(),
{
    let cs = run_commands(intent, events);
    if events.len() == 0 {
        assert(cs =~= Seq::<Command>::empty().push(spec_start(intent).1));
        lemma_counts_push(Seq::<Command>::empty(), spec_start(intent).1);
    } else {
        let prior = events.drop_last();
        law_cacheless_run_no_cache_io(intent, prior);
        let last_cmd = spec_step(intent, run_phase(intent, prior), events.last()).1;
        lemma_counts_push(run_commands(intent, prior), last_cmd);
    }
}

} // verus!

