use votd_cli::resolver::{
    is_fresh, CacheStatus, Command, Event, Intent, Phase, Resolver, CACHE_TTL_SECS,
};
use votd_cli::verse::{FetchError, Verse};

fn verse(title: &str, text: &str) -> Verse {
    Verse { title: title.to_string(), text: text.to_string() }
}

fn votd_intent() -> Intent {
    Intent { explicit_passage: false, caching_enabled: true, force_refresh: false }
}

#[test]
fn freshness_boundary_is_inclusive() {
    assert!(is_fresh(0, CACHE_TTL_SECS));
    assert!(is_fresh(21600, CACHE_TTL_SECS));
    assert!(!is_fresh(21601, CACHE_TTL_SECS));
    // a slot modified "in the future" has a negative age and counts as fresh
    assert!(is_fresh(-5, CACHE_TTL_SECS));
}

#[test]
fn fresh_slot_served_without_fetch_or_write() {
    let (r, c0) = Resolver::start(votd_intent());
    assert_eq!(c0, Command::ProbeCache);
    let (r, c1) = r.step(Event::Probed(CacheStatus::AgeSecs(3600)));
    assert_eq!(c1, Command::ReadCache);
    let cached = verse("John 3:16", "For God so loved...");
    let (r, c2) = r.step(Event::ReadDone(Some(cached.clone())));
    assert_eq!(c2, Command::Done(Ok(cached)));
    assert_eq!(r.phase, Phase::Finished);
}

#[test]
fn stale_slot_fetches_once_and_writes_back() {
    // a seven-hour-old slot plus a successful fetch: one fetch, one write,
    // and the freshly fetched verse comes back
    let (r, c0) = Resolver::start(votd_intent());
    assert_eq!(c0, Command::ProbeCache);
    let (r, c1) = r.step(Event::Probed(CacheStatus::AgeSecs(25200)));
    assert_eq!(c1, Command::FetchRemote);
    let fetched = verse("Psalms 23:1", "The Lord is my shepherd...");
    let (r, c2) = r.step(Event::FetchDone(Ok(fetched.clone())));
    assert_eq!(c2, Command::WriteCache);
    let (r, c3) = r.step(Event::WriteDone(true));
    assert_eq!(c3, Command::Done(Ok(fetched)));
    assert_eq!(r.phase, Phase::Finished);
}

#[test]
fn missing_slot_fetches_and_writes_back() {
    let (r, _) = Resolver::start(votd_intent());
    let (r, c1) = r.step(Event::Probed(CacheStatus::Missing));
    assert_eq!(c1, Command::FetchRemote);
    let fetched = verse("John 3:16", "text");
    let (_, c2) = r.step(Event::FetchDone(Ok(fetched)));
    assert_eq!(c2, Command::WriteCache);
}

#[test]
fn corrupt_slot_treated_as_miss() {
    let (r, _) = Resolver::start(votd_intent());
    let (r, c1) = r.step(Event::Probed(CacheStatus::AgeSecs(10)));
    assert_eq!(c1, Command::ReadCache);
    let (r, c2) = r.step(Event::ReadDone(None));
    assert_eq!(c2, Command::FetchRemote);
    let fetched = verse("John 3:16", "text");
    let (r, c3) = r.step(Event::FetchDone(Ok(fetched.clone())));
    assert_eq!(c3, Command::WriteCache);
    let (_, c4) = r.step(Event::WriteDone(true));
    assert_eq!(c4, Command::Done(Ok(fetched)));
}

#[test]
fn forced_refresh_skips_fresh_slot() {
    let intent = Intent { explicit_passage: false, caching_enabled: true, force_refresh: true };
    let (r, c0) = Resolver::start(intent);
    assert_eq!(c0, Command::ProbeCache);
    let (r, c1) = r.step(Event::Probed(CacheStatus::AgeSecs(60)));
    assert_eq!(c1, Command::FetchRemote);
    let fetched = verse("John 3:16", "text");
    let (_, c2) = r.step(Event::FetchDone(Ok(fetched)));
    assert_eq!(c2, Command::WriteCache);
}

#[test]
fn caching_disabled_means_no_cache_io() {
    let intent = Intent { explicit_passage: false, caching_enabled: false, force_refresh: false };
    let (r, c0) = Resolver::start(intent);
    assert_eq!(c0, Command::FetchRemote);
    let fetched = verse("John 3:16", "text");
    let (r, c1) = r.step(Event::FetchDone(Ok(fetched.clone())));
    assert_eq!(c1, Command::Done(Ok(fetched)));
    assert_eq!(r.phase, Phase::Finished);
}

#[test]
fn explicit_passage_never_touches_cache() {
    let intent = Intent { explicit_passage: true, caching_enabled: true, force_refresh: false };
    let (r, c0) = Resolver::start(intent);
    assert_eq!(c0, Command::FetchRemote);
    let fetched = verse("John 3:16", "For God so loved...");
    let (r, c1) = r.step(Event::FetchDone(Ok(fetched.clone())));
    assert_eq!(c1, Command::Done(Ok(fetched)));
    assert_eq!(r.phase, Phase::Finished);
}

#[test]
fn unavailable_location_fetches_without_write() {
    let (r, _) = Resolver::start(votd_intent());
    let (r, c1) = r.step(Event::Probed(CacheStatus::Unavailable));
    assert_eq!(c1, Command::FetchRemote);
    let fetched = verse("John 3:16", "text");
    let (r, c2) = r.step(Event::FetchDone(Ok(fetched.clone())));
    assert_eq!(c2, Command::Done(Ok(fetched)));
    assert_eq!(r.phase, Phase::Finished);
}

#[test]
fn fetch_failure_ends_run_without_write() {
    // an empty remote response on the verse-of-the-day path: the error is
    // surfaced and no cache write is commanded
    let (r, _) = Resolver::start(votd_intent());
    let (r, c1) = r.step(Event::Probed(CacheStatus::Missing));
    assert_eq!(c1, Command::FetchRemote);
    let (r, c2) = r.step(Event::FetchDone(Err(FetchError::Empty)));
    assert_eq!(c2, Command::Done(Err(FetchError::Empty)));
    assert_eq!(r.phase, Phase::Finished);
}

#[test]
fn fresh_boundary_age_still_served_from_cache() {
    let (r, _) = Resolver::start(votd_intent());
    let (_, c1) = r.step(Event::Probed(CacheStatus::AgeSecs(21600)));
    assert_eq!(c1, Command::ReadCache);
    let (r, _) = Resolver::start(votd_intent());
    let (_, c1) = r.step(Event::Probed(CacheStatus::AgeSecs(21601)));
    assert_eq!(c1, Command::FetchRemote);
}

#[test]
fn write_failure_still_returns_fetched_verse() {
    let (r, _) = Resolver::start(votd_intent());
    let (r, _) = r.step(Event::Probed(CacheStatus::Missing));
    let fetched = verse("John 3:16", "text");
    let (r, c2) = r.step(Event::FetchDone(Ok(fetched.clone())));
    assert_eq!(c2, Command::WriteCache);
    let (r, c3) = r.step(Event::WriteDone(false));
    assert_eq!(c3, Command::Done(Ok(fetched)));
    assert_eq!(r.phase, Phase::Finished);
}
