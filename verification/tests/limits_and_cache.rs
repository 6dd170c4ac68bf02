use anilist::cache::{expiry, lookup, Cache, CacheEntry};
use anilist::presence::{activity_kind, next_index, status_at, ActivityKind, PRESENCE_INTERVAL_SECS};
use anilist::rate_limit::{RateLimiter, TokenBucket};

const SEC: u128 = 1_000_000_000;

#[test]
fn a_full_bucket_lets_a_burst_through() {
    let mut b = TokenBucket::full(3, 60);
    assert!(b.take(0));
    assert!(b.take(0));
    assert!(b.take(0));
    assert!(!b.take(0));
    assert_eq!(b.level, 0);
}

#[test]
fn tokens_flow_back_over_the_window() {
    let mut b = TokenBucket::full(90, 60);
    for _ in 0..90 {
        assert!(b.take(0));
    }
    assert!(!b.take(0));
    // 90 per minute: one token every two thirds of a second
    assert!(!b.take(SEC / 2));
    assert!(b.take(SEC / 6 + 1));
    assert!(!b.take(0));
    // a long pause fills the bucket, but no further
    assert!(b.take(3600 * SEC));
    assert_eq!(b.level, 89 * 60 * SEC);
}

#[test]
fn a_zero_window_refills_at_once() {
    let mut b = TokenBucket::full(2, 0);
    assert!(b.take(0));
    assert!(b.take(0));
    assert!(b.take(0));
    let mut none = TokenBucket::full(0, 0);
    assert!(!none.take(SEC));
}

#[test]
fn the_limiter_refuses_with_a_message() {
    let mut r = RateLimiter::new(2, 60);
    assert!(r.check_after(0).is_ok());
    assert!(r.check_after(0).is_ok());
    assert_eq!(
        r.check_after(0),
        Err("AniList rate limit reached. Please try again in a few seconds.".to_string())
    );
    assert!(r.check_after(30 * SEC).is_ok());
}

#[test]
fn the_limiter_on_the_clock() {
    let mut r = RateLimiter::new(5, 600);
    for _ in 0..5 {
        assert!(r.check().is_ok());
    }
    assert!(r.check().is_err());
}

#[test]
fn cache_entries_expire() {
    assert_eq!(expiry(10, 2), 10 + 2 * SEC);
    assert_eq!(expiry(u128::MAX - 1, 1), u128::MAX);
    let e = CacheEntry { value: "{\"a\":1}".to_string(), expires_at: 100 };
    assert_eq!(lookup(Some(e.clone()), 99), Some("{\"a\":1}".to_string()));
    assert_eq!(lookup(Some(e), 100), None);
    assert_eq!(lookup(None, 0), None);
}

#[test]
fn the_cache_gives_back_what_was_stored() {
    let c = Cache::new(300);
    assert_eq!(c.get("anime:naruto"), None);
    c.set("anime:naruto".to_string(), "[1,2,3]".to_string());
    assert_eq!(c.get("anime:naruto"), Some("[1,2,3]".to_string()));
    c.set("anime:naruto".to_string(), "[4]".to_string());
    assert_eq!(c.get("anime:naruto"), Some("[4]".to_string()));
    c.set_with_ttl("stale".to_string(), "x".to_string(), 0);
    assert_eq!(c.get("stale"), None);
    c.set_with_ttl("fresh".to_string(), "y".to_string(), 60);
    assert_eq!(c.get("fresh"), Some("y".to_string()));
    let _ = c.entry_count();
}

#[test]
fn presence_rotation() {
    assert_eq!(status_at(0), ("watching", "anime on AniList"));
    assert_eq!(status_at(4), ("competing", "Best Anime of the Season"));
    assert_eq!(status_at(9), ("watching", "the seasonal chart"));
    assert_eq!(status_at(10), status_at(0));
    assert_eq!(status_at(23), status_at(3));
    assert_eq!(activity_kind("listening"), ActivityKind::Listening);
    assert_eq!(activity_kind("competing"), ActivityKind::Competing);
    assert_eq!(activity_kind("watching"), ActivityKind::Watching);
    assert_eq!(activity_kind("playing"), ActivityKind::Playing);
    assert_eq!(activity_kind("dancing"), ActivityKind::Playing);
    assert_eq!(next_index(3), 4);
    assert_eq!(next_index(usize::MAX), 0);
    assert_eq!(PRESENCE_INTERVAL_SECS, 30);
}

#[test]
fn throughput_never_beats_the_rate() {
    // 90 requests a minute, one attempt every 100 ms for ten minutes
    let mut b = TokenBucket::full(90, 60);
    let start = b.level;
    let mut allowed: u128 = 0;
    let step = SEC / 10;
    for _ in 0..6000 {
        if b.take(step) {
            allowed += 1;
        }
    }
    let unit = 60 * SEC;
    assert!(allowed * unit + b.level <= start + 6000 * step * 90);
    // 90 at once, then 90 a minute for the remaining time
    assert!(allowed >= 90 + 899 && allowed <= 90 + 900);
}

#[test]
fn the_limiter_over_a_run_of_calls() {
    // 90 a minute: all at once, the first 90 pass and the 91st is refused
    let mut r = RateLimiter::new(90, 60);
    for _ in 0..90 {
        assert_eq!(r.check_after(0), Ok(()));
    }
    assert_eq!(
        r.check_after(0),
        Err("AniList rate limit reached. Please try again in a few seconds.".to_string())
    );
    // then one call every second for a minute: no more than 90 pass
    let mut allowed = 0;
    for _ in 0..60 {
        if r.check_after(SEC).is_ok() {
            allowed += 1;
        }
    }
    assert!(allowed <= 90);
    assert_eq!(allowed, 60);
}

#[test]
fn checks_on_the_clock_spend_a_token_each() {
    // a limiter of 3 a minute: three checks in quick succession pass, the
    // fourth finds the bucket empty, as each refills only for the moment
    // since the one before
    let mut r = RateLimiter::new(3, 60);
    assert!(r.check().is_ok());
    assert!(r.check().is_ok());
    assert!(r.check().is_ok());
    assert_eq!(
        r.check(),
        Err("AniList rate limit reached. Please try again in a few seconds.".to_string())
    );
}

