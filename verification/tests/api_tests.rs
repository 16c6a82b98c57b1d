use dota2_tui::api::{
    after_recent_matches, log_error_line, log_fallback_line, log_stale_line, log_status_line,
    log_wait_line, transport_retryable, MatchesStep,
};
use dota2_tui::api::{
    backoff, build_cache_key, hero_constants_url, heroes_url, index_hero_constants,
    index_hero_names, index_item_constants, item_constants_url, match_detail_url,
    matches_fallback_query, matches_url, profile_url, recent_matches_url, Attempt, Cache, Fetch,
    FetchError, Next, RateLimiter,
};
use dota2_tui::models::{HeroConstant, HeroStat, ItemConstant};

#[test]
fn backoff_is_fixed_per_attempt() {
    assert_eq!(backoff(1), 200);
    assert_eq!(backoff(2), 500);
    assert_eq!(backoff(3), 900);
    assert_eq!(backoff(0), 900);
    assert_eq!(backoff(u32::MAX), 900);
}

#[test]
fn cache_key_without_query_is_the_url() {
    assert_eq!(build_cache_key("https://api/x", None), "https://api/x");
}

#[test]
fn cache_key_with_empty_query_ends_in_question_mark() {
    let query: Vec<(&str, String)> = Vec::new();
    assert_eq!(build_cache_key("https://api/x", Some(&query)), "https://api/x?");
}

#[test]
fn cache_key_sorts_parameters() {
    let query = vec![("limit", "20".to_string()), ("significant", "0".to_string())];
    assert_eq!(
        build_cache_key("https://api/players/1/matches", Some(&query)),
        "https://api/players/1/matches?limit=20&significant=0"
    );
    let reversed = vec![("significant", "0".to_string()), ("limit", "20".to_string())];
    assert_eq!(
        build_cache_key("https://api/players/1/matches", Some(&reversed)),
        "https://api/players/1/matches?limit=20&significant=0"
    );
}

#[test]
fn cache_key_is_stable_under_reordering() {
    let first = vec![("b", "2".to_string()), ("a", "1".to_string())];
    let second = vec![("a", "1".to_string()), ("b", "2".to_string())];
    let url = "https://api.opendota.com/api/players/1";
    assert_eq!(build_cache_key(url, Some(&first)), build_cache_key(url, Some(&second)));
    assert_eq!(build_cache_key(url, Some(&first)), format!("{url}?a=1&b=2"));
}

#[test]
fn cache_key_orders_by_whole_pair_and_keeps_duplicates() {
    let query = vec![
        ("a", "2".to_string()),
        ("a", "10".to_string()),
        ("B", "x".to_string()),
        ("a", "2".to_string()),
        ("ab", "".to_string()),
    ];
    assert_eq!(build_cache_key("u", Some(&query)), "u?B=x&a=10&a=2&a=2&ab=");
}

#[test]
fn cache_entry_is_fresh_within_ttl_and_stale_after() {
    let mut cache = Cache::new(4, 1_000);
    cache.set("k".to_string(), vec![1, 2, 3], 5_000);
    assert_eq!(cache.get("k", 5_000), Some((vec![1, 2, 3], true)));
    assert_eq!(cache.get("k", 5_999), Some((vec![1, 2, 3], true)));
    assert_eq!(cache.get("k", 6_000), Some((vec![1, 2, 3], true)));
    assert_eq!(cache.get("k", 6_001), Some((vec![1, 2, 3], false)));
    assert_eq!(cache.get("k", u64::MAX), Some((vec![1, 2, 3], false)));
    assert_eq!(cache.get("other", 5_000), None);
}

#[test]
fn cache_read_before_the_write_time_counts_as_fresh() {
    let mut cache = Cache::new(4, 10);
    cache.set("k".to_string(), vec![9], 5_000);
    assert_eq!(cache.get("k", 1), Some((vec![9], true)));
}

#[test]
fn cache_with_zero_ttl_is_fresh_only_at_the_write_time() {
    let mut cache = Cache::new(4, 0);
    cache.set("k".to_string(), vec![9], 7);
    assert_eq!(cache.get("k", 7), Some((vec![9], true)));
    assert_eq!(cache.get("k", 8), Some((vec![9], false)));
}

#[test]
fn cache_evicts_least_recently_written() {
    let max = 3usize;
    let extra = 2usize;
    let mut cache = Cache::new(max, 1_000);
    for i in 0..(max + extra) {
        cache.set(format!("key{i}"), vec![i as u8], i as u64);
    }
    assert_eq!(cache.len(), max);
    assert!(!cache.contains_key("key0"));
    assert!(!cache.contains_key("key1"));
    assert!(cache.contains_key("key2"));
    assert!(cache.contains_key("key3"));
    assert!(cache.contains_key("key4"));
    assert_eq!(cache.get("key4", 4), Some((vec![4], true)));
}

#[test]
fn cache_overwrite_refreshes_and_moves_to_front() {
    let mut cache = Cache::new(2, 100);
    cache.set("a".to_string(), vec![1], 0);
    cache.set("b".to_string(), vec![2], 1);
    cache.set("a".to_string(), vec![3], 500);
    assert_eq!(cache.len(), 2);
    assert_eq!(cache.get("a", 550), Some((vec![3], true)));
    cache.set("c".to_string(), vec![4], 501);
    assert!(cache.contains_key("a"));
    assert!(!cache.contains_key("b"));
    assert!(cache.contains_key("c"));
}

#[test]
fn cache_reads_do_not_protect_from_eviction() {
    let mut cache = Cache::new(2, 100);
    cache.set("a".to_string(), vec![1], 0);
    cache.set("b".to_string(), vec![2], 1);
    assert!(cache.get("a", 2).is_some());
    cache.set("c".to_string(), vec![3], 3);
    assert!(!cache.contains_key("a"));
    assert!(cache.contains_key("b"));
}

#[test]
fn cache_of_no_entries_keeps_nothing() {
    let mut cache = Cache::new(0, 100);
    cache.set("a".to_string(), vec![1], 0);
    assert_eq!(cache.len(), 0);
    assert_eq!(cache.get("a", 0), None);
}

#[test]
fn rate_limiter_bursts_then_throttles() {
    let per_minute = 5u32;
    let mut limiter = RateLimiter::new(per_minute, 1_000);
    for i in 0..per_minute {
        assert_eq!(limiter.acquire(1_000 + i as u64), None);
    }
    assert_eq!(limiter.tokens(), 0);
    assert_eq!(limiter.acquire(1_010), Some(59_990));
    assert_eq!(limiter.tokens(), 0);
    limiter.refill(61_000);
    assert_eq!(limiter.tokens(), per_minute);
    assert_eq!(limiter.acquire(61_000), None);
    assert_eq!(limiter.tokens(), per_minute - 1);
}

#[test]
fn rate_limiter_refills_after_a_window() {
    let mut limiter = RateLimiter::new(2, 0);
    assert_eq!(limiter.acquire(0), None);
    assert_eq!(limiter.acquire(1), None);
    assert_eq!(limiter.acquire(59_999), Some(1));
    assert_eq!(limiter.acquire(60_000), None);
    assert_eq!(limiter.tokens(), 1);
    limiter.refill(60_001);
    assert_eq!(limiter.tokens(), 1);
}

#[test]
fn rate_limiter_with_no_quota_always_waits() {
    let mut limiter = RateLimiter::new(0, 100);
    assert_eq!(limiter.acquire(100), Some(60_000));
    assert_eq!(limiter.acquire(30_100), Some(30_000));
    assert_eq!(limiter.acquire(60_100), Some(60_000));
    assert_eq!(limiter.per_minute(), 0);
}

#[test]
fn rate_limiter_tolerates_a_clock_that_reads_earlier() {
    let mut limiter = RateLimiter::new(1, 5_000);
    assert_eq!(limiter.acquire(4_000), None);
    assert_eq!(limiter.acquire(3_000), Some(60_000));
}

fn transport(retryable: bool) -> Attempt {
    Attempt::Transport { retryable, message: "timed out".to_string() }
}

#[test]
fn fetch_serves_fresh_hit_without_sending() {
    let (fetch, next) = Fetch::begin(Some((vec![7, 7], true)));
    assert!(matches!(next, Next::Fresh { payload } if payload == vec![7, 7]));
    assert_eq!(fetch.attempts_made(), 0);
}

#[test]
fn fetch_retries_then_serves_stale() {
    let (mut fetch, next) = Fetch::begin(Some((vec![1, 2], false)));
    assert!(matches!(next, Next::Send));
    let next = fetch.on_attempt(transport(true));
    assert!(matches!(next, Next::Retry { millis: 200 }));
    let next = fetch.on_attempt(transport(true));
    assert!(matches!(next, Next::Stale { payload } if payload == vec![1, 2]));
    assert_eq!(fetch.attempts_made(), 2);
}

#[test]
fn fetch_retries_then_fails_without_cache() {
    let (mut fetch, next) = Fetch::begin(None);
    assert!(matches!(next, Next::Send));
    let next = fetch.on_attempt(transport(true));
    assert!(matches!(next, Next::Retry { millis: 200 }));
    let next = fetch.on_attempt(transport(true));
    assert!(
        matches!(next, Next::Fail { error: FetchError::Transport { message } } if message == "timed out")
    );
    assert_eq!(fetch.attempts_made(), 2);
}

#[test]
fn fetch_retries_bad_status_once() {
    let (mut fetch, _) = Fetch::begin(None);
    assert!(matches!(fetch.on_attempt(Attempt::Status { code: 503 }), Next::Retry { millis: 200 }));
    assert!(matches!(
        fetch.on_attempt(Attempt::Status { code: 500 }),
        Next::Fail { error: FetchError::Status { code: 500 } }
    ));
}

#[test]
fn fetch_bad_status_falls_back_to_stale() {
    let (mut fetch, _) = Fetch::begin(Some((vec![5], false)));
    assert!(matches!(fetch.on_attempt(Attempt::Status { code: 404 }), Next::Retry { millis: 200 }));
    assert!(
        matches!(fetch.on_attempt(Attempt::Status { code: 404 }), Next::Stale { payload } if payload == vec![5])
    );
}

#[test]
fn fetch_does_not_retry_other_transport_failures() {
    let (mut fetch, _) = Fetch::begin(Some((vec![5], false)));
    assert!(matches!(fetch.on_attempt(transport(false)), Next::Stale { payload } if payload == vec![5]));
    assert_eq!(fetch.attempts_made(), 1);
    let (mut fetch, _) = Fetch::begin(None);
    assert!(matches!(
        fetch.on_attempt(transport(false)),
        Next::Fail { error: FetchError::Transport { .. } }
    ));
}

#[test]
fn fetch_stores_body_on_success() {
    let (mut fetch, _) = Fetch::begin(Some((vec![5], false)));
    let next = fetch.on_attempt(Attempt::Success { body: vec![8, 9] });
    assert!(matches!(next, Next::Store { payload } if payload == vec![8, 9]));
    let (mut fetch, _) = Fetch::begin(None);
    assert!(matches!(fetch.on_attempt(transport(true)), Next::Retry { .. }));
    let next = fetch.on_attempt(Attempt::Success { body: vec![1] });
    assert!(matches!(next, Next::Store { payload } if payload == vec![1]));
}

#[test]
fn fetch_fails_on_unreadable_body_even_with_stale_entry() {
    let (mut fetch, _) = Fetch::begin(Some((vec![5], false)));
    let next = fetch.on_attempt(Attempt::Body { message: "cut off".to_string() });
    assert!(matches!(next, Next::Fail { error: FetchError::Body { message } } if message == "cut off"));
}

#[test]
fn fetch_never_retries_after_the_second_attempt() {
    let (mut fetch, _) = Fetch::begin(None);
    let _ = fetch.on_attempt(transport(true));
    let _ = fetch.on_attempt(transport(true));
    assert!(matches!(fetch.on_attempt(transport(true)), Next::Fail { .. }));
    assert_eq!(fetch.attempts_made(), 3);
}

#[test]
fn endpoint_addresses() {
    let base = "https://api.opendota.com/api";
    assert_eq!(heroes_url(base), "https://api.opendota.com/api/heroStats");
    assert_eq!(profile_url(base, 135664392), "https://api.opendota.com/api/players/135664392");
    assert_eq!(
        recent_matches_url(base, 0),
        "https://api.opendota.com/api/players/0/recentMatches"
    );
    assert_eq!(
        matches_url(base, u32::MAX),
        "https://api.opendota.com/api/players/4294967295/matches"
    );
    assert_eq!(
        match_detail_url(base, u64::MAX),
        "https://api.opendota.com/api/matches/18446744073709551615"
    );
    assert_eq!(hero_constants_url(base), "https://api.opendota.com/api/constants/heroes");
    assert_eq!(item_constants_url(base), "https://api.opendota.com/api/constants/items");
}

#[test]
fn fallback_query_asks_for_twenty_matches() {
    let query = matches_fallback_query();
    assert_eq!(query, vec![("limit", "20".to_string()), ("significant", "0".to_string())]);
    assert_eq!(
        build_cache_key("u", Some(&query)),
        "u?limit=20&significant=0"
    );
}

#[test]
fn hero_names_are_keyed_by_id() {
    let names = index_hero_names(vec![
        HeroStat { id: 1, localized_name: "Anti-Mage".to_string() },
        HeroStat { id: 2, localized_name: "Axe".to_string() },
        HeroStat { id: 1, localized_name: "Later".to_string() },
    ]);
    assert_eq!(names.len(), 2);
    assert_eq!(names.get(&1).map(String::as_str), Some("Later"));
    assert_eq!(names.get(&2).map(String::as_str), Some("Axe"));
}

#[test]
fn hero_constants_are_keyed_by_id() {
    let table = index_hero_constants(vec![
        HeroConstant { id: 0, img: None },
        HeroConstant { id: 5, img: Some("/a.png".to_string()) },
    ]);
    assert_eq!(table.len(), 2);
    assert_eq!(table.get(&5).and_then(|h| h.img.clone()), Some("/a.png".to_string()));
    assert!(table.contains_key(&0));
}

#[test]
fn item_constants_leave_out_the_empty_slot() {
    let table = index_item_constants(vec![
        ItemConstant { id: 0, img: Some("/none.png".to_string()) },
        ItemConstant { id: 1, img: Some("/blink.png".to_string()) },
        ItemConstant { id: -3, img: None },
    ]);
    assert_eq!(table.len(), 2);
    assert!(!table.contains_key(&0));
    assert!(table.contains_key(&1));
    assert!(table.contains_key(&-3));
}

#[test]
fn request_log_lines() {
    assert_eq!(
        log_status_line("https://api/x?a=1", "404 Not Found", 1234),
        "GET https://api/x?a=1 status=404 Not Found elapsed_ms=1234"
    );
    assert_eq!(log_status_line("k", "200", u128::MAX), format!("GET k status=200 elapsed_ms={}", u128::MAX));
    assert_eq!(log_error_line("k", "timed out", 2), "GET k error=\"timed out\" attempt=2");
    assert_eq!(log_stale_line("k?x=1"), "using_stale_cache k?x=1");
    assert_eq!(log_wait_line(59_990), "rate_limit_wait_ms=59990");
    assert_eq!(log_fallback_line(135664392), "fallback matches for account_id=135664392");
}

#[test]
fn failed_recent_matches_fall_back_to_the_match_list() {
    assert!(matches!(after_recent_matches("https://api", 7, false), MatchesStep::Done));
    match after_recent_matches("https://api", 7, true) {
        MatchesStep::Fallback { url, query } => {
            assert_eq!(url, "https://api/players/7/matches");
            assert_eq!(query, vec![("limit", "20".to_string()), ("significant", "0".to_string())]);
            assert_eq!(
                build_cache_key(&url, Some(&query)),
                "https://api/players/7/matches?limit=20&significant=0"
            );
        }
        MatchesStep::Done => panic!("the fallback was owed"),
    }
}

#[test]
fn only_timeouts_connections_and_malformed_requests_are_retried() {
    assert!(!transport_retryable(false, false, false));
    assert!(transport_retryable(true, false, false));
    assert!(transport_retryable(false, true, false));
    assert!(transport_retryable(false, false, true));
    assert!(transport_retryable(true, true, true));
    assert!(matches!(
        Attempt::transport(false, false, false, "redirect loop".to_string()),
        Attempt::Transport { retryable: false, message } if message == "redirect loop"
    ));
    assert!(matches!(
        Attempt::transport(false, true, false, "refused".to_string()),
        Attempt::Transport { retryable: true, message } if message == "refused"
    ));
    let (mut fetch, _) = Fetch::begin(None);
    let next = fetch.on_attempt(Attempt::transport(true, false, false, "timed out".to_string()));
    assert!(matches!(next, Next::Retry { millis: 200 }));
}
