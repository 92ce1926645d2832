//! The rate limiter: waiting rules, header bookkeeping, the 429 retry
//! protocol, and the per-route table.

use harmony::http::rate_limiter::{
    RateLimit, RateLimiter, RestStep, apply_headers, rest_step, retry_after_from_body,
    sec_str_to_ms,
};
use harmony::http::route::Route;
use harmony::model::id::{ChannelId, GuildId, MessageId};

#[test]
fn initial_state_permits_one_request() {
    let rl = RateLimit::initial();
    assert_eq!(rl.remaining, 1);
    assert_eq!(rl.limit, 0);
    assert_eq!(rl.pre_request_delay_ms(123456), 0);
}

#[test]
fn exhausted_window_waits_until_reset() {
    // The server reported no remaining call and a reset two seconds out:
    // the next caller must not start before it.
    let now: u64 = 1_000_000;
    let rl = apply_headers(
        RateLimit::initial(),
        Some("5"),
        Some("0"),
        Some("1002.000"),
    );
    assert_eq!(rl.limit, 5);
    assert_eq!(rl.remaining, 0);
    assert_eq!(rl.reset_ms, 1_002_000);
    assert_eq!(rl.pre_request_delay_ms(now), 2000);
    assert_eq!(rl.pre_request_delay_ms(1_002_000), 0);
}

#[test]
fn unreadable_headers_keep_old_values() {
    let old = RateLimit { limit: 7, remaining: 3, reset_ms: 99 };
    let rl = apply_headers(old, Some("x"), None, Some("soon"));
    assert_eq!(rl.limit, 7);
    assert_eq!(rl.remaining, 3);
    assert_eq!(rl.reset_ms, 99);
}

#[test]
fn seconds_texts_become_milliseconds() {
    assert_eq!(sec_str_to_ms("0.5"), Some(500));
    assert_eq!(sec_str_to_ms("2"), Some(2000));
    assert_eq!(sec_str_to_ms("1.25"), Some(1250));
    assert_eq!(sec_str_to_ms("1.2345"), Some(1234));
    assert_eq!(sec_str_to_ms("0.001"), Some(1));
    assert_eq!(sec_str_to_ms(""), None);
    assert_eq!(sec_str_to_ms("."), None);
    assert_eq!(sec_str_to_ms("1."), None);
    assert_eq!(sec_str_to_ms("abc"), None);
}

#[test]
fn retry_hint_is_read_from_429_bodies() {
    assert_eq!(retry_after_from_body("{\"retry_after\":0.5}"), Some(500));
    assert_eq!(retry_after_from_body("{\"retry_after\":2}"), Some(2000));
    assert_eq!(retry_after_from_body("{}"), None);
    assert_eq!(retry_after_from_body("nope"), None);
}

#[test]
fn the_429_protocol_sleeps_and_retries() {
    assert_eq!(
        rest_step(429, "{\"retry_after\":0.5}"),
        RestStep::RetryAfterMs(500)
    );
    assert_eq!(rest_step(429, "broken"), RestStep::BadRetryBody);
    assert_eq!(rest_step(200, ""), RestStep::Proceed);
    assert_eq!(rest_step(500, ""), RestStep::Proceed);
}

#[test]
fn table_creates_lazily_and_updates_per_route() {
    let mut t = RateLimiter::new();
    let a = Route::Channel(ChannelId(42));
    let b = Route::Guild(GuildId(7));
    assert_eq!(t.lookup(a), None);

    let ra = t.get_or_init(a);
    assert_eq!(ra.remaining, 1);
    assert_eq!(t.lookup(a), Some(ra));
    assert_eq!(t.lookup(b), None);

    let updated = RateLimit { limit: 5, remaining: 0, reset_ms: 1000 };
    t.update(a, updated);
    assert_eq!(t.lookup(a), Some(updated));
    assert_eq!(t.lookup(b), None);

    let rb = t.get_or_init(b);
    assert_eq!(rb.remaining, 1);
    assert_eq!(t.lookup(a), Some(updated));

    // Asking again returns the stored state untouched.
    let ra2 = t.get_or_init(a);
    assert_eq!(ra2, updated);
}

#[test]
fn distinct_message_routes_do_not_share_a_bucket() {
    let post = Route::Channel(ChannelId(1));
    let edit = Route::ChannelMessage(ChannelId(1), MessageId(2));
    let mut t = RateLimiter::new();
    t.get_or_init(post);
    t.update(post, RateLimit { limit: 1, remaining: 0, reset_ms: 50 });
    let e = t.get_or_init(edit);
    assert_eq!(e.remaining, 1);
}
