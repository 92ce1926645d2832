//! Per-route rate limiting: the state the server's headers dictate, the
//! waiting rule before a request, the 429 retry rule, and the table of
//! per-route states.  The worker that issues requests holds the table
//! under its lock, serialises callers per route, and asks these functions
//! what to wait and what to record.

use vstd::prelude::*;

use crate::json::JsonVal;
use crate::json::parse::{scan_digits, spec_parse_json, spec_scan_digits};
use crate::json::jv_get;
use crate::text::{all_dec_digits, dec_val, digit_val, parse_u64_dec, parse_u64_range};
use crate::http::route::Route;

verus! {

/// The per-route limit state the server advertises.
#[derive(Debug, Clone, Copy, PartialEq, Eq, Structural)]
pub struct RateLimit {
    pub limit: u64,
    pub remaining: u64,
    /// When the window resets, in milliseconds since the epoch.
    pub reset_ms: u64,
}

impl RateLimit {
    /// The state before the first response on a route: one request is
    /// permitted at once.
    pub fn initial() -> (r: RateLimit)
        ensures
            r.limit == 0,
            r.remaining == 1,
            r.reset_ms == 0,
    {
        RateLimit { limit: 0, remaining: 1, reset_ms: 0 }
    }

    /// How long a caller must sleep before issuing a request on this
    /// route: until the reset when the window is exhausted, else nothing.
    pub fn pre_request_delay_ms(&self, now_ms: u64) -> (d: u64)
        ensures
            self.remaining == 0 && self.reset_ms > now_ms ==> d == self.reset_ms - now_ms,
            !(self.remaining == 0 && self.reset_ms > now_ms) ==> d == 0,
    {
        if self.remaining == 0 && self.reset_ms > now_ms {
            self.reset_ms - now_ms
        } else {
            0
        }
    }
}

/// The milliseconds a decimal-seconds text denotes: an integer part, and
/// up to three fraction digits (further digits are ignored); `None` for
/// any other shape or a value that does not fit.
pub open spec fn spec_sec_to_ms(s: Seq<char>) -> Option<u64> {
    let e1 = spec_scan_digits(s, 0);
    if e1 == 0 {
        None
    } else {
        let whole = dec_val(s.subrange(0, e1)) * 1000;
        if e1 == s.len() {
            if whole <= u64::MAX {
                Some(whole as u64)
            } else {
                None
            }
        } else if s[e1] == '.' {
            let e2 = spec_scan_digits(s, e1 + 1);
            if e2 == e1 + 1 || e2 != s.len() {
                None
            } else {
                let f = frac3(s, e1 + 1, e2);
                if whole + f <= u64::MAX {
                    Some((whole + f) as u64)
                } else {
                    None
                }
            }
        } else {
            None
        }
    }
}

/// The value, in thousandths, of up to the first three digits at
/// `[i, e)`.
pub open spec fn frac3(s: Seq<char>, i: int, e: int) -> int {
    (if i < e {
        digit_val(s[i])
    } else {
        0
    }) * 100 + (if i + 1 < e {
        digit_val(s[i + 1])
    } else {
        0
    }) * 10 + (if i + 2 < e {
        digit_val(s[i + 2])
    } else {
        0
    })
}

/// Parses a decimal-seconds text into milliseconds.
pub fn sec_str_to_ms(s: &str) -> (r: Option<u64>)
    ensures
        r == spec_sec_to_ms(s@),
{
    let v = crate::text::chars_of(s);
    let n = v.len();
    let e1 = scan_digits(&v, 0);
    if e1 == 0 {
        return None;
    }
    proof {
        crate::json::parse::lemma_scan_digits_all(v@, 0);
    }
    let whole = match parse_u64_range(&v, 0, e1) {
        Some(w) => w,
        None => {
            proof {
                assert(dec_val(v@.subrange(0, e1 as int)) * 1000 > u64::MAX) by (nonlinear_arith)
                    requires
                        dec_val(v@.subrange(0, e1 as int)) > u64::MAX,
                ;
                lemma_frac3_nonneg(v@, e1 as int);
            }
            return None;
        },
    };
    if whole > u64::MAX / 1000 {
        proof {
            assert(whole * 1000 > u64::MAX) by (nonlinear_arith)
                requires
                    whole > u64::MAX / 1000,
            ;
            lemma_frac3_nonneg(v@, e1 as int);
        }
        return None;
    }
    let whole_ms = whole * 1000;
    proof {
        assert(whole_ms == dec_val(v@.subrange(0, e1 as int)) * 1000);
    }
    if e1 == n {
        return Some(whole_ms);
    }
    if v[e1] != '.' {
        return None;
    }
    let e2 = scan_digits(&v, e1 + 1);
    if e2 == e1 + 1 || e2 != n {
        return None;
    }
    proof {
        crate::json::parse::lemma_scan_digits_all(v@, e1 + 1);
        let ghost fr = v@.subrange(e1 + 1, e2 as int);
        assert(fr[0] == v@[e1 + 1]);
        if e1 + 2 < e2 {
            assert(fr[1] == v@[e1 + 2]);
        }
        if e1 + 3 < e2 {
            assert(fr[2] == v@[e1 + 3]);
        }
    }
    let d1 = (v[e1 + 1] as u32 - 48) as u64;
    let d2: u64 = if e2 - e1 > 2 {
        (v[e1 + 2] as u32 - 48) as u64
    } else {
        0
    };
    let d3: u64 = if e2 - e1 > 3 {
        (v[e1 + 3] as u32 - 48) as u64
    } else {
        0
    };
    let f = d1 * 100 + d2 * 10 + d3;
    proof {
        assert(f == frac3(v@, e1 + 1, e2 as int));
    }
    if whole_ms > u64::MAX - f {
        return None;
    }
    Some(whole_ms + f)
}

/// The retry hint of a 429 body: its `retry_after` field, seconds, as
/// milliseconds.
pub open spec fn spec_retry_after_ms(v: JsonVal) -> Option<u64> {
    match jv_get(v, "retry_after"@) {
        Option::Some(JsonVal::Num(n)) => if n * 1000 <= u64::MAX {
            Some((n * 1000) as u64)
        } else {
            None
        },
        Option::Some(JsonVal::NumText(t)) => spec_sec_to_ms(t),
        _ => None,
    }
}

/// Reads the retry hint out of a 429 response body.
pub fn retry_after_from_body(body: &str) -> (r: Option<u64>)
    ensures
        spec_parse_json(body@) matches Some(v) ==> r == spec_retry_after_ms(v),
        spec_parse_json(body@) is None ==> r is None,
{
    let j = match crate::json::parse::parse_json_text(body) {
        Some(j) => j,
        None => { return None },
    };
    match crate::json::json_get(&j, "retry_after") {
        Some(x) => match x {
            crate::json::Json::Num(n) => {
                if *n > u64::MAX / 1000 {
                    proof {
                        assert((*n) * 1000 > u64::MAX) by (nonlinear_arith)
                            requires
                                *n > u64::MAX / 1000,
                        ;
                    }
                    None
                } else {
                    proof {
                        assert((*n) * 1000 <= u64::MAX) by (nonlinear_arith)
                            requires
                                *n <= u64::MAX / 1000,
                        ;
                    }
                    Some(*n * 1000)
                }
            },
            crate::json::Json::NumText(t) => sec_str_to_ms(t.as_str()),
            _ => None,
        },
        None => None,
    }
}

/// What to do with one REST response, under the 429 protocol.
#[derive(Debug, Clone, Copy, PartialEq, Eq, Structural)]
pub enum RestStep {
    /// The server said too-many-requests: sleep this long, then retry the
    /// same request.
    RetryAfterMs(u64),
    /// The server said too-many-requests but its body carried no readable
    /// retry hint: give up with a decode error.
    BadRetryBody,
    /// Any other status: no retry protocol applies; proceed to the
    /// operation's own handling.
    Proceed,
}

/// Decides the retry protocol for one response: a 429 whose body carries
/// a retry hint asks for that sleep and a retry; a 429 without one is a
/// decode failure; everything else proceeds.
pub fn rest_step(status: u16, body: &str) -> (r: RestStep)
    ensures
        status == 429 ==> r == (match spec_parse_json(body@) {
            Option::Some(v) => match spec_retry_after_ms(v) {
                Option::Some(ms) => RestStep::RetryAfterMs(ms),
                Option::None => RestStep::BadRetryBody,
            },
            Option::None => RestStep::BadRetryBody,
        }),
        status != 429 ==> r == RestStep::Proceed,
{
    if status == 429 {
        match retry_after_from_body(body) {
            Some(ms) => RestStep::RetryAfterMs(ms),
            None => RestStep::BadRetryBody,
        }
    } else {
        RestStep::Proceed
    }
}

/// The view of an optional header value.
pub open spec fn view_opt_header(o: Option<&str>) -> Option<Seq<char>> {
    match o {
        Option::Some(s) => Some(s@),
        Option::None => None,
    }
}

/// A counter header's value: its decimal reading, or the old value when
/// the header is absent or unreadable.
pub open spec fn spec_u64_or(sv: Option<Seq<char>>, old_val: u64) -> u64 {
    match sv {
        Option::Some(s) => if s.len() > 0 && all_dec_digits(s) && dec_val(s) <= u64::MAX {
            dec_val(s) as u64
        } else {
            old_val
        },
        Option::None => old_val,
    }
}

/// A reset header's value in milliseconds, or the old value when the
/// header is absent or unreadable.
pub open spec fn spec_ms_or(sv: Option<Seq<char>>, old_val: u64) -> u64 {
    match sv {
        Option::Some(s) => match spec_sec_to_ms(s) {
            Option::Some(ms) => ms,
            Option::None => old_val,
        },
        Option::None => old_val,
    }
}

/// Applies a success response's rate-limit headers to a route's state:
/// each present, readable header replaces its field; the rest keep their
/// old values.
pub fn apply_headers(
    rl: RateLimit,
    limit: Option<&str>,
    remaining: Option<&str>,
    reset: Option<&str>,
) -> (r: RateLimit)
    ensures
        r.limit == spec_u64_or(view_opt_header(limit), rl.limit),
        r.remaining == spec_u64_or(view_opt_header(remaining), rl.remaining),
        r.reset_ms == spec_ms_or(view_opt_header(reset), rl.reset_ms),
{
    let new_limit = match limit {
        Some(s) => match parse_u64_dec(s) {
            Some(n) => n,
            None => rl.limit,
        },
        None => rl.limit,
    };
    let new_remaining = match remaining {
        Some(s) => match parse_u64_dec(s) {
            Some(n) => n,
            None => rl.remaining,
        },
        None => rl.remaining,
    };
    let new_reset = match reset {
        Some(s) => match sec_str_to_ms(s) {
            Some(ms) => ms,
            None => rl.reset_ms,
        },
        None => rl.reset_ms,
    };
    RateLimit { limit: new_limit, remaining: new_remaining, reset_ms: new_reset }
}

/// The state of the first entry for a route.
pub open spec fn spec_lookup(entries: Seq<(Route, RateLimit)>, r: Route) -> Option<RateLimit>
    decreases entries.len(),
{
    if entries.len() == 0 {
        None
    } else if entries[0].0 == r {
        Some(entries[0].1)
    } else {
        spec_lookup(entries.drop_first(), r)
    }
}

/// The shared table of per-route limit states.  Entries are created
/// lazily on first use and never removed; the set of live routes is
/// bounded by activity.
#[derive(Debug)]
pub struct RateLimiter {
    entries: Vec<(Route, RateLimit)>,
}

impl RateLimiter {
    /// The state held for a route, if one exists yet.
    pub closed spec fn route_state(&self, r: Route) -> Option<RateLimit> {
        spec_lookup(self.entries@, r)
    }

    /// An empty table.
    pub fn new() -> (t: RateLimiter)
        ensures
            forall|r: Route| t.route_state(r) is None,
    {
        RateLimiter { entries: Vec::new() }
    }

    /// The state held for a route.
    pub fn lookup(&self, route: Route) -> (o: Option<RateLimit>)
        ensures
            o == self.route_state(route),
    {
        let n = self.entries.len();
        let mut i: usize = 0;
        proof {
            assert(self.entries@.skip(0) =~= self.entries@);
        }
        while i < n
            invariant
                i <= n,
                n == self.entries@.len(),
                spec_lookup(self.entries@.skip(i as int), route) == spec_lookup(
                    self.entries@,
                    route,
                ),
                forall|k: int| 0 <= k < i ==> (#[trigger] self.entries@[k]).0 != route,
            decreases n - i,
        {
            proof {
                assert(self.entries@.skip(i as int)[0] == self.entries@[i as int]);
                assert(self.entries@.skip(i as int).drop_first() =~= self.entries@.skip(i + 1));
            }
            if self.entries[i].0 == route {
                return Some(self.entries[i].1);
            }
            i = i + 1;
        }
        proof {
            assert(self.entries@.skip(n as int) =~= Seq::<(Route, RateLimit)>::empty());
        }
        None
    }

    /// The state for a route, creating the initial state on first use.
    pub fn get_or_init(&mut self, route: Route) -> (rl: RateLimit)
        ensures
            final(self).route_state(route) == Some(rl),
            rl == (match old(self).route_state(route) {
                Option::Some(x) => x,
                Option::None => (RateLimit { limit: 0, remaining: 1, reset_ms: 0 }),
            }),
            forall|r2: Route|
                r2 != route ==> #[trigger] final(self).route_state(r2) == old(self).route_state(
                    r2,
                ),
    {
        match self.lookup(route) {
            Some(x) => x,
            None => {
                let init = RateLimit::initial();
                let ghost pre = self.entries@;
                self.entries.push((route, init));
                proof {
                    lemma_lookup_push(pre, route, init);
                }
                init
            },
        }
    }

    /// Records a route's new state.  The route must already have an
    /// entry: callers take one with `get_or_init` before the request.
    pub fn update(&mut self, route: Route, new_state: RateLimit)
        requires
            old(self).route_state(route) is Some,
        ensures
            final(self).route_state(route) == Some(new_state),
            forall|r2: Route|
                r2 != route ==> #[trigger] final(self).route_state(r2) == old(self).route_state(
                    r2,
                ),
    {
        let n = self.entries.len();
        let mut i: usize = 0;
        proof {
            assert(self.entries@.skip(0) =~= self.entries@);
        }
        while i < n
            invariant
                i <= n,
                n == self.entries@.len(),
                spec_lookup(self.entries@.skip(i as int), route) == spec_lookup(
                    self.entries@,
                    route,
                ),
                spec_lookup(self.entries@, route) is Some,
                forall|k: int| 0 <= k < i ==> (#[trigger] self.entries@[k]).0 != route,
                self.entries@ == old(self).entries@,
            decreases n - i,
        {
            proof {
                assert(self.entries@.skip(i as int)[0] == self.entries@[i as int]);
                assert(self.entries@.skip(i as int).drop_first() =~= self.entries@.skip(i + 1));
            }
            if self.entries[i].0 == route {
                let ghost pre = self.entries@;
                self.entries[i] = (route, new_state);
                proof {
                    lemma_lookup_update(pre, i as int, route, new_state);
                }
                return ;
            }
            i = i + 1;
        }
        proof {
            assert(self.entries@.skip(n as int) =~= Seq::<(Route, RateLimit)>::empty());
            assert(false);
        }
    }
}

/// Up to three fraction digits scanned out of a digit run never denote a
/// negative amount.
proof fn lemma_frac3_nonneg(s: Seq<char>, dot: int)
    requires
        0 <= dot,
    ensures
        dot < s.len() && s[dot] == '.' ==> frac3(
            s,
            dot + 1,
            spec_scan_digits(s, dot + 1),
        ) >= 0,
{
    if dot < s.len() && s[dot] == '.' {
        crate::json::parse::lemma_scan_digits_all(s, dot + 1);
        let e2 = spec_scan_digits(s, dot + 1);
        let fr = s.subrange(dot + 1, e2);
        assert(dot + 1 < e2 ==> fr[0] == s[dot + 1]);
        assert(dot + 2 < e2 ==> fr[1] == s[dot + 2]);
        assert(dot + 3 < e2 ==> fr[2] == s[dot + 3]);
    }
}

/// Appending a new route's entry changes only that route's state.
proof fn lemma_lookup_push(s: Seq<(Route, RateLimit)>, route: Route, x: RateLimit)
    requires
        spec_lookup(s, route) is None,
    ensures
        spec_lookup(s.push((route, x)), route) == Some(x),
        forall|r2: Route|
            r2 != route ==> #[trigger] spec_lookup(s.push((route, x)), r2) == spec_lookup(s, r2),
    decreases s.len(),
{
    let t = s.push((route, x));
    assert(t.len() == s.len() + 1);
    assert(t[0] == (if s.len() == 0 { (route, x) } else { s[0] }));
    if s.len() == 0 {
        assert(t[0].0 == route);
        assert(spec_lookup(t, route) == Some(x));
        assert forall|r2: Route| r2 != route implies #[trigger] spec_lookup(t, r2) == spec_lookup(
            s,
            r2,
        ) by {
            assert(t[0].0 != r2);
            assert(t.drop_first() =~= Seq::<(Route, RateLimit)>::empty());
            assert(spec_lookup(t, r2) == spec_lookup(t.drop_first(), r2));
            assert(spec_lookup(t.drop_first(), r2) is None);
            assert(spec_lookup(s, r2) is None);
        };
    } else {
        lemma_lookup_push(s.drop_first(), route, x);
        assert(t.drop_first() =~= s.drop_first().push((route, x)));
        assert(s[0].0 != route);
        assert(spec_lookup(t, route) == spec_lookup(t.drop_first(), route));
        assert forall|r2: Route| r2 != route implies #[trigger] spec_lookup(t, r2) == spec_lookup(
            s,
            r2,
        ) by {
            if t[0].0 == r2 {
            } else {
                assert(spec_lookup(t, r2) == spec_lookup(t.drop_first(), r2));
                assert(spec_lookup(s, r2) == spec_lookup(s.drop_first(), r2));
            }
        };
    }
}

/// Replacing the first entry of a route changes only that route's state.
proof fn lemma_lookup_update(s: Seq<(Route, RateLimit)>, i: int, route: Route, x: RateLimit)
    requires
        0 <= i < s.len(),
        s[i].0 == route,
        forall|k: int| 0 <= k < i ==> (#[trigger] s[k]).0 != route,
    ensures
        spec_lookup(s.update(i, (route, x)), route) == Some(x),
        forall|r2: Route|
            r2 != route ==> #[trigger] spec_lookup(s.update(i, (route, x)), r2) == spec_lookup(
                s,
                r2,
            ),
    decreases i,
{
    let t = s.update(i, (route, x));
    assert(t.len() == s.len());
    if i == 0 {
        assert(t[0] == (route, x));
        assert(spec_lookup(t, route) == Some(x));
        assert forall|r2: Route| r2 != route implies #[trigger] spec_lookup(t, r2) == spec_lookup(
            s,
            r2,
        ) by {
            assert(t[0].0 != r2);
            assert(s[0].0 == route);
            assert(t.drop_first() =~= s.drop_first());
            assert(spec_lookup(t, r2) == spec_lookup(t.drop_first(), r2));
            assert(spec_lookup(s, r2) == spec_lookup(s.drop_first(), r2));
        };
    } else {
        lemma_lookup_update(s.drop_first(), i - 1, route, x);
        assert(t.drop_first() =~= s.drop_first().update(i - 1, (route, x)));
        assert(t[0] == s[0]);
        assert(s[0].0 != route);
        assert(spec_lookup(t, route) == spec_lookup(t.drop_first(), route));
        assert forall|r2: Route| r2 != route implies #[trigger] spec_lookup(t, r2) == spec_lookup(
            s,
            r2,
        ) by {
            if t[0].0 == r2 {
            } else {
                assert(spec_lookup(t, r2) == spec_lookup(t.drop_first(), r2));
                assert(spec_lookup(s, r2) == spec_lookup(s.drop_first(), r2));
            }
        };
    }
}

} // verus!
