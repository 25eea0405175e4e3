//! Rate limits: the source's token-bucket estimate, read from response
//! headers, and the wait-and-retry policy for rejected requests.

use vstd::prelude::*;
use crate::decimal::{i32_of_text, parse_i32, parse_u64, u64_of_text};

verus! {

/// The view of an optional header value.
pub open spec fn opt_str(v: Option<&str>) -> Option<Seq<char>> {
    match v {
        Some(s) => Some(s@),
        None => None,
    }
}

/// A count read from a header value: the value as an `i32`, or `default`
/// where the header is absent or does not hold one.
pub open spec fn header_count(value: Option<Seq<char>>, default: i32) -> i32 {
    match value {
        Some(v) => match i32_of_text(v) {
            Some(n) => n,
            None => default,
        },
        None => default,
    }
}

fn count_or(value: Option<&str>, default: i32) -> (r: i32)
    ensures
        r == header_count(opt_str(value), default),
{
    match value {
        Some(v) => match parse_i32(v) {
            Some(n) => n,
            None => default,
        },
        None => default,
    }
}

/// The tokens left, from the remaining-tokens header; 0 where it says none.
pub fn get_remaining_tokens(value: Option<&str>) -> (r: i32)
    ensures
        r == header_count(opt_str(value), 0),
{
    count_or(value, 0)
}

/// The tokens restored per wait, from the replenish-rate header; 1 where it
/// says none.
pub fn get_replenish_rate(value: Option<&str>) -> (r: i32)
    ensures
        r == header_count(opt_str(value), 1),
{
    count_or(value, 1)
}

/// The bucket's size, from the burst-capacity header; 1 where it says none.
pub fn get_burst_capacity(value: Option<&str>) -> (r: i32)
    ensures
        r == header_count(opt_str(value), 1),
{
    count_or(value, 1)
}

/// The tokens a request cost, from the requested-tokens header; 1 where it
/// says none.
pub fn get_requested_tokens(value: Option<&str>) -> (r: i32)
    ensures
        r == header_count(opt_str(value), 1),
{
    count_or(value, 1)
}

/// `x`, held within the range of `i64`.
pub open spec fn saturate(x: int) -> i64 {
    if x > i64::MAX {
        i64::MAX
    } else if x < i64::MIN {
        i64::MIN
    } else {
        x as i64
    }
}

fn saturating_sum(a: i64, b: i64) -> (r: i64)
    ensures
        r == saturate(a + b),
{
    match a.checked_add(b) {
        Some(v) => v,
        None => if b > 0 {
            i64::MAX
        } else {
            i64::MIN
        },
    }
}

/// Seconds to suspend before the budget is replenished once.
pub const WAIT_SECONDS: u64 = 3;

/// The client's estimate of the source's token bucket.
#[derive(Debug, Clone, Copy, PartialEq, Eq, Structural)]
pub struct RateBudget {
    pub remaining: i64,
    pub replenish_rate: i64,
}

impl RateBudget {
    /// The budget that a response's remaining-tokens and replenish-rate
    /// headers report.
    pub fn from_headers(remaining: Option<&str>, replenish_rate: Option<&str>) -> (r: RateBudget)
        ensures
            r.remaining == header_count(opt_str(remaining), 0),
            r.replenish_rate == header_count(opt_str(replenish_rate), 1),
    {
        RateBudget {
            remaining: get_remaining_tokens(remaining) as i64,
            replenish_rate: get_replenish_rate(replenish_rate) as i64,
        }
    }

    /// Whether a request must wait: at most one token is left.
    pub fn needs_wait(&self) -> (r: bool)
        ensures
            r == (self.remaining <= 1),
    {
        self.remaining <= 1
    }

    /// Accounts for one wait of `WAIT_SECONDS`: the replenish rate is added.
    pub fn replenish(&mut self)
        ensures
            final(self).remaining == saturate(old(self).remaining + old(self).replenish_rate),
            final(self).replenish_rate == old(self).replenish_rate,
    {
        self.remaining = saturating_sum(self.remaining, self.replenish_rate);
    }

    /// Accounts for a response. Where it reports the tokens left, the
    /// estimate takes that count; else the tokens it reports as spent (one
    /// where it says none) are taken off.
    pub fn after_response(&mut self, remaining: Option<&str>, requested: Option<&str>)
        ensures
            final(self).replenish_rate == old(self).replenish_rate,
            final(self).remaining == match opt_str(remaining) {
                Some(v) => match i32_of_text(v) {
                    Some(n) => n as i64,
                    None => saturate(
                        old(self).remaining - header_count(opt_str(requested), 1),
                    ),
                },
                None => saturate(old(self).remaining - header_count(opt_str(requested), 1)),
            },
    {
        let reported = match remaining {
            Some(v) => parse_i32(v),
            None => None,
        };
        match reported {
            Some(n) => {
                self.remaining = n as i64;
            },
            None => {
                let spent = get_requested_tokens(requested) as i64;
                self.remaining = saturating_sum(self.remaining, -spent);
            },
        }
    }
}

/// The status code of a rejected, rate-limited request.
pub const TOO_MANY_REQUESTS: u16 = 429;

/// Seconds to wait before retrying a rejected request that names no delay.
pub const DEFAULT_RETRY_SECONDS: u64 = 1;

/// What to do with a response, as far as rate limits go.
#[derive(Debug, Clone, Copy, PartialEq, Eq, Structural)]
pub enum RetryDecision {
    /// The request was not rate-limited: hand its response on.
    Proceed,
    /// Wait this many seconds, then send the same request again.
    RetryAfter(u64),
    /// The retry-after header does not hold a number of seconds.
    BadRetryAfter,
}

/// The decision for a response with this status and retry-after header.
pub open spec fn retry_decision(status: u16, retry_after: Option<Seq<char>>) -> RetryDecision {
    if status != TOO_MANY_REQUESTS {
        RetryDecision::Proceed
    } else {
        match retry_after {
            None => RetryDecision::RetryAfter(DEFAULT_RETRY_SECONDS),
            Some(v) => match u64_of_text(v) {
                Some(n) => RetryDecision::RetryAfter(n),
                None => RetryDecision::BadRetryAfter,
            },
        }
    }
}

/// Decides whether a response was rate-limited and, if so, how long to wait
/// before the same request is sent again. There is no cap on the retries.
pub fn rate_limit_decision(status: u16, retry_after: Option<&str>) -> (r: RetryDecision)
    ensures
        r == retry_decision(status, opt_str(retry_after)),
{
    if status != TOO_MANY_REQUESTS {
        return RetryDecision::Proceed;
    }
    match retry_after {
        None => RetryDecision::RetryAfter(DEFAULT_RETRY_SECONDS),
        Some(v) => match parse_u64(v) {
            Some(n) => RetryDecision::RetryAfter(n),
            None => RetryDecision::BadRetryAfter,
        },
    }
}

} // verus!
