//! Rate-limit bookkeeping shared by every request of one client.
//!
//! Time is a reading of a monotonic clock in milliseconds. The end of the
//! pause window is kept in a wider integer than the clock, so that no header
//! value can make the arithmetic overflow.

use crate::response::{header_number, ResponseHead};
use vstd::prelude::*;

verus! {

/// Longest pause, in milliseconds, that a caller is asked to sleep through.
pub const MAX_WAIT_MILLIS: u64 = 60_000;

/// Seconds to wait after a rate-limited response that names no delay.
pub const DEFAULT_RETRY_SECS: u64 = 60;

/// HTTP status that always means rate limiting.
pub const STATUS_TOO_MANY_REQUESTS: u16 = 429;

/// HTTP status that means rate limiting only together with another signal.
pub const STATUS_FORBIDDEN: u16 = 403;

/// What the limiter remembers between requests.
#[derive(Clone, Copy, Debug, PartialEq, Eq)]
pub struct RateLimiterState {
    /// End of the pause window, in clock milliseconds.
    pub paused_until: Option<u128>,
    /// Calls left in the current quota window, as last reported.
    pub remaining: Option<u64>,
}

/// Whether a response is a rate-limit response.
pub open spec fn is_rate_limited(status: u16, remaining: Option<u64>, retry_after: Option<u64>) -> bool {
    status == STATUS_TOO_MANY_REQUESTS || (status == STATUS_FORBIDDEN && (retry_after is Some
        || remaining == Some(0u64)))
}

/// The delay that a rate-limited response asks for.
pub open spec fn retry_secs(retry_after: Option<u64>) -> u64 {
    match retry_after {
        Some(secs) => secs,
        None => DEFAULT_RETRY_SECS,
    }
}

/// The pause window after a proposal: the later of the two ends.
pub open spec fn extended_pause(current: Option<u128>, proposed: int) -> int {
    match current {
        Some(existing) if existing > proposed => existing as int,
        _ => proposed,
    }
}

/// The end of the window that a response proposes, if it proposes one.
pub open spec fn proposed_pause(
    now: u64,
    now_unix: u64,
    status: u16,
    remaining: Option<u64>,
    reset_at: Option<u64>,
    retry_after: Option<u64>,
) -> Option<int> {
    if is_rate_limited(status, remaining, retry_after) {
        Some(now + retry_secs(retry_after) * 1000)
    } else if remaining == Some(0u64) && reset_at is Some && reset_at->0 > now_unix {
        Some(now + (reset_at->0 - now_unix) * 1000)
    } else {
        None
    }
}

impl RateLimiterState {
    /// The state after a response was seen.
    pub open spec fn after_response(
        self,
        now: u64,
        now_unix: u64,
        status: u16,
        remaining: Option<u64>,
        reset_at: Option<u64>,
        retry_after: Option<u64>,
    ) -> RateLimiterState {
        RateLimiterState {
            paused_until: match proposed_pause(now, now_unix, status, remaining, reset_at, retry_after) {
                Some(end) => Some(extended_pause(self.paused_until, end) as u128),
                None => self.paused_until,
            },
            remaining: if remaining is Some { remaining } else { self.remaining },
        }
    }

    /// Move the end of the pause window to `pause_until` unless the window
    /// already ends later.
    pub fn extend_pause(&mut self, pause_until: u128)
        ensures
            final(self).remaining == old(self).remaining,
            final(self).paused_until == Some(extended_pause(old(self).paused_until, pause_until as int) as u128),
    {
        match self.paused_until {
            Some(existing) if existing > pause_until => {},
            _ => {
                self.paused_until = Some(pause_until);
            },
        }
    }
}

/// The delay that a response asks for before a retry, if it is a rate-limit
/// response.
pub open spec fn signalled_retry(response: &ResponseHead) -> Option<u64> {
    let remaining = header_number(response.headers@, "x-ratelimit-remaining"@);
    let retry_after = header_number(response.headers@, "retry-after"@);
    if is_rate_limited(response.status, remaining, retry_after) {
        Some(retry_secs(retry_after))
    } else {
        None
    }
}

/// What a caller does before it sends a request.
#[derive(Clone, Copy, Debug, PartialEq, Eq)]
pub enum PauseDecision {
    /// No pause is active: send now.
    Proceed,
    /// A pause is active and short: sleep this long, then send.
    Sleep { millis: u64 },
    /// A pause is active and too long to sleep through: give up, with the
    /// whole of the remaining pause.
    TooLong { remaining_millis: u128 },
}

/// The decision that a pause window and a clock reading call for.
pub open spec fn pause_decision(paused_until: Option<u128>, now: u64) -> PauseDecision {
    match paused_until {
        Some(until) if until > now => if until - now > MAX_WAIT_MILLIS {
            PauseDecision::TooLong { remaining_millis: (until - now) as u128 }
        } else {
            PauseDecision::Sleep { millis: (until - now) as u64 }
        },
        _ => PauseDecision::Proceed,
    }
}

/// Rate limiter that follows the rate-limit headers of a GitHub-style API.
///
/// One limiter serves all requests of a client, so that a rate-limited
/// response to one of them pauses every later one.
pub struct GitHubRateLimiter {
    inner: RateLimiterState,
    has_token: bool,
}

impl GitHubRateLimiter {
    /// The remembered state.
    pub closed spec fn state(&self) -> RateLimiterState {
        self.inner
    }

    /// Whether the client holds an authentication token.
    pub closed spec fn token_configured(&self) -> bool {
        self.has_token
    }

    /// A limiter with no pause and no known quota.
    pub fn new(has_token: bool) -> (limiter: Self)
        ensures
            limiter.state().paused_until is None,
            limiter.state().remaining is None,
            limiter.token_configured() == has_token,
    {
        GitHubRateLimiter {
            inner: RateLimiterState { paused_until: None, remaining: None },
            has_token,
        }
    }

    /// Whether the client has an authentication token.
    pub fn has_token(&self) -> (r: bool)
        ensures
            r == self.token_configured(),
    {
        self.has_token
    }

    /// Remaining API calls, if known.
    pub fn remaining(&self) -> (r: Option<u64>)
        ensures
            r == self.state().remaining,
    {
        self.inner.remaining
    }

    /// End of the pause window, if one was ever set.
    pub fn paused_until(&self) -> (r: Option<u128>)
        ensures
            r == self.state().paused_until,
    {
        self.inner.paused_until
    }

    /// Decide, at clock reading `now`, whether the caller may send, must sleep
    /// first, or must give up. A pause of more than sixty seconds is never
    /// slept through.
    pub fn wait_if_paused(&self, now: u64) -> (decision: PauseDecision)
        ensures
            decision == pause_decision(self.state().paused_until, now),
    {
        match self.inner.paused_until {
            Some(until) => {
                if until > now as u128 {
                    let wait: u128 = until - now as u128;
                    if wait > MAX_WAIT_MILLIS as u128 {
                        PauseDecision::TooLong { remaining_millis: wait }
                    } else {
                        PauseDecision::Sleep { millis: wait as u64 }
                    }
                } else {
                    PauseDecision::Proceed
                }
            },
            None => PauseDecision::Proceed,
        }
    }

    /// Read the rate-limit headers of a response and take them in.
    ///
    /// The headers read are `X-RateLimit-Remaining`, `X-RateLimit-Reset` and
    /// `Retry-After`; one that is absent or holds no integer counts as absent.
    pub fn update_from_response(&mut self, now: u64, now_unix: u64, response: &ResponseHead) -> (retry:
        Option<u64>)
        ensures
            final(self).token_configured() == old(self).token_configured(),
            final(self).state() == old(self).state().after_response(
                now,
                now_unix,
                response.status,
                header_number(response.headers@, "x-ratelimit-remaining"@),
                header_number(response.headers@, "x-ratelimit-reset"@),
                header_number(response.headers@, "retry-after"@),
            ),
            retry == signalled_retry(response),
    {
        let remaining = response.header_u64("x-ratelimit-remaining");
        let reset_at = response.header_u64("x-ratelimit-reset");
        let retry_after = response.header_u64("retry-after");
        self.update_state(now, now_unix, response.status, remaining, reset_at, retry_after)
    }

    /// Take in what one response said about the quota.
    ///
    /// `now` is the monotonic clock in milliseconds, `now_unix` the wall clock
    /// in seconds since the Unix epoch. Returns the seconds to wait before a
    /// retry when the response is a rate-limit response, and nothing
    /// otherwise.
    pub fn update_state(
        &mut self,
        now: u64,
        now_unix: u64,
        status: u16,
        remaining: Option<u64>,
        reset_at: Option<u64>,
        retry_after: Option<u64>,
    ) -> (retry: Option<u64>)
        ensures
            final(self).token_configured() == old(self).token_configured(),
            final(self).state() == old(self).state().after_response(
                now,
                now_unix,
                status,
                remaining,
                reset_at,
                retry_after,
            ),
            retry == if is_rate_limited(status, remaining, retry_after) {
                Some(retry_secs(retry_after))
            } else {
                None
            },
    {
        if let Some(rem) = remaining {
            self.inner.remaining = Some(rem);
        }
        let zero_left = match remaining {
            Some(rem) => rem == 0,
            None => false,
        };
        let limited = status == STATUS_TOO_MANY_REQUESTS || (status == STATUS_FORBIDDEN && (
            retry_after.is_some() || zero_left));
        if limited {
            let secs = match retry_after {
                Some(secs) => secs,
                None => DEFAULT_RETRY_SECS,
            };
            let pause_until: u128 = now as u128 + secs as u128 * 1000;
            self.inner.extend_pause(pause_until);
            return Some(secs);
        }
        if zero_left {
            if let Some(reset) = reset_at {
                if reset > now_unix {
                    let pause_until: u128 = now as u128 + (reset - now_unix) as u128 * 1000;
                    self.inner.extend_pause(pause_until);
                }
            }
        }
        None
    }
}

/// A response with status 429 is always rate limiting: the caller is told to
/// wait the named delay, or sixty seconds where none is named, and the pause
/// window afterwards ends no earlier than that delay from now.
pub proof fn lemma_too_many_requests_sets_pause(
    state: RateLimiterState,
    now: u64,
    now_unix: u64,
    remaining: Option<u64>,
    reset_at: Option<u64>,
    retry_after: Option<u64>,
)
    ensures
        is_rate_limited(STATUS_TOO_MANY_REQUESTS, remaining, retry_after),
        retry_secs(retry_after) == (match retry_after {
            Some(secs) => secs,
            None => 60u64,
        }),
        state.after_response(
            now,
            now_unix,
            STATUS_TOO_MANY_REQUESTS,
            remaining,
            reset_at,
            retry_after,
        ).paused_until matches Some(end) && end >= now + retry_secs(retry_after) * 1000,
{
}

/// A response with status 403 that names no delay and no quota is a
/// permissions error: it is not rate limiting and leaves the state as it was.
pub proof fn lemma_plain_forbidden_is_ignored(
    state: RateLimiterState,
    now: u64,
    now_unix: u64,
    reset_at: Option<u64>,
)
    ensures
        !is_rate_limited(STATUS_FORBIDDEN, None, None),
        state.after_response(now, now_unix, STATUS_FORBIDDEN, None, reset_at, None) == state,
{
}

/// A response with status 403 and an exhausted quota is rate limiting, with a
/// delay of sixty seconds where the response names none.
pub proof fn lemma_forbidden_with_no_quota_is_rate_limited(retry_after: Option<u64>)
    ensures
        is_rate_limited(STATUS_FORBIDDEN, Some(0u64), retry_after),
        retry_after is None ==> retry_secs(retry_after) == 60,
{
}

/// The pause window only moves forward: whatever a response says, a window
/// that was set stays set and ends no earlier than before, and a response
/// that proposes an earlier end leaves the end where it was.
pub proof fn lemma_pause_is_monotonic(
    state: RateLimiterState,
    now: u64,
    now_unix: u64,
    status: u16,
    remaining: Option<u64>,
    reset_at: Option<u64>,
    retry_after: Option<u64>,
)
    requires
        state.paused_until is Some,
    ensures
        state.after_response(now, now_unix, status, remaining, reset_at, retry_after).paused_until
            matches Some(end) && end >= state.paused_until->0,
        proposed_pause(now, now_unix, status, remaining, reset_at, retry_after) matches Some(proposed)
            && proposed < state.paused_until->0 ==> state.after_response(
            now,
            now_unix,
            status,
            remaining,
            reset_at,
            retry_after,
        ).paused_until == state.paused_until,
{
}

/// An exhausted quota on a response that is not rate limiting pauses ahead of
/// the next request exactly when the quota resets in the future: the window
/// then reaches the reset time, and is untouched otherwise.
pub proof fn lemma_preemptive_pause(
    state: RateLimiterState,
    now: u64,
    now_unix: u64,
    status: u16,
    reset_at: u64,
)
    requires
        !is_rate_limited(status, Some(0u64), None),
    ensures
        reset_at <= now_unix ==> state.after_response(
            now,
            now_unix,
            status,
            Some(0u64),
            Some(reset_at),
            None,
        ).paused_until == state.paused_until,
        reset_at > now_unix ==> state.after_response(
            now,
            now_unix,
            status,
            Some(0u64),
            Some(reset_at),
            None,
        ).paused_until == Some(
            extended_pause(state.paused_until, now + (reset_at - now_unix) * 1000) as u128,
        ),
        reset_at > now_unix && state.paused_until is None ==> state.after_response(
            now,
            now_unix,
            status,
            Some(0u64),
            Some(reset_at),
            None,
        ).paused_until == Some((now + (reset_at - now_unix) * 1000) as u128),
{
}

/// A pause is slept through exactly when it is active and lasts at most sixty
/// seconds; a longer one is refused with its whole remaining length.
pub proof fn lemma_wait_is_bounded(paused_until: Option<u128>, now: u64)
    ensures
        pause_decision(paused_until, now) matches PauseDecision::Sleep { millis } ==> 0 < millis
            <= 60_000 && paused_until == Some((now + millis) as u128),
        pause_decision(paused_until, now) matches PauseDecision::TooLong { remaining_millis }
            ==> remaining_millis > 60_000 && paused_until == Some(
            (now + remaining_millis) as u128,
        ),
        pause_decision(paused_until, now) is Proceed <==> (paused_until matches Some(until)
            ==> until <= now),
{
}

/// Where two responses propose different ends of the pause window, the
/// later end wins, in whichever order the two are taken in.
pub proof fn lemma_longer_pause_wins(current: Option<u128>, first: u128, second: u128)
    ensures
        extended_pause(Some(extended_pause(current, first as int) as u128), second as int)
            == extended_pause(Some(extended_pause(current, second as int) as u128), first as int),
        extended_pause(Some(extended_pause(current, first as int) as u128), second as int) >= first,
        extended_pause(Some(extended_pause(current, first as int) as u128), second as int)
            >= second,
        current is None ==> extended_pause(
            Some(extended_pause(current, first as int) as u128),
            second as int,
        ) == if first > second {
            first as int
        } else {
            second as int
        },
{
}

} // verus!
