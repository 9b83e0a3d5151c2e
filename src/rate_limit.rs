use vstd::prelude::*;
use crate::session::{SessionData, SessionView};

verus! {

/// Default length of a rate window, in seconds.
pub const WINDOW_SECONDS: i64 = 60;

/// Default number of requests admitted per session and window.
pub const MAX_REQUESTS: usize = 50;

/// The number of requests admitted in the current window of a session.
#[derive(Debug, Clone, Copy, PartialEq, Eq, Structural)]
pub struct Counter(pub usize);

/// Proof that a request passed the rate limiter.
#[derive(Debug, Clone, Copy, PartialEq, Eq, Structural)]
pub struct RateLimit;

/// The outcome of one admission check.
#[derive(Debug, Clone, Copy, PartialEq, Eq, Structural)]
pub enum RateDecision {
    /// The request proceeds; the counters were updated.
    Admit,
    /// The request is refused; the session was left as it was.
    Reject,
}

/// How the rate limiter is set up for a deployment.
#[derive(Debug, Clone, Copy, PartialEq, Eq, Structural)]
pub struct RateConfig {
    /// When false, every check admits and touches nothing.
    pub enabled: bool,
    /// Length of a window, in seconds.
    pub window_seconds: i64,
    /// Requests admitted per window.
    pub max_requests: usize,
}

impl RateConfig {
    /// The production setup: a window of a minute and fifty requests in it.
    pub fn new(enabled: bool) -> (r: RateConfig)
        ensures
            r.enabled == enabled,
            r.window_seconds == WINDOW_SECONDS,
            r.max_requests == MAX_REQUESTS,
    {
        RateConfig { enabled, window_seconds: WINDOW_SECONDS, max_requests: MAX_REQUESTS }
    }
}

/// The counter of a session, zero when it holds none.
pub open spec fn counter_of(s: SessionView) -> nat {
    match s.rate_counter {
        Some(c) => c,
        None => 0,
    }
}

/// The start of the current window, `now` when the session holds none.
pub open spec fn window_start_of(s: SessionView, now: int) -> int {
    match s.rate_window_start {
        Some(t) => t,
        None => now,
    }
}

/// More than a window length has passed between `start` and `now`.
pub open spec fn window_expired(cfg: RateConfig, start: int, now: int) -> bool {
    now - start > cfg.window_seconds * 1000
}

/// One admission check at time `now` (milliseconds): the decision and the
/// session afterwards. An expired window is collapsed before the ceiling is
/// looked at; a session without a window start gets one at `now`.
pub open spec fn rate_step(cfg: RateConfig, s: SessionView, now: int) -> (RateDecision, SessionView) {
    if !cfg.enabled {
        (RateDecision::Admit, s)
    } else if window_expired(cfg, window_start_of(s, now), now) {
        (
            RateDecision::Admit,
            SessionView {
                identity: s.identity,
                rate_counter: Some(1),
                rate_window_start: Some(now),
            },
        )
    } else if counter_of(s) >= cfg.max_requests {
        (RateDecision::Reject, s)
    } else {
        (
            RateDecision::Admit,
            SessionView {
                identity: s.identity,
                rate_counter: Some(counter_of(s) + 1),
                rate_window_start: Some(window_start_of(s, now)),
            },
        )
    }
}

impl SessionData {
    /// The admitted-request count of the current window, zero when absent.
    pub fn current_counter(&self) -> (c: Counter)
        ensures
            c.0 as nat == counter_of(self@),
    {
        match self.rate_counter {
            Some(c) => Counter(c),
            None => Counter(0),
        }
    }

    /// Decides whether one more request of this session is admitted at time
    /// `now` (milliseconds since the epoch), and updates the counters.
    ///
    /// The check works on a copy of the attributes and is not atomic against
    /// the session store: two requests of one session that run at once may
    /// both be admitted on the last free slot. The ceiling is a soft limit.
    pub fn check(&mut self, config: &RateConfig, now: i64) -> (d: RateDecision)
        ensures
            (d, final(self)@) == rate_step(*config, old(self)@, now as int),
    {
        if !config.enabled {
            return RateDecision::Admit;
        }
        let counter = self.current_counter();
        let start: i64 = match self.rate_window_start {
            Some(t) => t,
            None => now,
        };
        let elapsed: i128 = now as i128 - start as i128;
        let window: i128 = config.window_seconds as i128 * 1000;
        if elapsed > window {
            self.rate_counter = Some(1);
            self.rate_window_start = Some(now);
            return RateDecision::Admit;
        }
        if counter.0 >= config.max_requests {
            return RateDecision::Reject;
        }
        self.rate_counter = Some(counter.0 + 1);
        self.rate_window_start = Some(start);
        RateDecision::Admit
    }

}

} // verus!
