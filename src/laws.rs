use vstd::prelude::*;
use crate::auth::{AuthError, SessionFault, identity_result, login_step, logout_step, stored_rate_outcome};
use crate::rate_limit::{RateConfig, RateDecision, rate_step, window_expired};
use crate::session::{SessionView, empty_session};
use crate::store::{StoreError, argon2_verifies, credentials_accepted, phc_parses};

verus! {

/// A series of checks on one session at the given times: the decisions, in
/// order, and the session after the last one.
pub open spec fn run_checks(cfg: RateConfig, s: SessionView, times: Seq<int>) -> (Seq<RateDecision>, SessionView)
    decreases times.len(),
{
    if times.len() == 0 {
        (Seq::empty(), s)
    } else {
        let (d, next) = rate_step(cfg, s, times[0]);
        let (rest, last) = run_checks(cfg, next, times.drop_first());
        (seq![d] + rest, last)
    }
}

/// The session holds no rate state.
pub open spec fn no_rate_state(s: SessionView) -> bool {
    s.rate_counter is None && s.rate_window_start is None
}

/// Every time lies at most one window length after `t0`.
pub open spec fn within_window(cfg: RateConfig, t0: int, times: Seq<int>) -> bool {
    forall|i: int| 0 <= i < times.len() ==> times[i] - t0 <= cfg.window_seconds * 1000
}

/// The first check of a session without rate state admits the request and
/// starts a window with the counter at one, when limiting is on and the
/// ceiling admits any request at all.
pub proof fn lemma_first_check_admits(cfg: RateConfig, s: SessionView, now: int)
    requires
        cfg.enabled,
        cfg.max_requests > 0,
        no_rate_state(s),
    ensures
        rate_step(cfg, s, now).0 == RateDecision::Admit,
        rate_step(cfg, s, now).1.rate_counter == Some(1nat),
        rate_step(cfg, s, now).1.rate_window_start == Some(now),
        rate_step(cfg, s, now).1.identity == s.identity,
{
}

proof fn lemma_run_in_window(cfg: RateConfig, s: SessionView, t0: int, times: Seq<int>)
    requires
        cfg.enabled,
        s.rate_window_start == Some(t0),
        s.rate_counter is Some,
        s.rate_counter->Some_0 <= cfg.max_requests,
        within_window(cfg, t0, times),
    ensures
        run_checks(cfg, s, times).0.len() == times.len(),
        forall|i: int| 0 <= i < times.len() ==> run_checks(cfg, s, times).0[i] == (
            if s.rate_counter->Some_0 + i < cfg.max_requests { RateDecision::Admit } else { RateDecision::Reject }),
    decreases times.len(),
{
    if times.len() > 0 {
        let (d, next) = rate_step(cfg, s, times[0]);
        let tail = times.drop_first();
        assert(within_window(cfg, t0, tail)) by {
            assert forall|i: int| 0 <= i < tail.len() implies tail[i] - t0 <= cfg.window_seconds * 1000 by {
                assert(tail[i] == times[i + 1]);
            }
        }
        lemma_run_in_window(cfg, next, t0, tail);
        let ds = run_checks(cfg, s, times).0;
        assert forall|i: int| 0 <= i < times.len() implies ds[i] == (
            if s.rate_counter->Some_0 + i < cfg.max_requests { RateDecision::Admit } else { RateDecision::Reject }) by {
            if i > 0 {
                assert(ds[i] == run_checks(cfg, next, tail).0[i - 1]);
            }
        }
    }
}

proof fn lemma_run_without_budget(cfg: RateConfig, s: SessionView, times: Seq<int>)
    requires
        cfg.enabled,
        cfg.max_requests == 0,
        cfg.window_seconds >= 0,
        no_rate_state(s),
    ensures
        run_checks(cfg, s, times).0.len() == times.len(),
        forall|i: int| 0 <= i < times.len() ==> run_checks(cfg, s, times).0[i] == RateDecision::Reject,
    decreases times.len(),
{
    if times.len() > 0 {
        let (d, next) = rate_step(cfg, s, times[0]);
        let tail = times.drop_first();
        lemma_run_without_budget(cfg, next, tail);
        let ds = run_checks(cfg, s, times).0;
        assert forall|i: int| 0 <= i < times.len() implies ds[i] == RateDecision::Reject by {
            if i > 0 {
                assert(ds[i] == run_checks(cfg, next, tail).0[i - 1]);
            }
        }
    }
}

/// Within one window that a session without rate state opens, the first
/// `max_requests` checks admit and the next one rejects.
pub proof fn lemma_ceiling(cfg: RateConfig, s: SessionView, times: Seq<int>)
    requires
        cfg.enabled,
        no_rate_state(s),
        times.len() == cfg.max_requests + 1,
        within_window(cfg, times[0], times),
    ensures
        run_checks(cfg, s, times).0.len() == times.len(),
        forall|i: int| 0 <= i < cfg.max_requests ==> run_checks(cfg, s, times).0[i] == RateDecision::Admit,
        run_checks(cfg, s, times).0[cfg.max_requests as int] == RateDecision::Reject,
{
    assert(times[0] - times[0] <= cfg.window_seconds * 1000);
    if cfg.max_requests == 0 {
        lemma_run_without_budget(cfg, s, times);
    } else {
        let (d, next) = rate_step(cfg, s, times[0]);
        let tail = times.drop_first();
        assert(within_window(cfg, times[0], tail)) by {
            assert forall|i: int| 0 <= i < tail.len() implies tail[i] - times[0] <= cfg.window_seconds * 1000 by {
                assert(tail[i] == times[i + 1]);
            }
        }
        lemma_run_in_window(cfg, next, times[0], tail);
        let ds = run_checks(cfg, s, times).0;
        assert forall|i: int| 0 < i <= cfg.max_requests implies ds[i] == run_checks(cfg, next, tail).0[i - 1] by {}
    }
}

/// When more than a window length has passed since the window began, the
/// next check admits, whatever the counter, and starts a new window at `now`
/// with the counter at one.
pub proof fn lemma_rollover(cfg: RateConfig, s: SessionView, start: int, now: int)
    requires
        cfg.enabled,
        s.rate_window_start == Some(start),
        window_expired(cfg, start, now),
    ensures
        rate_step(cfg, s, now).0 == RateDecision::Admit,
        rate_step(cfg, s, now).1.rate_counter == Some(1nat),
        rate_step(cfg, s, now).1.rate_window_start == Some(now),
{
}

/// With limiting off, any series of checks admits every request and leaves
/// the session exactly as it was, and over stored attributes there is never
/// anything to write.
pub proof fn lemma_disabled(cfg: RateConfig, s: SessionView, times: Seq<int>)
    requires
        !cfg.enabled,
    ensures
        forall|counter: Result<Option<usize>, SessionFault>, start: Result<Option<i64>, SessionFault>, now: int|
            stored_rate_outcome(cfg, counter, start, now) == Ok::<Option<(usize, i64)>, AuthError>(None),
        run_checks(cfg, s, times).1 == s,
        run_checks(cfg, s, times).0.len() == times.len(),
        forall|i: int| 0 <= i < times.len() ==> run_checks(cfg, s, times).0[i] == RateDecision::Admit,
    decreases times.len(),
{
    if times.len() > 0 {
        let tail = times.drop_first();
        lemma_disabled(cfg, s, tail);
        let ds = run_checks(cfg, s, times).0;
        assert forall|i: int| 0 <= i < times.len() implies ds[i] == RateDecision::Admit by {
            if i > 0 {
                assert(ds[i] == run_checks(cfg, s, tail).0[i - 1]);
            }
        }
    }
}

/// After a login with accepted credentials the session answers with the
/// email that logged in; after a logout that follows, it answers
/// `Unauthenticated`.
pub proof fn lemma_login_logout_round_trip(
    s: SessionView,
    email: Seq<char>,
    password: Seq<char>,
    lookup: Result<String, StoreError>,
)
    requires
        credentials_accepted(lookup, password),
    ensures
        ({
            let (login_result, logged_in) = login_step(s, email, credentials_accepted(lookup, password));
            let (logout_result, logged_out) = logout_step(logged_in);
            &&& login_result == Ok::<(), AuthError>(())
            &&& identity_result(logged_in) == Ok::<Seq<char>, AuthError>(email)
            &&& logout_result == Ok::<(), AuthError>(())
            &&& identity_result(logged_out) == Err::<Seq<char>, AuthError>(AuthError::Unauthenticated)
        }),
{
}

/// A login for an account that the lookup did not find and a login with a
/// wrong password for one it found end in the same result and leave the
/// session the same.
pub proof fn lemma_credential_uniformity(
    s: SessionView,
    email: Seq<char>,
    password: Seq<char>,
    missing: StoreError,
    stored: String,
    wrong: Seq<char>,
)
    requires
        phc_parses(stored@),
        !argon2_verifies(wrong, stored@),
    ensures
        login_step(s, email, credentials_accepted(Err(missing), password))
            == login_step(s, email, credentials_accepted(Ok(stored), wrong)),
        login_step(s, email, credentials_accepted(Err(missing), password)).0
            == Err::<(), AuthError>(AuthError::IncorrectCredentials),
{
}

/// Two logouts in a row both succeed, and the second leaves the session as
/// the first did: empty and anonymous.
pub proof fn lemma_logout_idempotent(s: SessionView)
    ensures
        logout_step(s).0 == Ok::<(), AuthError>(()),
        logout_step(logout_step(s).1) == logout_step(s),
        logout_step(s).1 == empty_session(),
        identity_result(logout_step(s).1) == Err::<Seq<char>, AuthError>(AuthError::Unauthenticated),
{
}

} // verus!
