use vstd::prelude::*;
use crate::rate_limit::{RateConfig, RateDecision, RateLimit, counter_of, rate_step, window_start_of};
use crate::session::{SessionData, SessionView, empty_session};
use crate::store::{StoreError, authenticate_user, credentials_accepted};

verus! {

/// Why a request was not let through to its route.
#[derive(Debug, Clone, Copy, PartialEq, Eq, Structural)]
pub enum AuthError {
    /// The session store could not be read or written: the request fails closed.
    SessionUnavailable,
    /// The session exceeded the request ceiling of its current window.
    RateLimited,
    /// The session carries no identity.
    Unauthenticated,
    /// Login failed; an unknown account and a wrong password look the same.
    IncorrectCredentials,
}

/// The HTTP status with which each admission failure is answered.
pub open spec fn auth_status(e: AuthError) -> u16 {
    match e {
        AuthError::SessionUnavailable => 500,
        AuthError::RateLimited => 429,
        AuthError::Unauthenticated => 401,
        AuthError::IncorrectCredentials => 401,
    }
}

impl AuthError {
    /// The HTTP status code of this failure.
    pub fn status_code(&self) -> (r: u16)
        ensures
            r == auth_status(*self),
    {
        match self {
            AuthError::SessionUnavailable => 500,
            AuthError::RateLimited => 429,
            AuthError::Unauthenticated => 401,
            AuthError::IncorrectCredentials => 401,
        }
    }
}

/// The abstract form of a result that carries text.
pub open spec fn text_result(r: Result<String, AuthError>) -> Result<Seq<char>, AuthError> {
    match r {
        Ok(s) => Ok(s@),
        Err(e) => Err(e),
    }
}

/// The identity of a session, or `Unauthenticated` when it has none.
pub open spec fn identity_result(s: SessionView) -> Result<Seq<char>, AuthError> {
    match s.identity {
        Some(id) => Ok(id),
        None => Err(AuthError::Unauthenticated),
    }
}

/// A login attempt with `email`, whose credentials were `accepted` or not:
/// its result and the session afterwards.
pub open spec fn login_step(s: SessionView, email: Seq<char>, accepted: bool) -> (Result<(), AuthError>, SessionView) {
    if accepted {
        (
            Ok(()),
            SessionView {
                identity: Some(email),
                rate_counter: s.rate_counter,
                rate_window_start: s.rate_window_start,
            },
        )
    } else {
        (Err(AuthError::IncorrectCredentials), s)
    }
}

/// A logout: it always succeeds and leaves an empty session.
pub open spec fn logout_step(s: SessionView) -> (Result<(), AuthError>, SessionView) {
    (Ok(()), empty_session())
}

/// A rate check followed by the identity gate, as every protected route runs
/// them: its result and the session afterwards.
pub open spec fn admission(cfg: RateConfig, s: SessionView, now: int) -> (Result<Seq<char>, AuthError>, SessionView) {
    let (d, next) = rate_step(cfg, s, now);
    if d == RateDecision::Reject {
        (Err(AuthError::RateLimited), next)
    } else {
        (identity_result(next), next)
    }
}

/// The identity of the caller, for protected operations. Reads only.
pub fn require_login(session: &SessionData) -> (r: Result<String, AuthError>)
    ensures
        text_result(r) == identity_result(session@),
{
    match &session.identity {
        Some(id) => Ok(id.clone()),
        None => Err(AuthError::Unauthenticated),
    }
}

/// Who the caller is, as the current-user route answers it at time `now`:
/// the rate check runs first and counts the request, so that asking without
/// an identity still uses up the caller's budget; then the identity of the
/// session, or `Unauthenticated`.
pub fn get_current_user(session: &mut SessionData, config: &RateConfig, now: i64) -> (r: Result<String, AuthError>)
    ensures
        (text_result(r), final(session)@) == admission(*config, old(session)@, now as int),
{
    admit_protected(session, config, now)
}

/// Logs `email` in when `password` matches the hash that the lookup of its
/// account found. On success the session's identity becomes `email` (a
/// previous one is replaced); on any failure, whether the account is unknown,
/// its hash unreadable or the password wrong, the result is
/// `IncorrectCredentials` and the session is left as it was.
pub fn login(
    session: &mut SessionData,
    email: String,
    password: &str,
    lookup: Result<String, StoreError>,
) -> (r: Result<(), AuthError>)
    ensures
        (r, final(session)@) == login_step(old(session)@, email@, credentials_accepted(lookup, password@)),
{
    match authenticate_user(lookup, password) {
        Ok(_) => {
            session.identity = Some(email);
            Ok(())
        },
        Err(_) => Err(AuthError::IncorrectCredentials),
    }
}

/// Ends the session: every attribute goes, identity and rate state alike.
/// Succeeds on an anonymous session too.
pub fn logout(session: &mut SessionData) -> (r: Result<(), AuthError>)
    ensures
        (r, final(session)@) == logout_step(old(session)@),
{
    session.identity = None;
    session.rate_counter = None;
    session.rate_window_start = None;
    Ok(())
}

/// The rate limiter as the first step of a route: `Ok` when the request may
/// go on, `RateLimited` when the window's ceiling is reached.
pub fn rate_limit(session: &mut SessionData, config: &RateConfig, now: i64) -> (r: Result<RateLimit, AuthError>)
    ensures
        final(session)@ == rate_step(*config, old(session)@, now as int).1,
        r is Ok <==> rate_step(*config, old(session)@, now as int).0 == RateDecision::Admit,
        r is Err ==> r == Err::<RateLimit, AuthError>(AuthError::RateLimited),
{
    match session.check(config, now) {
        RateDecision::Admit => Ok(RateLimit),
        RateDecision::Reject => Err(AuthError::RateLimited),
    }
}

/// A failed read or write of the session store.
#[derive(Debug, Clone, Copy, PartialEq, Eq, Structural)]
pub struct SessionFault;

/// An anonymous session holding the rate attributes that were read.
pub open spec fn stored_session(counter: Option<usize>, start: Option<i64>) -> SessionView {
    SessionView {
        identity: None,
        rate_counter: match counter {
            Some(c) => Some(c as nat),
            None => None,
        },
        rate_window_start: match start {
            Some(t) => Some(t as int),
            None => None,
        },
    }
}

/// The rate limiter over what the session store returned for the counter and
/// the window start: `Ok(None)` when limiting is off (nothing to write),
/// `Ok(Some((counter, start)))` with the attributes to write when the request
/// is admitted, `RateLimited` when it is refused, and `SessionUnavailable`
/// when a read failed: a store fault never admits a request.
pub open spec fn stored_rate_outcome(
    cfg: RateConfig,
    counter: Result<Option<usize>, SessionFault>,
    start: Result<Option<i64>, SessionFault>,
    now: int,
) -> Result<Option<(usize, i64)>, AuthError> {
    if !cfg.enabled {
        Ok(None)
    } else if counter is Err || start is Err {
        Err(AuthError::SessionUnavailable)
    } else {
        let (d, next) = rate_step(cfg, stored_session(counter->Ok_0, start->Ok_0), now);
        if d == RateDecision::Reject {
            Err(AuthError::RateLimited)
        } else {
            Ok(Some((counter_of(next) as usize, window_start_of(next, now) as i64)))
        }
    }
}

/// The rate limiter at time `now` over the attributes as the session store
/// returned them.
pub fn rate_limit_stored_at(
    config: &RateConfig,
    counter: Result<Option<usize>, SessionFault>,
    window_start: Result<Option<i64>, SessionFault>,
    now: i64,
) -> (r: Result<Option<(usize, i64)>, AuthError>)
    ensures
        r == stored_rate_outcome(*config, counter, window_start, now as int),
{
    if !config.enabled {
        return Ok(None);
    }
    let mut data = SessionData::new();
    match counter {
        Ok(c) => data.rate_counter = c,
        Err(_) => return Err(AuthError::SessionUnavailable),
    }
    match window_start {
        Ok(t) => data.rate_window_start = t,
        Err(_) => return Err(AuthError::SessionUnavailable),
    }
    let ghost before = data@;
    assert(before == stored_session(counter->Ok_0, window_start->Ok_0));
    match rate_limit(&mut data, config, now) {
        Err(e) => Err(e),
        Ok(_) => match (data.rate_counter, data.rate_window_start) {
            (Some(c), Some(t)) => Ok(Some((c, t))),
            _ => Err(AuthError::SessionUnavailable),
        },
    }
}

/// Admission for a protected route: the rate check first, so that requests
/// refused for want of an identity still use up the caller's budget, then the
/// identity gate.
pub fn admit_protected(session: &mut SessionData, config: &RateConfig, now: i64) -> (r: Result<String, AuthError>)
    ensures
        (text_result(r), final(session)@) == admission(*config, old(session)@, now as int),
{
    match rate_limit(session, config, now) {
        Ok(_) => require_login(session),
        Err(e) => Err(e),
    }
}

/// The identity as the session store returned it: a failed read counts as
/// no identity.
pub open spec fn stored_identity(identity: Result<Option<String>, SessionFault>) -> Result<Seq<char>, AuthError> {
    match identity {
        Ok(Some(id)) => Ok(id@),
        _ => Err(AuthError::Unauthenticated),
    }
}

/// Admission for a protected route over what the session store returned:
/// the rate attributes to write back (if any), and the identity or the
/// failure. The rate check comes first: when it refuses, nothing is written
/// and the identity is not looked at; when it admits, its writes stand even
/// if the caller then turns out to be anonymous.
pub open spec fn stored_admission(
    cfg: RateConfig,
    counter: Result<Option<usize>, SessionFault>,
    start: Result<Option<i64>, SessionFault>,
    identity: Result<Option<String>, SessionFault>,
    now: int,
) -> (Option<(usize, i64)>, Result<Seq<char>, AuthError>) {
    match stored_rate_outcome(cfg, counter, start, now) {
        Err(e) => (None, Err(e)),
        Ok(writes) => (writes, stored_identity(identity)),
    }
}

/// Admission for a protected route at time `now`, over the rate attributes
/// and the identity as the session store returned them: the rate attributes
/// to write back, and the caller's identity or why the request is refused.
pub fn admit_protected_stored(
    config: &RateConfig,
    counter: Result<Option<usize>, SessionFault>,
    window_start: Result<Option<i64>, SessionFault>,
    identity: Result<Option<String>, SessionFault>,
    now: i64,
) -> (r: (Option<(usize, i64)>, Result<String, AuthError>))
    ensures
        (r.0, text_result(r.1)) == stored_admission(*config, counter, window_start, identity, now as int),
{
    match rate_limit_stored_at(config, counter, window_start, now) {
        Err(e) => (None, Err(e)),
        Ok(writes) => {
            let mut data = SessionData::new();
            match identity {
                Ok(id) => data.identity = id,
                Err(_) => {},
            }
            (writes, require_login(&data))
        },
    }
}

} // verus!
