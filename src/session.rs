use vstd::prelude::*;

verus! {

/// Days of inactivity after which the session store drops a session.
pub const SESSION_INACTIVITY_DAYS: i64 = 30;

/// The attributes of one client's session that request admission reads and
/// writes. Timestamps are milliseconds since the Unix epoch.
#[derive(Debug, Clone)]
pub struct SessionData {
    /// The authenticated principal (an email address); `None` when anonymous.
    pub identity: Option<String>,
    /// Requests admitted in the current rate window.
    pub rate_counter: Option<usize>,
    /// When the current rate window began.
    pub rate_window_start: Option<i64>,
}

/// The abstract content of a session.
pub struct SessionView {
    pub identity: Option<Seq<char>>,
    pub rate_counter: Option<nat>,
    pub rate_window_start: Option<int>,
}

pub open spec fn text_view(o: Option<String>) -> Option<Seq<char>> {
    match o {
        Some(s) => Some(s@),
        None => None,
    }
}

impl View for SessionData {
    type V = SessionView;

    open spec fn view(&self) -> SessionView {
        SessionView {
            identity: text_view(self.identity),
            rate_counter: match self.rate_counter {
                Some(c) => Some(c as nat),
                None => None,
            },
            rate_window_start: match self.rate_window_start {
                Some(t) => Some(t as int),
                None => None,
            },
        }
    }
}

/// A session that holds no attribute at all: anonymous, with no rate state.
pub open spec fn empty_session() -> SessionView {
    SessionView { identity: None, rate_counter: None, rate_window_start: None }
}

impl SessionData {
    /// A fresh session, as the store creates it on first contact.
    pub fn new() -> (r: SessionData)
        ensures
            r@ == empty_session(),
    {
        SessionData { identity: None, rate_counter: None, rate_window_start: None }
    }
}

} // verus!
