//! The controlled-browser session protocol: open, navigate (whose
//! failure is deliberately tolerated, since the wanted content often
//! loads despite a reported navigation error), wait a fixed delay
//! (ad playback cannot be observed, only outwaited), capture the
//! rendered markup, and close. The order is strictly linear, with no
//! retries and no branching back; closing is allowed from any live
//! state so that every exit path, success or failure, can release
//! the remote session.

use vstd::prelude::*;

verus! {

/// Where a session stands in its strictly linear life.
#[derive(PartialEq, Eq, Structural, Debug)]
pub enum SessionState {
    Idle,
    Opened,
    Navigated,
    Waited,
    Captured,
    Closed,
}

/// What the driver of a session must do next.
#[derive(PartialEq, Eq, Structural, Debug)]
pub enum SessionAction {
    /// Connect to the automation endpoint.
    Open,
    /// Go to the target URL; a reported failure is tolerated.
    Navigate,
    /// Block for the fixed delay.
    Wait,
    /// Snapshot the rendered markup.
    Capture,
    /// Release the remote session.
    Close,
    /// Nothing is left to do.
    Done,
}

/// How far along a state is; every step moves strictly forward.
pub open spec fn state_index(s: SessionState) -> int {
    match s {
        SessionState::Idle => 0,
        SessionState::Opened => 1,
        SessionState::Navigated => 2,
        SessionState::Waited => 3,
        SessionState::Captured => 4,
        SessionState::Closed => 5,
    }
}

/// The action owed in each state.
pub open spec fn action_of(s: SessionState) -> SessionAction {
    match s {
        SessionState::Idle => SessionAction::Open,
        SessionState::Opened => SessionAction::Navigate,
        SessionState::Navigated => SessionAction::Wait,
        SessionState::Waited => SessionAction::Capture,
        SessionState::Captured => SessionAction::Close,
        SessionState::Closed => SessionAction::Done,
    }
}

/// One browser session's protocol state: what has happened so far
/// and what was captured. The driver performs the outside work and
/// reports each completion here; the session only decides.
pub struct BrowserSession {
    /// Where the session stands.
    pub state: SessionState,
    /// The URL the session is for.
    pub target_url: String,
    /// The fixed delay, in seconds, between navigation and capture.
    pub wait_seconds: u64,
    /// Whether navigation reported a (tolerated) failure.
    pub navigation_failed: bool,
    /// The rendered markup, once captured.
    pub markup: Option<String>,
}

impl BrowserSession {
    /// A fresh session for one URL with a fixed wait.
    pub fn new(target_url: String, wait_seconds: u64) -> (s: BrowserSession)
        ensures
            s.state == SessionState::Idle,
            s.target_url@ == target_url@,
            s.wait_seconds == wait_seconds,
            !s.navigation_failed,
            s.markup is None,
    {
        BrowserSession {
            state: SessionState::Idle,
            target_url,
            wait_seconds,
            navigation_failed: false,
            markup: None,
        }
    }

    /// What the driver must do next.
    pub fn next_action(&self) -> (a: SessionAction)
        ensures
            a == action_of(self.state),
    {
        match self.state {
            SessionState::Idle => SessionAction::Open,
            SessionState::Opened => SessionAction::Navigate,
            SessionState::Navigated => SessionAction::Wait,
            SessionState::Waited => SessionAction::Capture,
            SessionState::Captured => SessionAction::Close,
            SessionState::Closed => SessionAction::Done,
        }
    }

    /// The remote session was created.
    pub fn on_opened(&mut self)
        requires
            old(self).state == SessionState::Idle,
        ensures
            final(self).state == SessionState::Opened,
            final(self).target_url == old(self).target_url,
            final(self).wait_seconds == old(self).wait_seconds,
            final(self).navigation_failed == old(self).navigation_failed,
            final(self).markup == old(self).markup,
    {
        self.state = SessionState::Opened;
    }

    /// Navigation finished, successfully or not: its failure is
    /// non-fatal by design, only remembered.
    pub fn on_navigated(&mut self, ok: bool)
        requires
            old(self).state == SessionState::Opened,
        ensures
            final(self).state == SessionState::Navigated,
            final(self).navigation_failed == !ok,
            final(self).target_url == old(self).target_url,
            final(self).wait_seconds == old(self).wait_seconds,
            final(self).markup == old(self).markup,
    {
        self.state = SessionState::Navigated;
        self.navigation_failed = !ok;
    }

    /// The fixed delay elapsed.
    pub fn on_waited(&mut self)
        requires
            old(self).state == SessionState::Navigated,
        ensures
            final(self).state == SessionState::Waited,
            final(self).target_url == old(self).target_url,
            final(self).wait_seconds == old(self).wait_seconds,
            final(self).navigation_failed == old(self).navigation_failed,
            final(self).markup == old(self).markup,
    {
        self.state = SessionState::Waited;
    }

    /// The rendered markup was captured.
    pub fn on_captured(&mut self, markup: String)
        requires
            old(self).state == SessionState::Waited,
        ensures
            final(self).state == SessionState::Captured,
            final(self).markup matches Some(m) && m@ == markup@,
            final(self).target_url == old(self).target_url,
            final(self).wait_seconds == old(self).wait_seconds,
            final(self).navigation_failed == old(self).navigation_failed,
    {
        self.state = SessionState::Captured;
        self.markup = Some(markup);
    }

    /// The remote session was released. Allowed from every live
    /// state, so an exit taken on failure can still close.
    pub fn on_closed(&mut self)
        requires
            old(self).state != SessionState::Idle,
            old(self).state != SessionState::Closed,
        ensures
            final(self).state == SessionState::Closed,
            final(self).target_url == old(self).target_url,
            final(self).wait_seconds == old(self).wait_seconds,
            final(self).navigation_failed == old(self).navigation_failed,
            final(self).markup == old(self).markup,
    {
        self.state = SessionState::Closed;
    }

    /// The session is done: closed, never to be reused.
    pub fn is_closed(&self) -> (r: bool)
        ensures
            r == (self.state == SessionState::Closed),
    {
        self.state == SessionState::Closed
    }
}

/// The protocol is strictly linear: every completion report moves
/// the session strictly forward, so no state is ever revisited.
pub proof fn lemma_session_linear(pre: SessionState, post: SessionState)
    requires
        ({
            ||| (pre == SessionState::Idle && post == SessionState::Opened)
            ||| (pre == SessionState::Opened && post == SessionState::Navigated)
            ||| (pre == SessionState::Navigated && post == SessionState::Waited)
            ||| (pre == SessionState::Waited && post == SessionState::Captured)
            ||| (pre != SessionState::Idle && pre != SessionState::Closed && post
                == SessionState::Closed)
        }),
    ensures
        state_index(post) > state_index(pre),
{
}

} // verus!
