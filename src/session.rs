use vstd::prelude::*;
use crate::model::GatewayError;

verus! {

/// The authentication state of the running client.
pub enum SessionState {
    Anonymous,
    Authenticating,
    Authenticated(String),
}

/// The value of a session state; a token as its characters.
pub enum Phase {
    Anonymous,
    Authenticating,
    Authenticated(Seq<char>),
}

impl View for SessionState {
    type V = Phase;

    open spec fn view(&self) -> Phase {
        match self {
            SessionState::Anonymous => Phase::Anonymous,
            SessionState::Authenticating => Phase::Authenticating,
            SessionState::Authenticated(t) => Phase::Authenticated(t@),
        }
    }
}

/// The one session of the application, created anonymous.
pub struct Session {
    state: SessionState,
}

impl View for Session {
    type V = Phase;

    closed spec fn view(&self) -> Phase {
        self.state@
    }
}

impl Session {
    /// A fresh, anonymous session.
    pub fn new() -> (r: Session)
        ensures
            r@ == Phase::Anonymous,
    {
        Session { state: SessionState::Anonymous }
    }

    /// Whether no login is under way nor completed.
    pub fn is_anonymous(&self) -> (r: bool)
        ensures
            r == (self@ == Phase::Anonymous),
    {
        match self.state {
            SessionState::Anonymous => true,
            _ => false,
        }
    }

    /// Whether a login is under way.
    pub fn is_authenticating(&self) -> (r: bool)
        ensures
            r == (self@ == Phase::Authenticating),
    {
        match self.state {
            SessionState::Authenticating => true,
            _ => false,
        }
    }

    /// Starts a login: anonymous becomes authenticating. A login under way gives
    /// `AlreadyInProgress`, an authenticated session `InvalidState`; neither changes it.
    pub fn begin_login(&mut self) -> (r: Result<(), GatewayError>)
        ensures
            old(self)@ == Phase::Anonymous ==> r is Ok && final(self)@ == Phase::Authenticating,
            old(self)@ == Phase::Authenticating ==> (r matches Err(GatewayError::AlreadyInProgress))
                && final(self)@ == old(self)@,
            old(self)@ is Authenticated ==> (r matches Err(GatewayError::InvalidState))
                && final(self)@ == old(self)@,
    {
        match self.state {
            SessionState::Anonymous => {
                self.state = SessionState::Authenticating;
                Ok(())
            },
            SessionState::Authenticating => Err(GatewayError::AlreadyInProgress),
            SessionState::Authenticated(_) => Err(GatewayError::InvalidState),
        }
    }

    /// Ends a login under way with the token the backend granted.
    pub fn complete_login(&mut self, token: String)
        requires
            old(self)@ == Phase::Authenticating,
        ensures
            final(self)@ == Phase::Authenticated(token@),
    {
        self.state = SessionState::Authenticated(token);
    }

    /// Ends a login under way that the backend refused: the session is anonymous
    /// again and the reason comes back as `AuthRejected`.
    pub fn complete_login_failed(&mut self, reason: String) -> (r: GatewayError)
        requires
            old(self)@ == Phase::Authenticating,
        ensures
            final(self)@ == Phase::Anonymous,
            r matches GatewayError::AuthRejected(m) && m@ == reason@,
    {
        self.state = SessionState::Anonymous;
        GatewayError::AuthRejected(reason)
    }

    /// Drops any login, completed or under way.
    pub fn logout(&mut self)
        ensures
            final(self)@ == Phase::Anonymous,
    {
        self.state = SessionState::Anonymous;
    }

    /// The token of an authenticated session; `Unauthenticated` otherwise.
    pub fn current_token(&self) -> (r: Result<String, GatewayError>)
        ensures
            match self@ {
                Phase::Authenticated(t) => r matches Ok(s) && s@ == t,
                _ => r matches Err(GatewayError::Unauthenticated),
            },
    {
        match &self.state {
            SessionState::Authenticated(t) => Ok(t.clone()),
            _ => Err(GatewayError::Unauthenticated),
        }
    }
}

} // verus!
