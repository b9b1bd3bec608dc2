use vstd::prelude::*;
use crate::cache::{after_sent, ChatCache};
use crate::model::{
    chats_view, fails_with, AuthRequest, AuthResponse, ChatSummary, ChatView, Failure,
    GatewayError, NotificationPayload, SendMessageRequest, SendMessageResponse,
    UploadMediaRequest, UploadMediaResponse,
};
use crate::session::{Phase, Session};
use crate::validation::{
    blank, credentials_ok, validate_credentials, validate_media_asset, validate_notification,
    validate_outbound_message,
};

verus! {

/// The session phase once a login was asked for in phase `p`, with credentials
/// that are well formed (`ok`) or not.
pub open spec fn phase_after_start(p: Phase, ok: bool) -> Phase {
    if ok && p == Phase::Anonymous {
        Phase::Authenticating
    } else {
        p
    }
}

/// How asking for a login in phase `p` fails, if it does.
pub open spec fn start_failure(p: Phase, ok: bool) -> Option<Failure> {
    if !ok {
        Some(Failure::InvalidInput("Email and password are required"@))
    } else {
        match p {
            Phase::Anonymous => None,
            Phase::Authenticating => Some(Failure::AlreadyInProgress),
            Phase::Authenticated(_) => Some(Failure::InvalidState),
        }
    }
}

/// The session phase once the backend answered a login with `outcome`:
/// a token, or the reason it refused.
pub open spec fn phase_after_answer(outcome: Result<Seq<char>, Seq<char>>) -> Phase {
    match outcome {
        Ok(t) => Phase::Authenticated(t),
        Err(_) => Phase::Anonymous,
    }
}

/// The value of a notification: its title and its body.
pub open spec fn notice_view(n: NotificationPayload) -> (Seq<char>, Seq<char>) {
    (n.title@, n.body@)
}

/// Blank credentials are refused with `InvalidInput` whatever the phase, and the
/// session stays where it was: an anonymous session stays anonymous.
pub proof fn lemma_blank_credentials_refused(c: &AuthRequest, p: Phase)
    requires
        !credentials_ok(c),
    ensures
        phase_after_start(p, credentials_ok(c)) == p,
        start_failure(p, credentials_ok(c)) == Some(
            Failure::InvalidInput("Email and password are required"@),
        ),
{
}

/// With well-formed credentials, a login from an anonymous session starts; a
/// second login asked for before the answer fails with `AlreadyInProgress` and
/// leaves the login under way; a granted token then authenticates the session.
pub proof fn lemma_login_sequence(c: &AuthRequest, token: Seq<char>)
    requires
        credentials_ok(c),
    ensures
        start_failure(Phase::Anonymous, credentials_ok(c)) is None,
        phase_after_start(Phase::Anonymous, credentials_ok(c)) == Phase::Authenticating,
        start_failure(Phase::Authenticating, credentials_ok(c)) == Some(Failure::AlreadyInProgress),
        phase_after_start(Phase::Authenticating, credentials_ok(c)) == Phase::Authenticating,
        phase_after_answer(Ok(token)) == Phase::Authenticated(token),
{
}

/// The command gateway: it owns the session and the chat cache, checks each
/// request, and decides what each backend answer does to them. The backend call
/// itself is made by the caller between the two halves of an operation.
pub struct Gateway {
    session: Session,
    cache: ChatCache,
    outbox: Vec<NotificationPayload>,
}

impl Gateway {
    /// The authentication phase of the session.
    pub closed spec fn phase(&self) -> Phase {
        self.session@
    }

    /// The cached conversation summaries.
    pub closed spec fn chats(&self) -> Seq<ChatView> {
        self.cache@
    }

    /// The notifications accepted and not yet handed to the presentation surface.
    pub closed spec fn notices(&self) -> Seq<(Seq<char>, Seq<char>)> {
        self.outbox@.map_values(|n: NotificationPayload| notice_view(n))
    }

    /// A gateway at startup: anonymous, with no chats and no notifications.
    pub fn new() -> (r: Gateway)
        ensures
            r.phase() == Phase::Anonymous,
            r.chats() == Seq::<ChatView>::empty(),
            r.notices() == Seq::<(Seq<char>, Seq<char>)>::empty(),
    {
        let r = Gateway { session: Session::new(), cache: ChatCache::new(), outbox: Vec::new() };
        assert(r.notices() =~= Seq::<(Seq<char>, Seq<char>)>::empty());
        r
    }

    /// First half of a login: checks the credentials and starts the login. On
    /// `Ok` the caller asks the backend to authenticate and hands the answer to
    /// `finish_login`. Refused credentials leave the session as it was.
    pub fn start_login(&mut self, req: &AuthRequest) -> (r: Result<(), GatewayError>)
        ensures
            final(self).phase() == phase_after_start(old(self).phase(), credentials_ok(req)),
            r is Ok <==> start_failure(old(self).phase(), credentials_ok(req)) is None,
            r matches Err(e) ==> start_failure(old(self).phase(), credentials_ok(req)) == Some(
                e@,
            ),
            final(self).chats() == old(self).chats(),
            final(self).notices() == old(self).notices(),
    {
        match validate_credentials(req) {
            Err(e) => Err(e),
            Ok(()) => self.session.begin_login(),
        }
    }

    /// Second half of a login: the backend granted a token or refused with a reason.
    /// With no login under way (it was dropped meanwhile) the answer is ignored and
    /// the result is `InvalidState`.
    pub fn finish_login(&mut self, outcome: Result<String, String>) -> (r: Result<
        AuthResponse,
        GatewayError,
    >)
        ensures
            old(self).phase() != Phase::Authenticating ==> fails_with(r, Failure::InvalidState)
                && final(self).phase() == old(self).phase(),
            old(self).phase() == Phase::Authenticating ==> match outcome {
                Ok(t) => final(self).phase() == phase_after_answer(Ok(t@)) && (r matches Ok(a)
                    && a.token@ == t@),
                Err(m) => final(self).phase() == phase_after_answer(Err(m@)) && fails_with(
                    r,
                    Failure::AuthRejected(m@),
                ),
            },
            final(self).chats() == old(self).chats(),
            final(self).notices() == old(self).notices(),
    {
        if !self.session.is_authenticating() {
            return Err(GatewayError::InvalidState);
        }
        match outcome {
            Ok(t) => {
                let token = t.clone();
                self.session.complete_login(t);
                Ok(AuthResponse { token })
            },
            Err(m) => Err(self.session.complete_login_failed(m)),
        }
    }

    /// Whether a login is under way.
    pub fn login_in_progress(&self) -> (r: bool)
        ensures
            r == (self.phase() == Phase::Authenticating),
    {
        self.session.is_authenticating()
    }

    /// Drops the session back to anonymous.
    pub fn logout(&mut self)
        ensures
            final(self).phase() == Phase::Anonymous,
            final(self).chats() == old(self).chats(),
            final(self).notices() == old(self).notices(),
    {
        self.session.logout();
    }

    /// First half of sending: checks the message and gives the token to send it
    /// with. A blank body is `InvalidInput`; without a session, `Unauthenticated`.
    pub fn start_send_message(&self, req: &SendMessageRequest) -> (r: Result<String, GatewayError>)
        ensures
            blank(req.message@) ==> fails_with(r, Failure::InvalidInput("Message cannot be empty"@)),
            !blank(req.message@) ==> match self.phase() {
                Phase::Authenticated(t) => r matches Ok(s) && s@ == t,
                _ => fails_with(r, Failure::Unauthenticated),
            },
    {
        match validate_outbound_message(req) {
            Err(e) => Err(e),
            Ok(()) => self.session.current_token(),
        }
    }

    /// Second half of sending: the backend accepted the message under an id, or
    /// failed. Only an accepted message updates its chat's last message.
    pub fn finish_send_message(
        &mut self,
        req: &SendMessageRequest,
        outcome: Result<String, String>,
    ) -> (r: Result<SendMessageResponse, GatewayError>)
        requires
            !blank(req.message@),
        ensures
            final(self).phase() == old(self).phase(),
            final(self).notices() == old(self).notices(),
            match outcome {
                Ok(id) => (r matches Ok(a) && a.message_id@ == id@) && final(self).chats()
                    == after_sent(old(self).chats(), req.chat_id@, req.message@),
                Err(m) => fails_with(r, Failure::RemoteUnavailable(m@)) && final(self).chats()
                    == old(self).chats(),
            },
    {
        match outcome {
            Ok(id) => {
                self.cache.apply_sent_message(&req.chat_id, &req.message);
                Ok(SendMessageResponse { message_id: id })
            },
            Err(m) => Err(GatewayError::RemoteUnavailable(m)),
        }
    }

    /// First half of an upload: checks the payload and gives the token to upload
    /// it with. No bytes is `InvalidInput`; without a session, `Unauthenticated`.
    pub fn start_upload_media(&self, req: &UploadMediaRequest) -> (r: Result<String, GatewayError>)
        ensures
            req.bytes@.len() == 0 ==> fails_with(r, Failure::InvalidInput("File payload is empty"@)),
            req.bytes@.len() > 0 ==> match self.phase() {
                Phase::Authenticated(t) => r matches Ok(s) && s@ == t,
                _ => fails_with(r, Failure::Unauthenticated),
            },
    {
        match validate_media_asset(req) {
            Err(e) => Err(e),
            Ok(()) => self.session.current_token(),
        }
    }

    /// Second half of an upload: the backend stored the asset at a url, or failed.
    pub fn finish_upload_media(&self, outcome: Result<String, String>) -> (r: Result<
        UploadMediaResponse,
        GatewayError,
    >)
        ensures
            match outcome {
                Ok(u) => r matches Ok(a) && a.media_url@ == u@,
                Err(m) => fails_with(r, Failure::RemoteUnavailable(m@)),
            },
    {
        match outcome {
            Ok(u) => Ok(UploadMediaResponse { media_url: u }),
            Err(m) => Err(GatewayError::RemoteUnavailable(m)),
        }
    }

    /// The chat list once the backend answered a listing: a fresh list replaces
    /// the cache exactly; on failure the last good list stays and is returned.
    pub fn apply_chat_listing(&mut self, outcome: Result<Vec<ChatSummary>, String>) -> (r: Vec<ChatSummary>)
        ensures
            final(self).phase() == old(self).phase(),
            final(self).notices() == old(self).notices(),
            match outcome {
                Ok(v) => final(self).chats() == chats_view(v@),
                Err(_) => final(self).chats() == old(self).chats(),
            },
            chats_view(r@) == final(self).chats(),
    {
        match outcome {
            Ok(v) => self.cache.refresh(v),
            Err(_) => {},
        }
        self.cache.list()
    }

    /// Accepts a notification for display: a blank title is `InvalidInput` and
    /// nothing is queued; otherwise it is queued once for the presentation surface.
    pub fn deliver_notification(&mut self, n: &NotificationPayload) -> (r: Result<(), GatewayError>)
        ensures
            final(self).phase() == old(self).phase(),
            final(self).chats() == old(self).chats(),
            blank(n.title@) ==> fails_with(
                r,
                Failure::InvalidInput("Notification title is required"@),
            ) && final(self).notices() == old(self).notices(),
            !blank(n.title@) ==> r is Ok && final(self).notices() == old(self).notices().push(
                notice_view(*n),
            ),
    {
        match validate_notification(n) {
            Err(e) => Err(e),
            Ok(()) => {
                let ghost before = self.outbox@;
                self.outbox.push(
                    NotificationPayload { title: n.title.clone(), body: n.body.clone() },
                );
                assert(self.outbox@.map_values(|m: NotificationPayload| notice_view(m))
                    =~= before.map_values(|m: NotificationPayload| notice_view(m)).push(
                    notice_view(*n),
                ));
                Ok(())
            },
        }
    }

    /// Hands out the queued notifications, oldest first, and empties the queue.
    pub fn take_notifications(&mut self) -> (r: Vec<NotificationPayload>)
        ensures
            r@.map_values(|n: NotificationPayload| notice_view(n)) == old(self).notices(),
            final(self).notices() == Seq::<(Seq<char>, Seq<char>)>::empty(),
            final(self).phase() == old(self).phase(),
            final(self).chats() == old(self).chats(),
    {
        let mut r: Vec<NotificationPayload> = Vec::new();
        std::mem::swap(&mut r, &mut self.outbox);
        assert(self.notices() =~= Seq::<(Seq<char>, Seq<char>)>::empty());
        r
    }
}

} // verus!
