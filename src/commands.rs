use vstd::prelude::*;
use crate::backend::RemoteClient;
use crate::cache::after_sent;
use crate::gateway::{notice_view, start_failure, Gateway};
use crate::model::{
    chats_view, fails_with, AuthRequest, AuthResponse, ChatSummary, Failure, GatewayError,
    NotificationPayload, SendMessageRequest, SendMessageResponse, UploadMediaRequest,
    UploadMediaResponse,
};
use crate::session::Phase;
use crate::validation::{blank, credentials_ok};

verus! {

/// Signs in: the credentials are checked and the login started before the backend
/// is asked. Refused credentials or a session that may not log in fail without a
/// backend call and leave the session as it was. Then the backend's token
/// authenticates the session, or its refusal comes back as `AuthRejected` and the
/// session is anonymous again.
pub fn login<R: RemoteClient>(gw: &mut Gateway, remote: &mut R, payload: AuthRequest) -> (r: Result<
    AuthResponse,
    GatewayError,
>)
    ensures
        final(gw).chats() == old(gw).chats(),
        final(gw).notices() == old(gw).notices(),
        start_failure(old(gw).phase(), credentials_ok(&payload)) matches Some(f) ==> fails_with(
            r,
            f,
        ) && final(gw).phase() == old(gw).phase() && *final(remote) == *old(remote),
        start_failure(old(gw).phase(), credentials_ok(&payload)) is None ==> ((r matches Ok(a)
            && final(gw).phase() == Phase::Authenticated(a.token@)) || (r matches Err(
            GatewayError::AuthRejected(_),
        ) && final(gw).phase() == Phase::Anonymous)),
{
    match gw.start_login(&payload) {
        Err(e) => Err(e),
        Ok(()) => {
            let answer = remote.authenticate(&payload);
            gw.finish_login(answer)
        },
    }
}

/// Sends a message: a blank body is `InvalidInput`, and without a session
/// `Unauthenticated`, both without a backend call. Then the backend's id comes
/// back and the chat's last message becomes the body, or its failure comes back
/// as `RemoteUnavailable` and the chats stay as they were.
pub fn send_message<R: RemoteClient>(
    gw: &mut Gateway,
    remote: &mut R,
    payload: SendMessageRequest,
) -> (r: Result<SendMessageResponse, GatewayError>)
    ensures
        final(gw).phase() == old(gw).phase(),
        final(gw).notices() == old(gw).notices(),
        blank(payload.message@) ==> fails_with(r, Failure::InvalidInput("Message cannot be empty"@))
            && final(gw).chats() == old(gw).chats() && *final(remote) == *old(remote),
        !blank(payload.message@) && !(old(gw).phase() is Authenticated) ==> fails_with(
            r,
            Failure::Unauthenticated,
        ) && final(gw).chats() == old(gw).chats() && *final(remote) == *old(remote),
        !blank(payload.message@) && old(gw).phase() is Authenticated ==> ((r is Ok
            && final(gw).chats() == after_sent(old(gw).chats(), payload.chat_id@, payload.message@))
            || (r matches Err(GatewayError::RemoteUnavailable(_)) && final(gw).chats() == old(
            gw,
        ).chats())),
{
    match gw.start_send_message(&payload) {
        Err(e) => Err(e),
        Ok(token) => {
            let answer = remote.send(&token, &payload.chat_id, &payload.message);
            gw.finish_send_message(&payload, answer)
        },
    }
}

/// Uploads a file: no bytes is `InvalidInput`, and without a session
/// `Unauthenticated`, both without a backend call. Then the backend's url comes
/// back, or its failure as `RemoteUnavailable`.
pub fn upload_media<R: RemoteClient>(
    gw: &mut Gateway,
    remote: &mut R,
    payload: UploadMediaRequest,
) -> (r: Result<UploadMediaResponse, GatewayError>)
    ensures
        *final(gw) == *old(gw),
        payload.bytes@.len() == 0 ==> fails_with(r, Failure::InvalidInput("File payload is empty"@))
            && *final(remote) == *old(remote),
        payload.bytes@.len() > 0 && !(old(gw).phase() is Authenticated) ==> fails_with(
            r,
            Failure::Unauthenticated,
        ) && *final(remote) == *old(remote),
        payload.bytes@.len() > 0 && old(gw).phase() is Authenticated ==> (r is Ok || r matches Err(
            GatewayError::RemoteUnavailable(_),
        )),
{
    match gw.start_upload_media(&payload) {
        Err(e) => Err(e),
        Ok(token) => {
            let answer = remote.upload(&token, &payload.chat_id, &payload.file_name, &payload.bytes);
            gw.finish_upload_media(answer)
        },
    }
}

/// Lists the conversations: the backend's list replaces the cache; when the
/// backend fails the last good list stays. Either way the cache is returned.
pub fn get_chats<R: RemoteClient>(gw: &mut Gateway, remote: &mut R) -> (r: Vec<ChatSummary>)
    ensures
        final(gw).phase() == old(gw).phase(),
        final(gw).notices() == old(gw).notices(),
        chats_view(r@) == final(gw).chats(),
{
    let answer = remote.list_chats();
    gw.apply_chat_listing(answer)
}

/// Surfaces a notification: a blank title is `InvalidInput` and nothing is
/// queued; otherwise it is queued exactly once for the presentation surface.
pub fn handle_notifications(gw: &mut Gateway, payload: NotificationPayload) -> (r: Result<
    (),
    GatewayError,
>)
    ensures
        final(gw).phase() == old(gw).phase(),
        final(gw).chats() == old(gw).chats(),
        blank(payload.title@) ==> fails_with(
            r,
            Failure::InvalidInput("Notification title is required"@),
        ) && final(gw).notices() == old(gw).notices(),
        !blank(payload.title@) ==> r is Ok && final(gw).notices() == old(gw).notices().push(
            notice_view(payload),
        ),
{
    gw.deliver_notification(&payload)
}

} // verus!
