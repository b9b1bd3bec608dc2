use messenger_desktop::cache::ChatCache;
use messenger_desktop::gateway::Gateway;
use messenger_desktop::model::{
    AuthRequest, ChatSummary, GatewayError, NotificationPayload, SendMessageRequest,
    UploadMediaRequest,
};
use messenger_desktop::backend::{media_url_for, message_id_for};

fn creds(email: &str, password: &str) -> AuthRequest {
    AuthRequest { email: email.to_string(), password: password.to_string() }
}

fn chat(id: &str, title: &str, last: Option<&str>, unread: u32) -> ChatSummary {
    ChatSummary {
        id: id.to_string(),
        title: title.to_string(),
        last_message: last.map(|s| s.to_string()),
        unread_count: unread,
    }
}

fn ids(v: &[ChatSummary]) -> Vec<String> {
    v.iter().map(|c| c.id.clone()).collect()
}

fn logged_in() -> Gateway {
    let mut g = Gateway::new();
    assert!(g.start_login(&creds("a@b.c", "pw")).is_ok());
    assert!(g.finish_login(Ok("tok".to_string())).is_ok());
    g
}

#[test]
fn blank_credentials_leave_session_anonymous() {
    for (e, p) in [("", "pw"), ("a@b.c", "   "), (" \t", "\n"), ("\u{3000}", "pw")] {
        let mut g = Gateway::new();
        match g.start_login(&creds(e, p)) {
            Err(GatewayError::InvalidInput(m)) => assert_eq!(m, "Email and password are required"),
            _ => panic!("blank credentials accepted"),
        }
        // still anonymous: a valid login may start and the session is not authenticated
        assert!(matches!(
            g.start_send_message(&SendMessageRequest { chat_id: "c".into(), message: "m".into() }),
            Err(GatewayError::Unauthenticated)
        ));
        assert!(g.start_login(&creds("a@b.c", "pw")).is_ok());
    }
}

#[test]
fn login_then_second_login_in_progress() {
    let mut g = Gateway::new();
    assert!(g.start_login(&creds("a@b.c", "pw")).is_ok());
    assert!(matches!(g.start_login(&creds("a@b.c", "pw")), Err(GatewayError::AlreadyInProgress)));
    let r = g.finish_login(Ok("tok-1".to_string())).ok().unwrap();
    assert_eq!(r.token, "tok-1");
    assert!(matches!(g.start_login(&creds("a@b.c", "pw")), Err(GatewayError::InvalidState)));
    let req = SendMessageRequest { chat_id: "c".into(), message: "m".into() };
    assert_eq!(g.start_send_message(&req).ok().unwrap(), "tok-1");
}

#[test]
fn rejected_login_returns_to_anonymous() {
    let mut g = Gateway::new();
    assert!(g.start_login(&creds("a@b.c", "pw")).is_ok());
    match g.finish_login(Err("bad password".to_string())) {
        Err(GatewayError::AuthRejected(m)) => assert_eq!(m, "bad password"),
        _ => panic!("rejection lost"),
    }
    assert!(g.start_login(&creds("a@b.c", "pw")).is_ok());
}

#[test]
fn logout_drops_the_token() {
    let mut g = logged_in();
    g.logout();
    let req = SendMessageRequest { chat_id: "c".into(), message: "m".into() };
    assert!(matches!(g.start_send_message(&req), Err(GatewayError::Unauthenticated)));
}

#[test]
fn blank_message_is_refused_and_cache_unchanged() {
    let mut g = logged_in();
    g.apply_chat_listing(Ok(vec![chat("c1", "One", Some("old"), 2)]));
    let req = SendMessageRequest { chat_id: "c1".into(), message: "  \t ".into() };
    match g.start_send_message(&req) {
        Err(GatewayError::InvalidInput(m)) => assert_eq!(m, "Message cannot be empty"),
        _ => panic!("blank message accepted"),
    }
    let list = g.apply_chat_listing(Err("down".into()));
    assert_eq!(list[0].last_message.as_deref(), Some("old"));
    assert_eq!(list[0].unread_count, 2);
}

#[test]
fn send_message_sets_last_message() {
    let mut g = logged_in();
    g.apply_chat_listing(Ok(vec![chat("c1", "One", None, 3), chat("c2", "Two", Some("x"), 1)]));
    let req = SendMessageRequest { chat_id: "c1".into(), message: "hi".into() };
    let token = g.start_send_message(&req).ok().unwrap();
    assert_eq!(token, "tok");
    let id = message_id_for(&req.chat_id, 41);
    let r = g.finish_send_message(&req, Ok(id)).ok().unwrap();
    assert_eq!(r.message_id, "msg-c1-41");
    let list = g.apply_chat_listing(Err("down".into()));
    assert_eq!(list[0].last_message.as_deref(), Some("hi"));
    assert_eq!(list[0].unread_count, 3);
    assert_eq!(list[1].last_message.as_deref(), Some("x"));
}

#[test]
fn failed_send_is_remote_unavailable() {
    let mut g = logged_in();
    g.apply_chat_listing(Ok(vec![chat("c1", "One", None, 0)]));
    let req = SendMessageRequest { chat_id: "c1".into(), message: "hi".into() };
    match g.finish_send_message(&req, Err("timeout".into())) {
        Err(GatewayError::RemoteUnavailable(m)) => assert_eq!(m, "timeout"),
        _ => panic!("failure lost"),
    }
    assert_eq!(g.apply_chat_listing(Err("down".into()))[0].last_message, None);
}

#[test]
fn upload_without_bytes_is_refused() {
    let g = logged_in();
    for (c, f) in [("c1", "a.png"), ("", ""), ("x", "y")] {
        let req = UploadMediaRequest { chat_id: c.into(), file_name: f.into(), bytes: vec![] };
        match g.start_upload_media(&req) {
            Err(GatewayError::InvalidInput(m)) => assert_eq!(m, "File payload is empty"),
            _ => panic!("empty upload accepted"),
        }
    }
    let anon = Gateway::new();
    let req = UploadMediaRequest { chat_id: "c".into(), file_name: "f".into(), bytes: vec![1] };
    assert!(matches!(anon.start_upload_media(&req), Err(GatewayError::Unauthenticated)));
}

#[test]
fn upload_gives_url_from_chat_and_file() {
    let g = logged_in();
    let req = UploadMediaRequest { chat_id: "c1".into(), file_name: "a.png".into(), bytes: vec![7] };
    assert_eq!(g.start_upload_media(&req).ok().unwrap(), "tok");
    let url = media_url_for(&req.chat_id, &req.file_name);
    let r = g.finish_upload_media(Ok(url)).ok().unwrap();
    assert_eq!(r.media_url, "https://media.kirpich.app/c1/a.png");
    assert!(matches!(g.finish_upload_media(Err("x".into())), Err(GatewayError::RemoteUnavailable(_))));
}

#[test]
fn get_chats_keeps_last_good_list_on_failure() {
    let mut g = Gateway::new();
    assert!(g.apply_chat_listing(Err("down".into())).is_empty());
    let first = g.apply_chat_listing(Ok(vec![chat("a", "A", None, 0), chat("b", "B", Some("m"), 4)]));
    assert_eq!(ids(&first), vec!["a", "b"]);
    let again = g.apply_chat_listing(Err("down".into()));
    assert_eq!(ids(&again), vec!["a", "b"]);
    assert_eq!(again[1].last_message.as_deref(), Some("m"));
    assert_eq!(again[1].unread_count, 4);
    let third = g.apply_chat_listing(Err("still down".into()));
    assert_eq!(ids(&third), vec!["a", "b"]);
}

#[test]
fn notification_title_required_and_forwarded_once() {
    let mut g = Gateway::new();
    let bad = NotificationPayload { title: "".into(), body: "x".into() };
    match g.deliver_notification(&bad) {
        Err(GatewayError::InvalidInput(m)) => assert_eq!(m, "Notification title is required"),
        _ => panic!("blank title accepted"),
    }
    assert!(g.take_notifications().is_empty());
    let good = NotificationPayload { title: "t".into(), body: "x".into() };
    assert!(g.deliver_notification(&good).is_ok());
    let out = g.take_notifications();
    assert_eq!(out.len(), 1);
    assert_eq!(out[0].title, "t");
    assert_eq!(out[0].body, "x");
    assert!(g.take_notifications().is_empty());
}

#[test]
fn refresh_then_list_is_exact() {
    let mut c = ChatCache::new();
    assert!(c.list().is_empty());
    c.refresh(vec![chat("old", "Old", None, 9)]);
    c.refresh(vec![chat("A", "a", Some("1"), 1), chat("B", "b", None, 0)]);
    let l = c.list();
    assert_eq!(ids(&l), vec!["A", "B"]);
    assert_eq!(l[0].title, "a");
    assert_eq!(l[0].last_message.as_deref(), Some("1"));
    assert_eq!(l[0].unread_count, 1);
    assert_eq!(l[1].last_message, None);
}

#[test]
fn unread_count_is_clamped() {
    let mut c = ChatCache::new();
    c.refresh(vec![chat("a", "A", None, 2), chat("b", "B", None, 5)]);
    c.record_unread(&"a".to_string(), -10);
    c.record_unread(&"b".to_string(), 3);
    let l = c.list();
    assert_eq!(l[0].unread_count, 0);
    assert_eq!(l[1].unread_count, 8);
    c.record_unread(&"b".to_string(), i64::MAX);
    assert_eq!(c.list()[1].unread_count, u32::MAX);
    c.record_unread(&"zzz".to_string(), 1);
    assert_eq!(c.list()[0].unread_count, 0);
}

#[test]
fn apply_sent_message_on_unknown_chat_changes_nothing() {
    let mut c = ChatCache::new();
    c.refresh(vec![chat("a", "A", None, 2)]);
    c.apply_sent_message(&"b".to_string(), &"hi".to_string());
    let l = c.list();
    assert_eq!(l[0].last_message, None);
    assert_eq!(l[0].unread_count, 2);
}

#[test]
fn error_messages() {
    assert_eq!(GatewayError::Unauthenticated.message(), "Not authenticated");
    assert_eq!(GatewayError::AlreadyInProgress.message(), "Login already in progress");
    assert_eq!(GatewayError::InvalidState.message(), "Already authenticated");
    assert_eq!(GatewayError::AuthRejected("no".into()).message(), "no");
    assert_eq!(GatewayError::RemoteUnavailable("down".into()).message(), "down");
    assert_eq!(GatewayError::InvalidInput("bad".into()).message(), "bad");
}

#[test]
fn finish_login_without_login_is_invalid_state() {
    let mut g = Gateway::new();
    assert!(!g.login_in_progress());
    assert!(matches!(g.finish_login(Ok("t".into())), Err(GatewayError::InvalidState)));
    assert!(g.start_login(&creds("a@b.c", "pw")).is_ok());
    assert!(g.login_in_progress());
    g.logout();
    assert!(matches!(g.finish_login(Ok("t".into())), Err(GatewayError::InvalidState)));
    let req = SendMessageRequest { chat_id: "c".into(), message: "m".into() };
    assert!(matches!(g.start_send_message(&req), Err(GatewayError::Unauthenticated)));
}
