use vstd::prelude::*;

verus! {

/// Credentials handed to `login`.
pub struct AuthRequest {
    pub email: String,
    pub password: String,
}

/// The token granted by a successful login.
pub struct AuthResponse {
    pub token: String,
}

/// An outbound message for one chat.
pub struct SendMessageRequest {
    pub chat_id: String,
    pub message: String,
}

/// The receipt of an accepted message.
pub struct SendMessageResponse {
    pub message_id: String,
}

/// A media asset to upload into one chat.
pub struct UploadMediaRequest {
    pub chat_id: String,
    pub file_name: String,
    pub bytes: Vec<u8>,
}

/// Where an uploaded asset can be retrieved.
pub struct UploadMediaResponse {
    pub media_url: String,
}

/// A notification to surface to the user.
pub struct NotificationPayload {
    pub title: String,
    pub body: String,
}

/// One conversation as the chat list shows it.
pub struct ChatSummary {
    pub id: String,
    pub title: String,
    pub last_message: Option<String>,
    pub unread_count: u32,
}

/// The value of a chat summary: its texts as character sequences.
pub struct ChatView {
    pub id: Seq<char>,
    pub title: Seq<char>,
    pub last_message: Option<Seq<char>>,
    pub unread_count: u32,
}

/// The characters of an optional text.
pub open spec fn opt_view(o: Option<String>) -> Option<Seq<char>> {
    match o {
        Some(s) => Some(s@),
        None => None,
    }
}

impl View for ChatSummary {
    type V = ChatView;

    open spec fn view(&self) -> ChatView {
        ChatView {
            id: self.id@,
            title: self.title@,
            last_message: opt_view(self.last_message),
            unread_count: self.unread_count,
        }
    }
}

/// The values of a list of chat summaries.
pub open spec fn chats_view(s: Seq<ChatSummary>) -> Seq<ChatView> {
    s.map_values(|c: ChatSummary| c@)
}

/// A copy of an optional text.
pub fn copy_text(o: &Option<String>) -> (r: Option<String>)
    ensures
        opt_view(r) == opt_view(*o),
{
    match o {
        Some(s) => Some(s.clone()),
        None => None,
    }
}

impl ChatSummary {
    /// A summary with the same value.
    pub fn duplicate(&self) -> (r: ChatSummary)
        ensures
            r@ == self@,
    {
        ChatSummary {
            id: self.id.clone(),
            title: self.title.clone(),
            last_message: copy_text(&self.last_message),
            unread_count: self.unread_count,
        }
    }
}

/// Copies every summary of `chats`, keeping the order.
pub fn copy_chats(chats: &Vec<ChatSummary>) -> (r: Vec<ChatSummary>)
    ensures
        chats_view(r@) == chats_view(chats@),
{
    let mut r: Vec<ChatSummary> = Vec::new();
    let mut i: usize = 0;
    while i < chats.len()
        invariant
            i <= chats@.len(),
            r@.len() == i,
            forall|j: int| 0 <= j < i ==> #[trigger] r@[j]@ == chats@[j]@,
        decreases chats@.len() - i,
    {
        r.push(chats[i].duplicate());
        i = i + 1;
    }
    assert(chats_view(r@) =~= chats_view(chats@));
    r
}

/// The typed failures of the gateway.
pub enum GatewayError {
    /// The request is malformed; it never reached the backend.
    InvalidInput(String),
    /// No session is authenticated.
    Unauthenticated,
    /// A login is already under way.
    AlreadyInProgress,
    /// The session is in a state that does not allow the operation.
    InvalidState,
    /// The backend refused the credentials.
    AuthRejected(String),
    /// The backend could not be reached or failed.
    RemoteUnavailable(String),
}

/// The value of a gateway error; its texts as character sequences.
pub enum Failure {
    InvalidInput(Seq<char>),
    Unauthenticated,
    AlreadyInProgress,
    InvalidState,
    AuthRejected(Seq<char>),
    RemoteUnavailable(Seq<char>),
}

impl View for GatewayError {
    type V = Failure;

    open spec fn view(&self) -> Failure {
        match self {
            GatewayError::InvalidInput(m) => Failure::InvalidInput(m@),
            GatewayError::Unauthenticated => Failure::Unauthenticated,
            GatewayError::AlreadyInProgress => Failure::AlreadyInProgress,
            GatewayError::InvalidState => Failure::InvalidState,
            GatewayError::AuthRejected(m) => Failure::AuthRejected(m@),
            GatewayError::RemoteUnavailable(m) => Failure::RemoteUnavailable(m@),
        }
    }
}

/// Whether `r` failed with exactly the failure `f`.
pub open spec fn fails_with<T>(r: Result<T, GatewayError>, f: Failure) -> bool {
    r matches Err(e) && e@ == f
}

impl GatewayError {
    /// The user-facing text of the error.
    pub open spec fn text(&self) -> Seq<char> {
        match self {
            GatewayError::InvalidInput(m) => m@,
            GatewayError::Unauthenticated => "Not authenticated"@,
            GatewayError::AlreadyInProgress => "Login already in progress"@,
            GatewayError::InvalidState => "Already authenticated"@,
            GatewayError::AuthRejected(m) => m@,
            GatewayError::RemoteUnavailable(m) => m@,
        }
    }

    /// The message string that the user-facing surface shows.
    pub fn message(&self) -> (r: String)
        ensures
            r@ == self.text(),
    {
        match self {
            GatewayError::InvalidInput(m) => m.clone(),
            GatewayError::Unauthenticated => String::from_str("Not authenticated"),
            GatewayError::AlreadyInProgress => String::from_str("Login already in progress"),
            GatewayError::InvalidState => String::from_str("Already authenticated"),
            GatewayError::AuthRejected(m) => m.clone(),
            GatewayError::RemoteUnavailable(m) => m.clone(),
        }
    }
}

} // verus!
