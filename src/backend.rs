use vstd::prelude::*;
use crate::model::{chats_view, AuthRequest, ChatSummary, ChatView};

verus! {

/// The token that the development backend grants.
pub open spec fn dev_token_text() -> Seq<char> {
    "dev-token"@
}

/// The decimal digit for `d`, below ten.
pub open spec fn digit_char(d: nat) -> char {
    ((d + 48) as u32) as char
}

/// `n` written in decimal, without leading zeros.
pub open spec fn decimal(n: nat) -> Seq<char>
    decreases n,
{
    if n < 10 {
        seq![digit_char(n)]
    } else {
        decimal(n / 10).push(digit_char(n % 10))
    }
}

/// The id that the development backend gives the `seq`-th message it accepts,
/// sent to chat `chat_id`.
pub open spec fn message_id_of(chat_id: Seq<char>, seq: nat) -> Seq<char> {
    "msg-"@ + chat_id + "-"@ + decimal(seq)
}

/// Where the development backend stores file `file_name` of chat `chat_id`.
pub open spec fn media_url_of(chat_id: Seq<char>, file_name: Seq<char>) -> Seq<char> {
    "https://media.kirpich.app/"@ + chat_id + "/"@ + file_name
}

/// The one conversation that the development backend lists.
pub open spec fn welcome_chat() -> ChatView {
    ChatView {
        id: "general"@,
        title: "General"@,
        last_message: Some("Welcome to KirpichMessanger"@),
        unread_count: 0,
    }
}

/// The chat id stands inside the message id made from it, right after the prefix.
pub proof fn lemma_message_id_holds_chat(chat_id: Seq<char>, seq: nat)
    ensures
        message_id_of(chat_id, seq).subrange(4, 4 + chat_id.len() as int) == chat_id,
{
    reveal_strlit("msg-");
    assert(message_id_of(chat_id, seq).subrange(4, 4 + chat_id.len() as int) =~= chat_id);
}

/// The text of one decimal digit.
fn digit_text(d: u64) -> (r: &'static str)
    requires
        d < 10,
    ensures
        r@ == seq![digit_char(d as nat)],
{
    proof {
        reveal_strlit("0");
        reveal_strlit("1");
        reveal_strlit("2");
        reveal_strlit("3");
        reveal_strlit("4");
        reveal_strlit("5");
        reveal_strlit("6");
        reveal_strlit("7");
        reveal_strlit("8");
        reveal_strlit("9");
    }
    let r = if d == 0 {
        "0"
    } else if d == 1 {
        "1"
    } else if d == 2 {
        "2"
    } else if d == 3 {
        "3"
    } else if d == 4 {
        "4"
    } else if d == 5 {
        "5"
    } else if d == 6 {
        "6"
    } else if d == 7 {
        "7"
    } else if d == 8 {
        "8"
    } else {
        "9"
    };
    assert(r@ =~= seq![digit_char(d as nat)]);
    r
}

/// `n` written in decimal.
pub fn decimal_text(n: u64) -> (r: String)
    ensures
        r@ == decimal(n as nat),
    decreases n,
{
    if n < 10 {
        String::from_str(digit_text(n))
    } else {
        let r = decimal_text(n / 10).concat(digit_text(n % 10));
        assert(r@ =~= decimal(n as nat));
        r
    }
}

/// Authentication by the development backend: every caller gets the same token.
pub fn dev_token() -> (r: String)
    ensures
        r@ == dev_token_text(),
{
    String::from_str("dev-token")
}

/// The message id for a message accepted into chat `chat_id`.
pub fn message_id_for(chat_id: &String, seq: u64) -> (r: String)
    ensures
        r@ == message_id_of(chat_id@, seq as nat),
{
    let d = decimal_text(seq);
    String::from_str("msg-").concat(chat_id.as_str()).concat("-").concat(d.as_str())
}

/// The url of file `file_name` uploaded into chat `chat_id`.
pub fn media_url_for(chat_id: &String, file_name: &String) -> (r: String)
    ensures
        r@ == media_url_of(chat_id@, file_name@),
{
    String::from_str("https://media.kirpich.app/").concat(chat_id.as_str()).concat("/").concat(
        file_name.as_str(),
    )
}

/// The conversations that the development backend lists.
pub fn dev_chats() -> (r: Vec<ChatSummary>)
    ensures
        chats_view(r@) == seq![welcome_chat()],
{
    let mut r: Vec<ChatSummary> = Vec::new();
    r.push(
        ChatSummary {
            id: String::from_str("general"),
            title: String::from_str("General"),
            last_message: Some(String::from_str("Welcome to KirpichMessanger")),
            unread_count: 0,
        },
    );
    assert(chats_view(r@) =~= seq![welcome_chat()]);
    r
}

/// The remote messaging backend, as the gateway sees it. A network client and a
/// test double are interchangeable behind it; nothing is assumed of its answers.
pub trait RemoteClient {
    /// Checks credentials: a token, or the reason they were refused.
    fn authenticate(&mut self, credentials: &AuthRequest) -> Result<String, String>;

    /// Sends `body` to chat `chat_id` on behalf of `token`: the message id, or why it failed.
    fn send(&mut self, token: &String, chat_id: &String, body: &String) -> Result<String, String>;

    /// Stores a file of chat `chat_id` on behalf of `token`: its url, or why it failed.
    fn upload(&mut self, token: &String, chat_id: &String, file_name: &String, bytes: &Vec<u8>)
        -> Result<String, String>;

    /// The conversations of the account, most recent first, or why they could not be had.
    fn list_chats(&mut self) -> Result<Vec<ChatSummary>, String>;
}

/// The development backend: it accepts everything and answers from the
/// functions above, numbering the messages it accepts.
pub struct DevBackend {
    sent: u64,
}

impl DevBackend {
    /// How many messages it has numbered so far.
    pub closed spec fn sent_count(&self) -> u64 {
        self.sent
    }

    /// A development backend that has accepted no message yet.
    pub fn new() -> (r: DevBackend)
        ensures
            r.sent_count() == 0,
    {
        DevBackend { sent: 0 }
    }
}

impl RemoteClient for DevBackend {
    fn authenticate(&mut self, credentials: &AuthRequest) -> Result<String, String> {
        Ok(dev_token())
    }

    fn send(&mut self, token: &String, chat_id: &String, body: &String) -> Result<String, String> {
        let id = message_id_for(chat_id, self.sent);
        self.sent = if self.sent < u64::MAX {
            self.sent + 1
        } else {
            self.sent
        };
        Ok(id)
    }

    fn upload(&mut self, token: &String, chat_id: &String, file_name: &String, bytes: &Vec<u8>)
        -> Result<String, String>
    {
        Ok(media_url_for(chat_id, file_name))
    }

    fn list_chats(&mut self) -> Result<Vec<ChatSummary>, String> {
        Ok(dev_chats())
    }
}

} // verus!
