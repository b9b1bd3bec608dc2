use vstd::prelude::*;
use crate::model::{chats_view, copy_chats, ChatSummary, ChatView};

verus! {

/// The summary `c` after a message `msg` of our own was sent to it.
pub open spec fn sent_to(c: ChatView, msg: Seq<char>) -> ChatView {
    ChatView {
        id: c.id,
        title: c.title,
        last_message: Some(msg),
        unread_count: c.unread_count,
    }
}

/// `n` held within the range of `u32`.
pub open spec fn clamp_count(n: int) -> u32 {
    if n < 0 {
        0
    } else if n > u32::MAX {
        u32::MAX
    } else {
        n as u32
    }
}

/// The summary `c` with its unread count moved by `delta`, never below zero.
pub open spec fn unread_moved(c: ChatView, delta: int) -> ChatView {
    ChatView {
        id: c.id,
        title: c.title,
        last_message: c.last_message,
        unread_count: clamp_count(c.unread_count + delta),
    }
}

/// The list after a message `msg` was sent to chat `id`.
pub open spec fn after_sent(s: Seq<ChatView>, id: Seq<char>, msg: Seq<char>) -> Seq<ChatView> {
    s.map_values(|c: ChatView| if c.id == id { sent_to(c, msg) } else { c })
}

/// The list after the unread count of chat `id` moved by `delta`.
pub open spec fn after_unread(s: Seq<ChatView>, id: Seq<char>, delta: int) -> Seq<ChatView> {
    s.map_values(|c: ChatView| if c.id == id { unread_moved(c, delta) } else { c })
}

/// Refreshing the cache with `remote` and then listing it gives back exactly
/// `remote`: the same summaries, in the same order, nothing merged in.
pub proof fn lemma_refresh_then_list(
    refreshed: ChatCache,
    remote: Seq<ChatSummary>,
    listed: Seq<ChatSummary>,
)
    requires
        refreshed@ == chats_view(remote),
        chats_view(listed) == refreshed@,
    ensures
        listed.len() == remote.len(),
        forall|i: int| 0 <= i < remote.len() ==> #[trigger] listed[i]@ == remote[i]@,
{
    assert(chats_view(listed).len() == listed.len());
    assert(chats_view(remote).len() == remote.len());
    assert forall|i: int| 0 <= i < remote.len() implies #[trigger] listed[i]@ == remote[i]@ by {
        assert(chats_view(listed)[i] == listed[i]@);
        assert(chats_view(remote)[i] == remote[i]@);
    }
}

/// The in-memory list of conversation summaries, most recent first.
pub struct ChatCache {
    chats: Vec<ChatSummary>,
}

impl View for ChatCache {
    type V = Seq<ChatView>;

    closed spec fn view(&self) -> Seq<ChatView> {
        chats_view(self.chats@)
    }
}

impl ChatCache {
    /// An empty cache.
    pub fn new() -> (r: ChatCache)
        ensures
            r@ == Seq::<ChatView>::empty(),
    {
        let r = ChatCache { chats: Vec::new() };
        assert(r@ =~= Seq::<ChatView>::empty());
        r
    }

    /// The cached summaries in order; an empty cache gives an empty list.
    pub fn list(&self) -> (r: Vec<ChatSummary>)
        ensures
            chats_view(r@) == self@,
    {
        copy_chats(&self.chats)
    }

    /// Replaces the whole cache by `remote`, in its order.
    pub fn refresh(&mut self, remote: Vec<ChatSummary>)
        ensures
            final(self)@ == chats_view(remote@),
    {
        self.chats = remote;
    }

    /// Sets the last message of chat `chat_id` to `message`; the unread count stays.
    /// A chat that is not cached is left alone.
    pub fn apply_sent_message(&mut self, chat_id: &String, message: &String)
        ensures
            final(self)@ == after_sent(old(self)@, chat_id@, message@),
    {
        let ghost before = self.chats@;
        let mut i: usize = 0;
        while i < self.chats.len()
            invariant
                i <= self.chats@.len(),
                self.chats@.len() == before.len(),
                forall|j: int|
                    0 <= j < i ==> #[trigger] self.chats@[j]@ == (if before[j]@.id == chat_id@ {
                        sent_to(before[j]@, message@)
                    } else {
                        before[j]@
                    }),
                forall|j: int| i <= j < before.len() ==> #[trigger] self.chats@[j] == before[j],
            decreases self.chats@.len() - i,
        {
            if self.chats[i].id == *chat_id {
                let c = ChatSummary {
                    id: self.chats[i].id.clone(),
                    title: self.chats[i].title.clone(),
                    last_message: Some(message.clone()),
                    unread_count: self.chats[i].unread_count,
                };
                self.chats.set(i, c);
            }
            i = i + 1;
        }
        assert(self@ =~= after_sent(chats_view(before), chat_id@, message@));
    }

    /// Moves the unread count of chat `chat_id` by `delta`, held between zero and
    /// `u32::MAX`. A chat that is not cached is left alone.
    pub fn record_unread(&mut self, chat_id: &String, delta: i64)
        ensures
            final(self)@ == after_unread(old(self)@, chat_id@, delta as int),
    {
        let ghost before = self.chats@;
        let mut i: usize = 0;
        while i < self.chats.len()
            invariant
                i <= self.chats@.len(),
                self.chats@.len() == before.len(),
                forall|j: int|
                    0 <= j < i ==> #[trigger] self.chats@[j]@ == (if before[j]@.id == chat_id@ {
                        unread_moved(before[j]@, delta as int)
                    } else {
                        before[j]@
                    }),
                forall|j: int| i <= j < before.len() ==> #[trigger] self.chats@[j] == before[j],
            decreases self.chats@.len() - i,
        {
            if self.chats[i].id == *chat_id {
                let n: i128 = self.chats[i].unread_count as i128 + delta as i128;
                let count: u32 = if n < 0 {
                    0
                } else if n > u32::MAX as i128 {
                    u32::MAX
                } else {
                    n as u32
                };
                let c = ChatSummary {
                    id: self.chats[i].id.clone(),
                    title: self.chats[i].title.clone(),
                    last_message: crate::model::copy_text(&self.chats[i].last_message),
                    unread_count: count,
                };
                self.chats.set(i, c);
            }
            i = i + 1;
        }
        assert(self@ =~= after_unread(chats_view(before), chat_id@, delta as int));
    }
}

} // verus!
