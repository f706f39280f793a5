//! AI conversations and their storage: the active conversation of each
//! mode and the archive of earlier ones, newest first.

use vstd::prelude::*;
use crate::ai::{Message, Role};
use crate::text::{append_str, chars_of, starts_with, starts_with_chars, str_eq, string_from_chars};

verus! {

/// The most conversations kept in the archive.
pub const MAX_CONVERSATIONS: usize = 50;

/// The most messages kept in a conversation.
pub const MAX_MESSAGES_PER_CONVERSATION: usize = 100;

/// Message role as stored.
#[derive(Debug, Clone, Copy, PartialEq, Eq, Structural)]
pub enum StoredRole {
    System,
    User,
    Assistant,
}

impl From<Role> for StoredRole {
    fn from(role: Role) -> (r: Self) {
        match role {
            Role::System => StoredRole::System,
            Role::User => StoredRole::User,
            Role::Assistant => StoredRole::Assistant,
        }
    }
}

impl vstd::std_specs::convert::FromSpecImpl<Role> for StoredRole {
    open spec fn obeys_from_spec() -> bool {
        true
    }

    open spec fn from_spec(role: Role) -> StoredRole {
        match role {
            Role::System => StoredRole::System,
            Role::User => StoredRole::User,
            Role::Assistant => StoredRole::Assistant,
        }
    }
}

impl From<StoredRole> for Role {
    fn from(role: StoredRole) -> (r: Self) {
        match role {
            StoredRole::System => Role::System,
            StoredRole::User => Role::User,
            StoredRole::Assistant => Role::Assistant,
        }
    }
}

impl vstd::std_specs::convert::FromSpecImpl<StoredRole> for Role {
    open spec fn obeys_from_spec() -> bool {
        true
    }

    open spec fn from_spec(role: StoredRole) -> Role {
        match role {
            StoredRole::System => Role::System,
            StoredRole::User => Role::User,
            StoredRole::Assistant => Role::Assistant,
        }
    }
}

/// The stored role of a role.
pub open spec fn stored(role: Role) -> StoredRole {
    match role {
        Role::System => StoredRole::System,
        Role::User => StoredRole::User,
        Role::Assistant => StoredRole::Assistant,
    }
}

/// The role of a stored role.
pub open spec fn unstored(role: StoredRole) -> Role {
    match role {
        StoredRole::System => Role::System,
        StoredRole::User => Role::User,
        StoredRole::Assistant => Role::Assistant,
    }
}

/// A message with its time.
#[derive(Debug, Clone)]
pub struct StoredMessage {
    pub role: StoredRole,
    pub content: String,
    /// Milliseconds since the Unix epoch
    pub timestamp: i64,
}

/// A stored conversation.
#[derive(Debug, Clone)]
pub struct Conversation {
    /// Unique ID
    pub id: String,
    /// Title (from the first message of the user)
    pub title: String,
    /// When it started, in milliseconds since the Unix epoch
    pub created_at: i64,
    /// When the last message was added, in milliseconds since the epoch
    pub updated_at: i64,
    /// Its messages, oldest first
    pub messages: Vec<StoredMessage>,
    /// AI provider used
    pub provider: Option<String>,
    /// Conversation mode (chat, command, explain)
    pub mode: String,
}

/// The view of a message: role, text and time.
pub open spec fn msg_view(m: StoredMessage) -> (StoredRole, Seq<char>, i64) {
    (m.role, m.content@, m.timestamp)
}

/// The views of a list of messages.
pub open spec fn msg_views(v: Seq<StoredMessage>) -> Seq<(StoredRole, Seq<char>, i64)> {
    v.map_values(|m: StoredMessage| msg_view(m))
}

/// Whether two conversations hold the same things.
pub open spec fn same_conversation(a: Conversation, b: Conversation) -> bool {
    &&& a.id@ == b.id@
    &&& a.title@ == b.title@
    &&& a.created_at == b.created_at
    &&& a.updated_at == b.updated_at
    &&& msg_views(a.messages@) == msg_views(b.messages@)
    &&& (match (a.provider, b.provider) {
        (Some(x), Some(y)) => x@ == y@,
        (None, None) => true,
        _ => false,
    })
    &&& a.mode@ == b.mode@
}

/// The title a conversation gets from a message of the user: its first 50
/// characters, and "..." when the message is longer than 50 bytes.
pub open spec fn title_from(content: Seq<char>) -> Seq<char> {
    let head = content.take(vstd::math::min(50, content.len() as int));
    if vstd::utf8::encode_utf8(content).len() > 50 {
        head + "..."@
    } else {
        head
    }
}

/// The index of the first message of the user, if any.
pub open spec fn first_user(msgs: Seq<StoredMessage>) -> Option<int> {
    if exists|i: int| 0 <= i < msgs.len() && msgs[i].role == StoredRole::User {
        Some(
            choose|i: int|
                0 <= i < msgs.len() && msgs[i].role == StoredRole::User && forall|j: int|
                    0 <= j < i ==> msgs[j].role != StoredRole::User,
        )
    } else {
        None
    }
}

/// The last `MAX_MESSAGES_PER_CONVERSATION` messages.
pub open spec fn kept_messages(msgs: Seq<StoredMessage>) -> Seq<StoredMessage> {
    if msgs.len() > MAX_MESSAGES_PER_CONVERSATION {
        msgs.skip(msgs.len() - MAX_MESSAGES_PER_CONVERSATION)
    } else {
        msgs
    }
}

/// Storing a role and reading it back gives the same role, both ways round.
pub proof fn law_role_round_trip(role: Role, kept: StoredRole)
    ensures
        unstored(stored(role)) == role,
        stored(unstored(kept)) == kept,
{
}

/// A conversation never holds more than `MAX_MESSAGES_PER_CONVERSATION`
/// messages, the message just added is always the last one kept, and the
/// ones kept are the most recent, in order.
pub proof fn law_kept_messages(msgs: Seq<StoredMessage>, added: StoredMessage)
    ensures
        kept_messages(msgs.push(added)).len() <= MAX_MESSAGES_PER_CONVERSATION,
        kept_messages(msgs.push(added)).last() == added,
        kept_messages(msgs.push(added)).len() == vstd::math::min(msgs.len() + 1int, MAX_MESSAGES_PER_CONVERSATION as int),
        kept_messages(msgs.push(added)) == msgs.push(added).skip(
            msgs.len() + 1 - kept_messages(msgs.push(added)).len(),
        ),
{
    let all = msgs.push(added);
    if all.len() <= MAX_MESSAGES_PER_CONVERSATION {
        assert(all.skip(0) =~= all);
    }
}

fn copy_message(m: &StoredMessage) -> (r: StoredMessage)
    ensures
        r == *m,
{
    StoredMessage { role: m.role, content: m.content.clone(), timestamp: m.timestamp }
}

/// A copy of a conversation.
pub fn copy_conversation(c: &Conversation) -> (r: Conversation)
    ensures
        same_conversation(r, *c),
{
    let mut msgs: Vec<StoredMessage> = Vec::new();
    let mut i: usize = 0;
    while i < c.messages.len()
        invariant
            i <= c.messages@.len(),
            msg_views(msgs@) == msg_views(c.messages@).take(i as int),
        decreases c.messages@.len() - i,
    {
        let m = copy_message(&c.messages[i]);
        let ghost before = msgs@;
        msgs.push(m);
        assert(msg_views(msgs@) =~= msg_views(before).push(msg_view(m)));
        assert(msg_views(c.messages@).take(i + 1) =~= msg_views(c.messages@).take(i as int).push(
            msg_view(c.messages@[i as int]),
        ));
        i = i + 1;
    }
    assert(msg_views(c.messages@).take(c.messages@.len() as int) =~= msg_views(c.messages@));
    let provider = match &c.provider {
        Some(p) => Some(p.clone()),
        None => None,
    };
    Conversation {
        id: c.id.clone(),
        title: c.title.clone(),
        created_at: c.created_at,
        updated_at: c.updated_at,
        messages: msgs,
        provider,
        mode: c.mode.clone(),
    }
}

/// Calls `uuid::Uuid::new_v4()` and formats it with `to_string`. Claimed:
/// the hyphenated form, 36 characters; the id itself is random.
#[verifier::external_body]
fn new_id() -> (r: String)
    ensures
        r@.len() == 36,
{
    uuid::Uuid::new_v4().to_string()
}

impl Conversation {
    /// A new empty conversation of `mode` started at `now`, titled
    /// "New <mode> conversation".
    pub fn new_at(mode: &str, now: i64) -> (c: Self)
        ensures
            c.id@.len() == 36,
            c.title@ == "New "@ + mode@ + " conversation"@,
            c.created_at == now && c.updated_at == now,
            c.messages@.len() == 0,
            c.provider is None,
            c.mode@ == mode@,
    {
        let mut title = "New ".to_owned();
        append_str(&mut title, mode);
        append_str(&mut title, " conversation");
        Conversation {
            id: new_id(),
            title,
            created_at: now,
            updated_at: now,
            messages: Vec::new(),
            provider: None,
            mode: mode.to_owned(),
        }
    }

    /// A new empty conversation of `mode`, started now.
    pub fn new(mode: &str) -> (c: Self)
        ensures
            c.id@.len() == 36,
            c.title@ == "New "@ + mode@ + " conversation"@,
            c.created_at == c.updated_at,
            c.messages@.len() == 0,
            c.provider is None,
            c.mode@ == mode@,
    {
        Self::new_at(mode, crate::clock::now_millis())
    }

    /// Adds a message at `now`. While the title is still the one a new
    /// conversation gets (it starts with "New "), it becomes the start of
    /// the first message of the user. Only the last 100 messages are kept.
    pub fn add_message_at(&mut self, role: Role, content: &str, now: i64)
        ensures
            final(self).messages@.len() > 0,
            final(self).messages@.last().content@ == content@,
            final(self).messages@.last().role == stored(role),
            final(self).messages@.last().timestamp == now,
            final(self).messages@ == kept_messages(old(self).messages@.push(final(self).messages@.last())),
            final(self).updated_at == now,
            final(self).title@ == if starts_with(old(self).title@, "New "@) && first_user(
                old(self).messages@.push(final(self).messages@.last()),
            ) is Some {
                title_from(old(self).messages@.push(final(self).messages@.last())[first_user(
                    old(self).messages@.push(final(self).messages@.last()),
                )->0].content@)
            } else {
                old(self).title@
            },
            final(self).id == old(self).id,
            final(self).created_at == old(self).created_at,
            final(self).provider == old(self).provider,
            final(self).mode == old(self).mode,
    {
        let m = StoredMessage { role: role.into(), content: content.to_owned(), timestamp: now };
        let ghost mv = m;
        self.messages.push(m);
        self.updated_at = now;
        let ghost all = self.messages@;
        let t = chars_of(self.title.as_str());
        let new_prefix = chars_of("New ");
        if starts_with_chars(t.as_slice(), new_prefix.as_slice()) {
            let mut i: usize = 0;
            while i < self.messages.len() && self.messages[i].role != StoredRole::User
                invariant
                    i <= self.messages@.len(),
                    self.messages@ == all,
                    forall|j: int| 0 <= j < i ==> (#[trigger] all[j]).role != StoredRole::User,
                decreases self.messages@.len() - i,
            {
                i = i + 1;
            }
            if i < self.messages.len() {
                proof {
                    assert(exists|k: int| 0 <= k < all.len() && all[k].role == StoredRole::User);
                    let c = choose|k: int|
                        0 <= k < all.len() && all[k].role == StoredRole::User && forall|j: int|
                            0 <= j < k ==> all[j].role != StoredRole::User;
                    assert(c == i) by {
                        if c < i {
                        } else if c > i {
                        }
                    }
                }
                let title = title_of(self.messages[i].content.as_str());
                self.title = title;
            } else {
                proof {
                    assert(!exists|k: int| 0 <= k < all.len() && all[k].role == StoredRole::User);
                }
            }
        }
        if self.messages.len() > MAX_MESSAGES_PER_CONVERSATION {
            let excess = self.messages.len() - MAX_MESSAGES_PER_CONVERSATION;
            let mut kept: Vec<StoredMessage> = Vec::new();
            let mut i: usize = excess;
            while i < self.messages.len()
                invariant
                    excess <= i <= self.messages@.len(),
                    self.messages@ == all,
                    excess == all.len() - MAX_MESSAGES_PER_CONVERSATION,
                    kept@ == all.subrange(excess as int, i as int),
                decreases self.messages@.len() - i,
            {
                let c = copy_message(&self.messages[i]);
                kept.push(c);
                assert(kept@ =~= all.subrange(excess as int, i + 1));
                i = i + 1;
            }
            assert(all.subrange(excess as int, all.len() as int) =~= all.skip(excess as int));
            self.messages = kept;
        }
    }

    /// Adds a message now.
    pub fn add_message(&mut self, role: Role, content: &str)
        ensures
            final(self).messages@.len() == vstd::math::min(old(self).messages@.len() + 1int, MAX_MESSAGES_PER_CONVERSATION as int),
            final(self).messages@.last().content@ == content@,
            final(self).messages@.last().role == stored(role),
            final(self).id == old(self).id,
            final(self).mode == old(self).mode,
    {
        let now = crate::clock::now_millis();
        self.add_message_at(role, content, now);
    }

    /// Records the provider used.
    pub fn set_provider(&mut self, provider: &str)
        ensures
            match final(self).provider {
                Some(p) => p@ == provider@,
                None => false,
            },
            final(self).messages == old(self).messages,
            final(self).title == old(self).title,
            final(self).id == old(self).id,
            final(self).mode == old(self).mode,
    {
        self.provider = Some(provider.to_owned());
    }

    /// The messages, as sent to a provider.
    pub fn to_messages(&self) -> (r: Vec<Message>)
        ensures
            r@.len() == self.messages@.len(),
            forall|i: int| 0 <= i < r@.len() ==> (#[trigger] r@[i]).role == unstored(self.messages@[i].role)
                && r@[i].content@ == self.messages@[i].content@,
    {
        let mut r: Vec<Message> = Vec::new();
        let mut i: usize = 0;
        while i < self.messages.len()
            invariant
                i <= self.messages@.len(),
                r@.len() == i,
                forall|k: int| 0 <= k < i ==> (#[trigger] r@[k]).role == unstored(self.messages@[k].role)
                    && r@[k].content@ == self.messages@[k].content@,
            decreases self.messages@.len() - i,
        {
            let m = &self.messages[i];
            r.push(Message { role: m.role.into(), content: m.content.clone() });
            i = i + 1;
        }
        r
    }

    /// Whether there are no messages.
    pub fn is_empty(&self) -> (b: bool)
        ensures
            b == (self.messages@.len() == 0),
    {
        self.messages.len() == 0
    }

    /// The number of messages.
    pub fn len(&self) -> (n: usize)
        ensures
            n == self.messages@.len(),
    {
        self.messages.len()
    }
}

/// The title of a conversation whose first message of the user is
/// `content`.
fn title_of(content: &str) -> (t: String)
    ensures
        t@ == title_from(content@),
{
    let c = chars_of(content);
    let n = if c.len() < 50 {
        c.len()
    } else {
        50
    };
    let mut head: Vec<char> = Vec::new();
    let mut i: usize = 0;
    while i < n
        invariant
            i <= n <= c@.len(),
            head@ == c@.take(i as int),
        decreases n - i,
    {
        head.push(c[i]);
        assert(head@ =~= c@.take(i + 1));
        i = i + 1;
    }
    let mut t = string_from_chars(head.as_slice());
    if content.as_bytes().len() > 50 {
        append_str(&mut t, "...");
    }
    t
}

/// Which active slot a mode uses: command and explain have their own, the
/// other modes share the chat slot.
pub open spec fn slot(mode: Seq<char>) -> int {
    if mode == "command"@ {
        1
    } else if mode == "explain"@ {
        2
    } else {
        0
    }
}

/// Whether `mode` is one of the panel's modes: chat, command, explain.
pub open spec fn mode_known(mode: Seq<char>) -> bool {
    mode == "chat"@ || mode == "command"@ || mode == "explain"@
}

/// The index of the first conversation of `convs` with the id `id`.
pub open spec fn first_with_id(convs: Seq<Conversation>, id: Seq<char>) -> Option<int> {
    if exists|i: int| 0 <= i < convs.len() && (#[trigger] convs[i]).id@ == id {
        Some(
            choose|i: int|
                0 <= i < convs.len() && convs[i].id@ == id && forall|j: int| 0 <= j < i ==> (#[trigger] convs[j]).id@ != id,
        )
    } else {
        None
    }
}

proof fn lemma_first_with_id(convs: Seq<Conversation>, id: Seq<char>, k: int)
    requires
        0 <= k <= convs.len(),
        k < convs.len() ==> convs[k].id@ == id,
        forall|j: int| 0 <= j < k ==> (#[trigger] convs[j]).id@ != id,
    ensures
        first_with_id(convs, id) == if k < convs.len() {
            Some(k)
        } else {
            None::<int>
        },
{
    if k < convs.len() {
        assert(convs[k].id@ == id);
        let c = choose|i: int|
            0 <= i < convs.len() && convs[i].id@ == id && forall|j: int| 0 <= j < i ==> (#[trigger] convs[j]).id@ != id;
        if c < k {
        } else if c > k {
            assert(convs[k].id@ != id);
        }
    }
}

fn slot_of(mode: &str) -> (s: u8)
    ensures
        s == slot(mode@),
{
    if str_eq(mode, "command") {
        1
    } else if str_eq(mode, "explain") {
        2
    } else {
        0
    }
}

/// Statistics of the archive.
#[derive(Debug, Clone, Copy, PartialEq, Eq, Structural)]
pub struct ConversationStats {
    pub total_conversations: usize,
    pub chat_count: usize,
    pub command_count: usize,
    pub explain_count: usize,
}

/// The number of conversations of `mode` in `convs`.
pub open spec fn mode_count(convs: Seq<Conversation>, mode: Seq<char>) -> nat {
    convs.filter(|c: Conversation| c.mode@ == mode).len()
}

/// The archive after `conv` is archived: it comes first, and only the 50
/// newest are kept.
pub open spec fn archived(convs: Seq<Conversation>, conv: Conversation) -> Seq<Conversation> {
    let all = seq![conv] + convs;
    if all.len() > MAX_CONVERSATIONS {
        all.take(MAX_CONVERSATIONS as int)
    } else {
        all
    }
}

/// The conversations of the AI panel: the active one of each slot and the
/// archive of earlier ones, newest first.
pub struct ConversationStore {
    conversations: Vec<Conversation>,
    active: [Option<Conversation>; 3],
    storage_path: String,
    dirty: bool,
}

impl ConversationStore {
    /// The archive, newest first.
    pub closed spec fn archive(self) -> Seq<Conversation> {
        self.conversations@
    }

    /// The active conversation of a slot, if any.
    pub closed spec fn active_in(self, s: int) -> Option<Conversation> {
        self.active@[s]
    }

    /// The active conversations of the chat, command and explain slots.
    pub closed spec fn actives(self) -> Seq<Option<Conversation>> {
        self.active@
    }

    /// Whether `x` is a copy of one of the active conversations, which has
    /// messages.
    pub open spec fn from_active(self, x: Conversation) -> bool {
        copy_of_active(self.active_in(0), x) || copy_of_active(self.active_in(1), x) || copy_of_active(
            self.active_in(2),
            x,
        )
    }

    /// Whether there are changes not yet saved.
    pub closed spec fn unsaved(self) -> bool {
        self.dirty
    }

    /// Where the conversations are saved.
    pub closed spec fn path(self) -> Seq<char> {
        self.storage_path@
    }

    /// An empty store saving at `path`.
    pub fn with_path(path: &str) -> (s: Self)
        ensures
            s.archive().len() == 0,
            s.active_in(0) is None && s.active_in(1) is None && s.active_in(2) is None,
            !s.unsaved(),
            s.path() == path@,
    {
        ConversationStore { conversations: Vec::new(), active: [None, None, None], storage_path: path.to_owned(), dirty: false }
    }

    /// Where the conversations are saved.
    pub fn storage_path(&self) -> (p: &str)
        ensures
            p@ == self.path(),
    {
        self.storage_path.as_str()
    }

    /// Whether there are changes not yet saved.
    pub fn is_dirty(&self) -> (b: bool)
        ensures
            b == self.unsaved(),
    {
        self.dirty
    }

    /// Notes that everything has been saved.
    pub fn mark_saved(&mut self)
        ensures
            !final(self).unsaved(),
            final(self).archive() == old(self).archive(),
            forall|s: int| 0 <= s < 3 ==> final(self).active_in(s) == old(self).active_in(s),
            final(self).path() == old(self).path(),
    {
        self.dirty = false;
    }

    /// Replaces the archive with the conversations read from disk.
    pub fn set_loaded(&mut self, convs: Vec<Conversation>)
        ensures
            final(self).archive() == convs@,
            forall|s: int| 0 <= s < 3 ==> final(self).active_in(s) == old(self).active_in(s),
            final(self).unsaved() == old(self).unsaved(),
            final(self).path() == old(self).path(),
    {
        self.conversations = convs;
    }

    /// The active conversation of `mode`, creating one when there is none.
    pub fn active_conversation(&mut self, mode: &str) -> (c: &mut Conversation)
        ensures
            final(self).archive() == old(self).archive(),
            final(self).unsaved() == old(self).unsaved(),
            final(self).path() == old(self).path(),
            forall|s: int| 0 <= s < 3 && s != slot(mode@) ==> final(self).active_in(s) == old(self).active_in(s),
            final(self).active_in(slot(mode@)) == Some(*final(c)),
            match old(self).active_in(slot(mode@)) {
                Some(a) => *c == a,
                None => c.messages@.len() == 0 && c.mode@ == (if slot(mode@) == 1 {
                    "command"@
                } else if slot(mode@) == 2 {
                    "explain"@
                } else if mode@ == "chat"@ {
                    "chat"@
                } else {
                    mode@
                }),
            },
    {
        let s = slot_of(mode) as usize;
        if self.active[s].is_none() {
            let name = if s == 1 {
                "command"
            } else if s == 2 {
                "explain"
            } else if str_eq(mode, "chat") {
                "chat"
            } else {
                mode
            };
            self.active[s] = Some(Conversation::new(name));
        }
        assert(self.active@[s as int] is Some);
        self.active[s].as_mut().unwrap()
    }

    /// Adds a message to the active conversation of `mode`.
    pub fn add_message(&mut self, mode: &str, role: Role, content: &str)
        ensures
            final(self).unsaved(),
            final(self).archive() == old(self).archive(),
            forall|s: int| 0 <= s < 3 && s != slot(mode@) ==> final(self).active_in(s) == old(self).active_in(s),
            final(self).active_in(slot(mode@)) is Some,
            final(self).active_in(slot(mode@))->0.messages@.last().content@ == content@,
    {
        let c = self.active_conversation(mode);
        c.add_message(role, content);
        self.dirty = true;
    }

    /// Records the provider of the active conversation of `mode`.
    pub fn set_provider(&mut self, mode: &str, provider: &str)
        ensures
            final(self).unsaved(),
            final(self).archive() == old(self).archive(),
            forall|s: int| 0 <= s < 3 && s != slot(mode@) ==> final(self).active_in(s) == old(self).active_in(s),
            final(self).active_in(slot(mode@)) is Some,
            final(self).active_in(slot(mode@))->0.provider is Some,
            final(self).active_in(slot(mode@))->0.provider->0@ == provider@,
    {
        let c = self.active_conversation(mode);
        c.set_provider(provider);
        self.dirty = true;
    }

    fn archive_conversation(&mut self, conv: Conversation)
        ensures
            final(self).archive() == archived(old(self).archive(), conv),
            forall|s: int| 0 <= s < 3 ==> final(self).active_in(s) == old(self).active_in(s),
            final(self).unsaved() == old(self).unsaved(),
            final(self).path() == old(self).path(),
    {
        let ghost all = seq![conv] + self.conversations@;
        self.conversations.insert(0, conv);
        assert(self.conversations@ =~= all);
        while self.conversations.len() > MAX_CONVERSATIONS
            invariant
                self.conversations@ == all.take(self.conversations@.len() as int),
                self.conversations@.len() <= all.len(),
                self.conversations@.len() == all.len() || self.conversations@.len() >= MAX_CONVERSATIONS,
                self.active == old(self).active,
                self.dirty == old(self).dirty,
                self.storage_path == old(self).storage_path,
            decreases self.conversations@.len(),
        {
            self.conversations.pop();
            assert(self.conversations@ =~= all.take(self.conversations@.len() as int));
        }
        assert(all.take(all.len() as int) =~= all);
    }

    /// Starts a new conversation for `mode` (chat, command or explain),
    /// archiving the active one if it has messages; other modes change
    /// nothing but are marked as changed.
    pub fn new_conversation(&mut self, mode: &str)
        ensures
            final(self).unsaved(),
            final(self).path() == old(self).path(),
            mode@ == "chat"@ || mode@ == "command"@ || mode@ == "explain"@ ==> {
                &&& forall|s: int| 0 <= s < 3 && s != slot(mode@) ==> final(self).active_in(s) == old(self).active_in(s)
                &&& final(self).active_in(slot(mode@)) is Some
                &&& final(self).active_in(slot(mode@))->0.messages@.len() == 0
                &&& final(self).active_in(slot(mode@))->0.mode@ == mode@
                &&& final(self).archive() == match old(self).active_in(slot(mode@)) {
                    Some(a) => if a.messages@.len() > 0 {
                        archived(old(self).archive(), a)
                    } else {
                        old(self).archive()
                    },
                    None => old(self).archive(),
                }
            },
            !(mode@ == "chat"@ || mode@ == "command"@ || mode@ == "explain"@) ==> final(self).archive() == old(
                self,
            ).archive() && forall|s: int| 0 <= s < 3 ==> final(self).active_in(s) == old(self).active_in(s),
    {
        if str_eq(mode, "chat") || str_eq(mode, "command") || str_eq(mode, "explain") {
            let s = slot_of(mode) as usize;
            let ghost before_active = self.active@;
            assert(before_active == old(self).active@);
            let taken = self.active[s].take();
            assert(taken == before_active[s as int]);
            assert(forall|t: int| 0 <= t < 3 && t != s ==> self.active@[t] == before_active[t]);
            match taken {
                Some(conv) => {
                    if conv.messages.len() > 0 {
                        self.archive_conversation(conv);
                    }
                },
                None => {},
            }
            let ghost mid = self.active@;
            assert forall|t: int| 0 <= t < 3 && t != s implies mid[t] == before_active[t] by {
                assert(self.active_in(t) == self.active@[t]);
            }
            let fresh = Conversation::new(mode);
            self.active[s] = Some(fresh);
            assert(self.active@ == mid.update(s as int, Some(fresh)));
            assert(fresh.messages@.len() == 0 && fresh.mode@ == mode@);
            assert forall|t: int| 0 <= t < 3 && t != s implies #[trigger] self.active_in(t) == old(self).active_in(t) by {
                assert(self.active@[t] == mid[t]);
                assert(old(self).active_in(t) == before_active[t]);
            }
            assert(self.active_in(slot(mode@)) == Some(fresh));
            assert(self.conversations@ == match old(self).active_in(slot(mode@)) {
                Some(a) => if a.messages@.len() > 0 {
                    archived(old(self).archive(), a)
                } else {
                    old(self).archive()
                },
                None => old(self).archive(),
            });
        }
        self.dirty = true;
    }

    /// The first `limit` archived conversations of `mode`, newest first.
    pub fn recent_conversations(&self, mode: &str, limit: usize) -> (r: Vec<&Conversation>)
        ensures
            ({
                let f = self.archive().filter(|c: Conversation| c.mode@ == mode@);
                r@.map_values(|c: &Conversation| *c) == f.take(vstd::math::min(limit as int, f.len() as int))
            }),
    {
        let ghost pred = |c: Conversation| c.mode@ == mode@;
        let mut r: Vec<&Conversation> = Vec::new();
        let mut i: usize = 0;
        while i < self.conversations.len() && r.len() < limit
            invariant
                i <= self.conversations@.len(),
                r@.len() <= limit,
                pred == (|c: Conversation| c.mode@ == mode@),
                r@.map_values(|c: &Conversation| *c) == self.conversations@.take(i as int).filter(pred),
            decreases self.conversations@.len() - i,
        {
            proof {
                reveal(Seq::filter);
                assert(self.conversations@.take(i + 1).drop_last() =~= self.conversations@.take(i as int));
            }
            let ghost before = r@;
            if str_eq(self.conversations[i].mode.as_str(), mode) {
                r.push(&self.conversations[i]);
                assert(r@.map_values(|c: &Conversation| *c) =~= before.map_values(|c: &Conversation| *c).push(
                    self.conversations@[i as int],
                ));
            }
            i = i + 1;
        }
        proof {
            let f = self.conversations@.filter(pred);
            crate::ai_history::lemma_filter_take_prefix(self.conversations@, pred, i as int);
            if r@.len() < limit {
                assert(self.conversations@.take(i as int) =~= self.conversations@);
                assert(f.take(f.len() as int) =~= f);
            }
        }
        r
    }

    /// The archive, newest first.
    pub fn all_conversations(&self) -> (r: &[Conversation])
        ensures
            r@ == self.archive(),
    {
        self.conversations.as_slice()
    }

    /// The active conversation of a slot (0 chat, 1 command, 2 explain).
    pub fn active_of(&self, s: usize) -> (r: Option<&Conversation>)
        requires
            s < 3,
        ensures
            match r {
                Some(c) => self.active_in(s as int) == Some(*c),
                None => self.active_in(s as int) is None,
            },
    {
        match &self.active[s] {
            Some(c) => Some(c),
            None => None,
        }
    }

    /// Makes the archived conversation `id` the active one of `mode`
    /// (chat, command or explain), archiving the one it replaces if that
    /// has messages; whether it was found. It leaves the archive even when
    /// the mode is none of those.
    pub fn load_conversation(&mut self, id: &str, mode: &str) -> (found: bool)
        ensures
            final(self).path() == old(self).path(),
            match first_with_id(old(self).archive(), id@) {
                None => {
                    &&& !found
                    &&& final(self).archive() == old(self).archive()
                    &&& final(self).unsaved() == old(self).unsaved()
                    &&& forall|s: int| 0 <= s < 3 ==> final(self).active_in(s) == old(self).active_in(s)
                },
                Some(i) => {
                    let rest = old(self).archive().remove(i);
                    let conv = old(self).archive()[i];
                    if mode_known(mode@) {
                        let k = slot(mode@);
                        &&& found
                        &&& final(self).active_in(k) == Some(conv)
                        &&& forall|s: int| 0 <= s < 3 && s != k ==> final(self).active_in(s) == old(self).active_in(s)
                        &&& final(self).archive() == match old(self).active_in(k) {
                            Some(o) => if o.messages@.len() > 0 {
                                archived(rest, o)
                            } else {
                                rest
                            },
                            None => rest,
                        }
                        &&& final(self).unsaved()
                    } else {
                        &&& !found
                        &&& final(self).archive() == rest
                        &&& final(self).unsaved() == old(self).unsaved()
                        &&& forall|s: int| 0 <= s < 3 ==> final(self).active_in(s) == old(self).active_in(s)
                    }
                },
            },
    {
        let mut idx: usize = 0;
        let mut hit = false;
        while idx < self.conversations.len() && !hit
            invariant
                idx <= self.conversations@.len(),
                self.conversations@ == old(self).conversations@,
                self.active == old(self).active,
                self.dirty == old(self).dirty,
                self.storage_path == old(self).storage_path,
                hit ==> idx < self.conversations@.len() && self.conversations@[idx as int].id@ == id@,
                forall|j: int| 0 <= j < idx ==> (#[trigger] self.conversations@[j]).id@ != id@,
            decreases self.conversations@.len() - idx + if hit {
                0int
            } else {
                1int
            },
        {
            if str_eq(self.conversations[idx].id.as_str(), id) {
                hit = true;
            } else {
                idx = idx + 1;
            }
        }
        proof {
            lemma_first_with_id(old(self).archive(), id@, if hit { idx as int } else { self.conversations@.len() as int });
        }
        if !hit {
            return false;
        }
        assert(old(self).archive()[idx as int].id@ == id@);
        let conv = self.conversations.remove(idx);
        if !(str_eq(mode, "chat") || str_eq(mode, "command") || str_eq(mode, "explain")) {
            return false;
        }
        let s = slot_of(mode) as usize;
        let ghost rest = self.conversations@;
        let ghost before = self.active@;
        assert(rest == old(self).archive().remove(idx as int));
        assert(before == old(self).active@);
        let taken = self.active[s].take();
        assert(taken == before[s as int]);
        assert(self.active@ == before.update(s as int, None));
        let ghost mid = self.active@;
        match taken {
            Some(old_conv) => {
                if old_conv.messages.len() > 0 {
                    self.archive_conversation(old_conv);
                    assert(forall|k: int| 0 <= k < 3 ==> self.active_in(k) == mid[k]);
                    assert(self.active@.len() == 3 && mid.len() == 3);
                    assert(self.active@ =~= mid);
                }
            },
            None => {},
        }
        assert(self.active@ == before.update(s as int, None));
        self.active[s] = Some(conv);
        assert(self.active@ == before.update(s as int, Some(conv)));
        self.dirty = true;
        true
    }

    /// The chat conversation as shown: each message that is not from the
    /// system, as "You: …" or "Assistant: …" followed by a blank line.
    pub fn current_chat_display(&self) -> (s: String)
        ensures
            s@ == match self.active_in(0) {
                Some(c) => chat_text(c.messages@),
                None => Seq::empty(),
            },
    {
        let mut out = String::new();
        match &self.active[0] {
            Some(c) => {
                let mut i: usize = 0;
                while i < c.messages.len()
                    invariant
                        i <= c.messages@.len(),
                        out@ == chat_text(c.messages@.take(i as int)),
                    decreases c.messages@.len() - i,
                {
                    proof {
                        assert(c.messages@.take(i + 1).drop_last() =~= c.messages@.take(i as int));
                    }
                    let m = &c.messages[i];
                    match m.role {
                        StoredRole::User => {
                            append_str(&mut out, "You: ");
                            append_str(&mut out, m.content.as_str());
                            append_str(&mut out, "\n\n");
                        },
                        StoredRole::Assistant => {
                            append_str(&mut out, "Assistant: ");
                            append_str(&mut out, m.content.as_str());
                            append_str(&mut out, "\n\n");
                        },
                        StoredRole::System => {},
                    }
                    i = i + 1;
                }
                assert(c.messages@.take(c.messages@.len() as int) =~= c.messages@);
            },
            None => {},
        }
        out
    }

    /// Statistics of the archive.
    pub fn stats(&self) -> (s: ConversationStats)
        ensures
            s.total_conversations == self.archive().len(),
            s.chat_count == mode_count(self.archive(), "chat"@),
            s.command_count == mode_count(self.archive(), "command"@),
            s.explain_count == mode_count(self.archive(), "explain"@),
    {
        ConversationStats {
            total_conversations: self.conversations.len(),
            chat_count: self.count_mode("chat"),
            command_count: self.count_mode("command"),
            explain_count: self.count_mode("explain"),
        }
    }

    fn count_mode(&self, mode: &str) -> (n: usize)
        ensures
            n == mode_count(self.archive(), mode@),
    {
        let ghost pred = |c: Conversation| c.mode@ == mode@;
        let mut n: usize = 0;
        let mut i: usize = 0;
        while i < self.conversations.len()
            invariant
                i <= self.conversations@.len(),
                pred == (|c: Conversation| c.mode@ == mode@),
                n == self.conversations@.take(i as int).filter(pred).len(),
                n <= i,
            decreases self.conversations@.len() - i,
        {
            proof {
                reveal(Seq::filter);
                assert(self.conversations@.take(i + 1).drop_last() =~= self.conversations@.take(i as int));
            }
            if str_eq(self.conversations[i].mode.as_str(), mode) {
                n = n + 1;
            }
            i = i + 1;
        }
        assert(self.conversations@.take(self.conversations@.len() as int) =~= self.conversations@);
        n
    }

    /// What is saved: the archive, then each active conversation that has
    /// messages and is not already in the list.
    pub fn conversations_to_save(&self) -> (r: Vec<Conversation>)
        ensures
            r@.len() == saved_list(self.archive(), self.actives(), 3).len(),
            forall|i: int| 0 <= i < r@.len() ==> same_conversation(#[trigger] r@[i], saved_list(self.archive(), self.actives(), 3)[i]),
            r@.len() >= self.archive().len(),
            forall|i: int| 0 <= i < self.archive().len() ==> same_conversation(#[trigger] r@[i], self.archive()[i]),
            forall|i: int| self.archive().len() <= i < r@.len() ==> self.from_active(#[trigger] r@[i]),
    {
        let mut r: Vec<Conversation> = Vec::new();
        let mut i: usize = 0;
        while i < self.conversations.len()
            invariant
                i <= self.conversations@.len(),
                r@.len() == i,
                forall|k: int| 0 <= k < i ==> same_conversation(#[trigger] r@[k], self.conversations@[k]),
            decreases self.conversations@.len() - i,
        {
            r.push(copy_conversation(&self.conversations[i]));
            i = i + 1;
        }
        let ghost actives = self.actives();
        let ghost archive = self.conversations@;
        assert(saved_list(archive, actives, 0) == archive);
        let mut s: usize = 0;
        while s < 3
            invariant
                s <= 3,
                actives == self.actives(),
                archive == self.conversations@,
                self.active@.len() == 3,
                r@.len() == saved_list(archive, actives, s as int).len(),
                forall|k: int| 0 <= k < r@.len() ==> same_conversation(#[trigger] r@[k], saved_list(archive, actives, s as int)[k]),
                r@.len() >= self.conversations@.len(),
                forall|k: int| 0 <= k < self.conversations@.len() ==> same_conversation(#[trigger] r@[k], self.conversations@[k]),
                forall|k: int| self.conversations@.len() <= k < r@.len() ==> self.from_active(#[trigger] r@[k]),
            decreases 3 - s,
        {
            let ghost prev = saved_list(archive, actives, s as int);
            proof {
                lemma_saved_list_prefix(archive, actives, s as int);
            }
            match &self.active[s] {
                Some(c) => {
                    if c.messages.len() > 0 {
                        let mut present = false;
                        let mut k: usize = 0;
                        while k < r.len()
                            invariant
                                k <= r@.len(),
                                present <==> exists|j: int| 0 <= j < k && (#[trigger] r@[j]).id@ == c.id@,
                            decreases r@.len() - k,
                        {
                            if str_eq(r[k].id.as_str(), c.id.as_str()) {
                                present = true;
                            }
                            k = k + 1;
                        }
                        proof {
                            assert(present <==> exists|j: int| 0 <= j < prev.len() && (#[trigger] prev[j]).id@ == c.id@) by {
                                if present {
                                    let j = choose|j: int| 0 <= j < r@.len() && (#[trigger] r@[j]).id@ == c.id@;
                                    assert(same_conversation(r@[j], prev[j]));
                                }
                                if exists|j: int| 0 <= j < prev.len() && (#[trigger] prev[j]).id@ == c.id@ {
                                    let j = choose|j: int| 0 <= j < prev.len() && (#[trigger] prev[j]).id@ == c.id@;
                                    assert(same_conversation(r@[j], prev[j]));
                                    assert(r@[j].id@ == c.id@);
                                }
                            }
                        }
                        if !present {
                            let ghost before = r@;
                            let copy = copy_conversation(c);
                            r.push(copy);
                            assert forall|k: int| self.conversations@.len() <= k < r@.len() implies self.from_active(
                                #[trigger] r@[k],
                            ) by {
                                if k < before.len() {
                                    assert(r@[k] == before[k]);
                                } else {
                                    assert(copy_of_active(self.active_in(s as int), r@[k]));
                                }
                            }
                            assert forall|k: int| 0 <= k < r@.len() implies same_conversation(
                                #[trigger] r@[k],
                                saved_list(archive, actives, s + 1)[k],
                            ) by {
                                if k < before.len() {
                                    assert(r@[k] == before[k]);
                                }
                            }
                        }
                    }
                },
                None => {},
            }
            s = s + 1;
        }
        r
    }
}

/// What is saved from an archive and the active conversations of the
/// first `s` slots: the archive, then each of those active conversations
/// that has messages and whose id is not yet in the list.
pub open spec fn saved_list(archive: Seq<Conversation>, actives: Seq<Option<Conversation>>, s: int) -> Seq<Conversation>
    decreases s,
{
    if s <= 0 {
        archive
    } else {
        let prev = saved_list(archive, actives, s - 1);
        match actives[s - 1] {
            Some(c) => if c.messages@.len() > 0 && !(exists|k: int| 0 <= k < prev.len() && (#[trigger] prev[k]).id@ == c.id@) {
                prev.push(c)
            } else {
                prev
            },
            None => prev,
        }
    }
}

proof fn lemma_saved_list_prefix(archive: Seq<Conversation>, actives: Seq<Option<Conversation>>, s: int)
    requires
        0 <= s,
    ensures
        saved_list(archive, actives, s).len() >= archive.len(),
        forall|k: int| 0 <= k < archive.len() ==> #[trigger] saved_list(archive, actives, s)[k] == archive[k],
    decreases s,
{
    if s > 0 {
        lemma_saved_list_prefix(archive, actives, s - 1);
    }
}

/// Whether `x` is a copy of the active conversation `a`, which has
/// messages.
pub open spec fn copy_of_active(a: Option<Conversation>, x: Conversation) -> bool {
    match a {
        Some(c) => same_conversation(x, c) && c.messages@.len() > 0,
        None => false,
    }
}

/// The chat text of a list of messages.
pub open spec fn chat_text(msgs: Seq<StoredMessage>) -> Seq<char>
    decreases msgs.len(),
{
    if msgs.len() == 0 {
        Seq::empty()
    } else {
        let m = msgs.last();
        chat_text(msgs.drop_last()) + match m.role {
            StoredRole::User => "You: "@ + m.content@ + "\n\n"@,
            StoredRole::Assistant => "Assistant: "@ + m.content@ + "\n\n"@,
            StoredRole::System => Seq::empty(),
        }
    }
}

} // verus!
