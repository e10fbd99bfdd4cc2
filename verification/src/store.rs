//! The conversation store: an ordered list of conversations, each an
//! append-only log of messages with a broadcast channel for live readers.
//!
//! The store is plain data. Whoever shares it between tasks puts a
//! reader-writer lock around it: an operation that changes the store takes
//! it by `&mut`, so appending a message and publishing it happen as one
//! step with respect to every reader, and opening a stream takes its copy
//! of the log and its subscription under one shared borrow.

use crate::message::{message_views, ChatMessage, MessageView};
use tokio::sync::broadcast::{Receiver, Sender};
use vstd::prelude::*;

verus! {

/// The sending half of a tokio broadcast channel. Nothing of its state is
/// visible to proofs.
#[verifier::external_type_specification]
#[verifier::external_body]
#[verifier::reject_recursive_types(T)]
pub struct ExSender<T>(Sender<T>);

/// The receiving half of a tokio broadcast channel. Nothing of its state is
/// visible to proofs.
#[verifier::external_type_specification]
#[verifier::external_body]
#[verifier::reject_recursive_types(T)]
pub struct ExReceiver<T>(Receiver<T>);

/// The capacity that a broadcast channel was made with: the number handed
/// to `tokio::sync::broadcast::channel` when the channel behind this sender
/// was created. It is the limit asked for, not the room that tokio keeps,
/// which is that number rounded up to a power of two.
pub uninterp spec fn channel_capacity(tx: Sender<ChatMessage>) -> nat;

/// `tokio::sync::broadcast::channel`, keeping the sender and dropping the
/// receiver that comes with it. The call panics for a capacity of zero or
/// above `usize::MAX / 2`. The channel is made with the capacity given;
/// nothing else is claimed of it.
#[verifier::external_body]
fn open_channel(capacity: usize) -> (tx: Sender<ChatMessage>)
    requires
        0 < capacity <= usize::MAX / 2,
    ensures
        channel_capacity(tx) == capacity,
{
    let (tx, _rx) = tokio::sync::broadcast::channel(capacity);
    tx
}

/// `Sender::send`, whose result is dropped: the store does not care whether
/// a subscriber was there to take the message.
#[verifier::external_body]
fn publish(tx: &Sender<ChatMessage>, message: ChatMessage) {
    let _ = tx.send(message);
}

/// `Sender::subscribe`: a new receiver on the channel. Nothing is claimed
/// of what it will receive.
#[verifier::external_body]
fn subscribe(tx: &Sender<ChatMessage>) -> (rx: Receiver<ChatMessage>) {
    tx.subscribe()
}

/// How many published messages a channel keeps for a subscriber that has
/// fallen behind.
pub const CHANNEL_CAPACITY: usize = 32;

/// The mathematical value of a [`ConversationStore`]: the message log of
/// each conversation, at the position that is the conversation's id.
pub struct ConversationsView {
    pub logs: Seq<Seq<MessageView>>,
}

impl ConversationsView {
    /// The store that holds no conversation.
    pub open spec fn empty() -> ConversationsView {
        ConversationsView { logs: Seq::empty() }
    }

    /// The number of conversations, which is also the id that the next one
    /// gets.
    pub open spec fn next_id(self) -> nat {
        self.logs.len()
    }

    /// Whether `conv_id` names a conversation.
    pub open spec fn has(self, conv_id: int) -> bool {
        0 <= conv_id < self.logs.len()
    }

    /// The ids of all conversations, in the order of their creation.
    pub open spec fn ids(self) -> Seq<nat> {
        Seq::new(self.logs.len(), |i: int| i as nat)
    }

    /// The store after one more conversation was created.
    pub open spec fn created(self) -> ConversationsView {
        ConversationsView { logs: self.logs.push(Seq::empty()) }
    }

    /// The store after `count` more conversations were created.
    pub open spec fn created_times(self, count: nat) -> ConversationsView
        decreases count,
    {
        if count == 0 {
            self
        } else {
            self.created_times((count - 1) as nat).created()
        }
    }

    /// The store after `message` was sent to `conv_id`: appended to that
    /// conversation's log, or dropped where there is no such conversation.
    pub open spec fn sent(self, conv_id: int, message: MessageView) -> ConversationsView {
        if self.has(conv_id) {
            ConversationsView { logs: self.logs.update(conv_id, self.logs[conv_id].push(message)) }
        } else {
            self
        }
    }

    /// The messages of `conv_id` in the order they were sent; none where
    /// there is no such conversation.
    pub open spec fn messages(self, conv_id: int) -> Seq<MessageView> {
        if self.has(conv_id) {
            self.logs[conv_id]
        } else {
            Seq::empty()
        }
    }

    /// The stored messages of `conv_id` from position `from` on.
    pub open spec fn backlog(self, conv_id: int, from: int) -> Seq<MessageView> {
        let all = self.messages(conv_id);
        if 0 <= from <= all.len() {
            all.skip(from)
        } else {
            Seq::empty()
        }
    }
}

/// A conversation: its messages and the channel on which new ones are
/// announced.
struct Conversation {
    messages: Vec<ChatMessage>,
    tx: Sender<ChatMessage>,
}

impl Conversation {
    /// An empty conversation with a channel of its own, made with the
    /// store's channel capacity.
    fn new() -> (conversation: Self)
        ensures
            conversation.messages@ == Seq::<ChatMessage>::empty(),
            channel_capacity(conversation.tx) == CHANNEL_CAPACITY,
    {
        Conversation { messages: Vec::new(), tx: open_channel(CHANNEL_CAPACITY) }
    }
}

/// What `stream_messages` hands to a reader.
pub enum MessageStream {
    /// There is no such conversation: the stream is over before it began.
    Closed,
    /// The stored messages to replay first, and the receiver on which the
    /// messages published afterwards arrive.
    Open { backlog: Vec<ChatMessage>, live: Receiver<ChatMessage> },
}

/// All conversations of one backend, in memory.
pub struct ConversationStore {
    conversations: Vec<Conversation>,
}

impl View for ConversationStore {
    type V = ConversationsView;

    closed spec fn view(&self) -> ConversationsView {
        ConversationsView {
            logs: Seq::new(
                self.conversations@.len(),
                |i: int| message_views(self.conversations@[i].messages@),
            ),
        }
    }
}

impl ConversationStore {
    /// A store without conversations.
    pub fn new() -> (store: Self)
        ensures
            store@ == ConversationsView::empty(),
    {
        let store = ConversationStore { conversations: Vec::new() };
        assert(store@.logs =~= Seq::empty());
        store
    }

    /// Opens a new, empty conversation and returns its id: its position in
    /// the order of creation.
    pub fn create_conversation(&mut self) -> (id: usize)
        ensures
            id == old(self)@.next_id(),
            final(self)@ == old(self)@.created(),
    {
        let id = self.conversations.len();
        self.conversations.push(Conversation::new());
        proof {
            assert(message_views(self.conversations@[id as int].messages@) =~= Seq::empty());
            assert(self@.logs =~= old(self)@.created().logs);
        }
        id
    }

    /// The ids of all conversations, in the order of their creation.
    pub fn list_conversations(&self) -> (ids: Vec<usize>)
        ensures
            ids@.len() == self@.ids().len(),
            forall|i: int| 0 <= i < ids@.len() ==> ids@[i] == self@.ids()[i],
    {
        let mut ids: Vec<usize> = Vec::new();
        let mut i: usize = 0;
        while i < self.conversations.len()
            invariant
                i <= self.conversations.len(),
                ids@.len() == i,
                forall|j: int| 0 <= j < i ==> ids@[j] == j,
                self@.next_id() == self.conversations.len(),
            decreases self.conversations.len() - i,
        {
            ids.push(i);
            i += 1;
        }
        ids
    }

    /// Appends a message to a conversation and publishes it to the
    /// conversation's live readers. Where there is no such conversation
    /// nothing happens. Returns whether the conversation exists.
    pub fn send_message(&mut self, conv_id: usize, msg: ChatMessage) -> (found: bool)
        ensures
            found == old(self)@.has(conv_id as int),
            final(self)@ == old(self)@.sent(conv_id as int, msg@),
    {
        if conv_id < self.conversations.len() {
            let conversation = &mut self.conversations[conv_id];
            conversation.messages.push(msg.clone());
            publish(&conversation.tx, msg);
            proof {
                let before = old(self).conversations@;
                let after = self.conversations@;
                assert(after.len() == before.len());
                assert(after[conv_id as int].messages@ == before[conv_id as int].messages@.push(
                    msg,
                ));
                assert(message_views(after[conv_id as int].messages@) =~= message_views(
                    before[conv_id as int].messages@,
                ).push(msg@));
                assert forall|j: int| 0 <= j < after.len() && j != conv_id implies after[j]
                    == before[j] by {}
                assert(self@.logs =~= old(self)@.sent(conv_id as int, msg@).logs);
            }
            true
        } else {
            false
        }
    }

    /// A copy of the messages of a conversation, in the order they were
    /// sent; empty where there is no such conversation.
    pub fn get_messages(&self, conv_id: usize) -> (messages: Vec<ChatMessage>)
        ensures
            message_views(messages@) == self@.messages(conv_id as int),
    {
        if conv_id < self.conversations.len() {
            let copy = copy_from(&self.conversations[conv_id].messages, 0);
            assert(copy@ =~= self.conversations@[conv_id as int].messages@);
            copy
        } else {
            let none: Vec<ChatMessage> = Vec::new();
            assert(message_views(none@) =~= Seq::empty());
            none
        }
    }

    /// Opens a stream on a conversation: the stored messages from position
    /// `from` on, to be replayed first, and a subscription to the
    /// conversation's channel taken at the same moment, so that no message
    /// falls between the two. Where there is no such conversation the
    /// stream is closed.
    pub fn stream_messages(&self, conv_id: usize, from: usize) -> (stream: MessageStream)
        ensures
            match stream {
                MessageStream::Closed => !self@.has(conv_id as int),
                MessageStream::Open { backlog, live } => self@.has(conv_id as int)
                    && message_views(backlog@) == self@.backlog(conv_id as int, from as int),
            },
    {
        if conv_id < self.conversations.len() {
            let conversation = &self.conversations[conv_id];
            let backlog = copy_from(&conversation.messages, from);
            let live = subscribe(&conversation.tx);
            proof {
                let all = conversation.messages@;
                if from <= all.len() {
                    assert(message_views(all.skip(from as int)) =~= message_views(all).skip(
                        from as int,
                    ));
                } else {
                    assert(message_views(backlog@) =~= Seq::empty());
                }
            }
            MessageStream::Open { backlog, live }
        } else {
            MessageStream::Closed
        }
    }
}

/// Copies the messages from position `from` on; none where `from` is past
/// the end.
fn copy_from(messages: &Vec<ChatMessage>, from: usize) -> (copy: Vec<ChatMessage>)
    ensures
        copy@ == if from <= messages@.len() {
            messages@.skip(from as int)
        } else {
            Seq::empty()
        },
{
    let mut copy: Vec<ChatMessage> = Vec::new();
    if from > messages.len() {
        return copy;
    }
    let mut i: usize = from;
    while i < messages.len()
        invariant
            from <= i <= messages.len(),
            copy@ == messages@.subrange(from as int, i as int),
        decreases messages.len() - i,
    {
        copy.push(messages[i].clone());
        assert(copy@ =~= messages@.subrange(from as int, i + 1));
        i += 1;
    }
    assert(copy@ =~= messages@.skip(from as int));
    copy
}

/// Ids are positions: the list of ids has one entry for each conversation,
/// and the entry at each position is that position.
pub proof fn law_ids_are_positions(store: ConversationsView)
    ensures
        store.ids().len() == store.next_id(),
        forall|i: int| 0 <= i < store.next_id() ==> store.ids()[i] == i,
{
}

/// Creating conversations hands out rising ids that are positions in the
/// list of ids: of `count` creations in a row, the one after `k` others
/// returns the id `next_id() + k`, the list of ids ends with those ids in
/// that order, and nothing before them has changed.
pub proof fn law_created_ids_rise(store: ConversationsView, count: nat)
    ensures
        store.created_times(count).next_id() == store.next_id() + count,
        store.created_times(count).ids() == store.ids() + Seq::new(
            count,
            |k: int| (store.next_id() + k) as nat,
        ),
        forall|k: nat|
            k < count ==> #[trigger] store.created_times(k).next_id() == store.next_id() + k
                && store.created_times(k).next_id() < store.created_times(k).created().next_id(),
    decreases count,
{
    if count > 0 {
        let fewer = (count - 1) as nat;
        law_created_ids_rise(store, fewer);
        assert(store.created_times(count).ids() =~= store.ids() + Seq::new(
            count,
            |k: int| (store.next_id() + k) as nat,
        ));
        assert forall|k: nat| k < count implies #[trigger] store.created_times(k).next_id()
            == store.next_id() + k && store.created_times(k).next_id() < store.created_times(
            k,
        ).created().next_id() by {
            if k == fewer {
            }
        }
    } else {
        assert(store.ids() =~= store.ids() + Seq::new(
            count,
            |k: int| (store.next_id() + k) as nat,
        ));
    }
}

/// Creating a conversation leaves every existing conversation as it was.
pub proof fn law_creation_keeps_messages(store: ConversationsView, conv_id: int)
    requires
        store.has(conv_id),
    ensures
        store.created().has(conv_id),
        store.created().messages(conv_id) == store.messages(conv_id),
        store.created().messages(store.next_id() as int) == Seq::<MessageView>::empty(),
{
}

/// A message sent to an existing conversation is the last of that
/// conversation's messages right afterwards, behind all that were there.
pub proof fn law_sent_message_is_last(store: ConversationsView, conv_id: int, message: MessageView)
    requires
        store.has(conv_id),
    ensures
        store.sent(conv_id, message).messages(conv_id) == store.messages(conv_id).push(message),
        store.sent(conv_id, message).messages(conv_id).last() == message,
{
}

/// Sending to one conversation changes no other, and neither creates nor
/// removes a conversation.
pub proof fn law_sending_keeps_others(
    store: ConversationsView,
    conv_id: int,
    message: MessageView,
    other: int,
)
    requires
        other != conv_id,
    ensures
        store.sent(conv_id, message).ids() == store.ids(),
        store.sent(conv_id, message).messages(other) == store.messages(other),
{
}

/// Sending to a conversation that does not exist changes nothing: neither
/// the list of ids nor the messages of any conversation.
pub proof fn law_sending_to_missing_changes_nothing(
    store: ConversationsView,
    conv_id: int,
    message: MessageView,
)
    requires
        !store.has(conv_id),
    ensures
        store.sent(conv_id, message) == store,
        store.sent(conv_id, message).ids() == store.ids(),
        forall|other: int| store.sent(conv_id, message).messages(other) == store.messages(other),
{
}

/// What a stream replays is the conversation's messages from the starting
/// position on: all of them from position zero, none from a position past
/// the end, none for a conversation that does not exist.
pub proof fn law_backlog_is_tail_of_messages(store: ConversationsView, conv_id: int, from: nat)
    ensures
        from <= store.messages(conv_id).len() ==> store.backlog(conv_id, from as int)
            == store.messages(conv_id).skip(from as int),
        from > store.messages(conv_id).len() ==> store.backlog(conv_id, from as int)
            == Seq::<MessageView>::empty(),
        store.backlog(conv_id, 0) == store.messages(conv_id),
        !store.has(conv_id) ==> store.backlog(conv_id, from as int) == Seq::<MessageView>::empty(),
{
    assert(store.messages(conv_id).skip(0) =~= store.messages(conv_id));
}

/// The stored log grows under a stream's feet in the order of sending. For
/// a starting position within the log, a message sent to the conversation
/// afterwards comes right behind what was there to replay; a message sent
/// to another conversation, or a conversation created afterwards, adds
/// nothing.
pub proof fn law_backlog_follows_sends(
    store: ConversationsView,
    conv_id: int,
    from: nat,
    target: int,
    message: MessageView,
)
    requires
        store.has(conv_id),
        from <= store.messages(conv_id).len(),
    ensures
        target == conv_id ==> store.sent(target, message).backlog(conv_id, from as int)
            == store.backlog(conv_id, from as int).push(message),
        target != conv_id ==> store.sent(target, message).backlog(conv_id, from as int)
            == store.backlog(conv_id, from as int),
        store.created().backlog(conv_id, from as int) == store.backlog(conv_id, from as int),
{
    if target == conv_id {
        assert(store.sent(target, message).backlog(conv_id, from as int) =~= store.backlog(
            conv_id,
            from as int,
        ).push(message));
    }
}

} // verus!
