//! Types and verified logic for the private messages endpoints: message
//! tabs and the checked reshaping of one page of messages.

use vstd::prelude::*;

verus! {

/// An enum that corresponds to the different message tabs.
#[allow(missing_docs)]
#[derive(Clone, Copy, Debug, PartialEq, Eq, Structural)]
pub enum MessageTabType {
    Inbox,
    Sent,
    Archive,
}

impl MessageTabType {
    /// The spelling of this tab inside the messages url.
    pub open spec fn spec_as_str(self) -> Seq<char> {
        match self {
            MessageTabType::Inbox => "inbox"@,
            MessageTabType::Sent => "sent"@,
            MessageTabType::Archive => "archive"@,
        }
    }

    /// The name of this tab as the messages url spells it.
    pub fn as_str(self) -> (r: &'static str)
        ensures
            r@ == self.spec_as_str(),
    {
        match self {
            MessageTabType::Inbox => "inbox",
            MessageTabType::Sent => "sent",
            MessageTabType::Archive => "archive",
        }
    }
}

/// A private message. This can be from the user's inbox, sent, or
/// archive tab.
#[allow(missing_docs)]
#[derive(Clone, Debug)]
pub struct Message {
    pub message_id: u64,
    pub sender_id: u64,
    pub sender_username: String,
    pub sender_display_name: String,
    pub receiver_id: u64,
    pub receiver_username: String,
    pub receiver_display_name: String,
    pub subject: String,
    pub body: String,
    /// ISO 8601 timestamp of when the message was created.
    pub created: String,
    /// Whether the message has been read.
    pub is_read: bool,
    /// Whether the message is from the platform itself.
    pub is_system_message: bool,
}

/// Contains the metadata of the messages: the total amount of messages
/// and the total amount of pages.
#[derive(Clone, Copy, Debug, PartialEq, Eq, Structural)]
pub struct MessagesMetadata {
    /// The total amount of messages in that message tab.
    pub total_message_count: u64,
    /// The total amount of pages in that message tab. The page numbers
    /// go from zero up to this count.
    pub total_pages: u64,
}

/// The raw shape of one party of a message.
#[allow(missing_docs)]
#[derive(Clone, Debug)]
pub struct MessagePartyRaw {
    pub has_verified_badge: bool,
    pub id: i64,
    pub name: String,
    pub display_name: String,
}

/// The raw shape of one message of a messages page.
#[allow(missing_docs)]
#[derive(Clone, Debug)]
pub struct MessageRaw {
    pub id: i64,
    pub sender: MessagePartyRaw,
    pub recipient: MessagePartyRaw,
    pub subject: String,
    pub body: String,
    pub created: String,
    pub updated: String,
    pub is_read: bool,
    pub is_system_message: bool,
}

/// The raw shape of one page of messages.
#[allow(missing_docs)]
#[derive(Clone, Debug)]
pub struct MessagesResponse {
    pub collection: Vec<MessageRaw>,
    pub total_collection_size: i64,
    pub total_pages: i64,
    pub page_number: i64,
}

/// How one message relates to its raw entry.
pub open spec fn spec_message_from_raw(raw: MessageRaw, m: Message) -> bool {
    &&& m.message_id == raw.id as u64
    &&& m.sender_id == raw.sender.id as u64
    &&& m.sender_username == raw.sender.name
    &&& m.sender_display_name == raw.sender.display_name
    &&& m.receiver_id == raw.recipient.id as u64
    &&& m.receiver_username == raw.recipient.name
    &&& m.receiver_display_name == raw.recipient.display_name
    &&& m.subject == raw.subject
    &&& m.body == raw.body
    &&& m.created == raw.created
    &&& m.is_read == raw.is_read
    &&& m.is_system_message == raw.is_system_message
}

/// Reshapes one page of messages, keeping the order, and reads its
/// metadata.
pub fn messages_from_response(raw: MessagesResponse) -> (r: (Vec<Message>, MessagesMetadata))
    ensures
        r.0@.len() == raw.collection@.len(),
        forall|i: int| 0 <= i < raw.collection@.len() ==> #[trigger] spec_message_from_raw(
            raw.collection@[i],
            r.0@[i],
        ),
        r.1.total_message_count == raw.total_collection_size as u64,
        r.1.total_pages == raw.total_pages as u64,
{
    let mut messages: Vec<Message> = Vec::new();
    let mut i: usize = 0;
    while i < raw.collection.len()
        invariant
            i <= raw.collection.len(),
            messages@.len() == i,
            forall|j: int| 0 <= j < i ==> #[trigger] spec_message_from_raw(
                raw.collection@[j],
                messages@[j],
            ),
        decreases raw.collection.len() - i,
    {
        let entry = &raw.collection[i];
        messages.push(
            Message {
                message_id: entry.id as u64,
                sender_id: entry.sender.id as u64,
                sender_username: entry.sender.name.clone(),
                sender_display_name: entry.sender.display_name.clone(),
                receiver_id: entry.recipient.id as u64,
                receiver_username: entry.recipient.name.clone(),
                receiver_display_name: entry.recipient.display_name.clone(),
                subject: entry.subject.clone(),
                body: entry.body.clone(),
                created: entry.created.clone(),
                is_read: entry.is_read,
                is_system_message: entry.is_system_message,
            },
        );
        i = i + 1;
    }
    let metadata = MessagesMetadata {
        total_message_count: raw.total_collection_size as u64,
        total_pages: raw.total_pages as u64,
    };
    (messages, metadata)
}

} // verus!
