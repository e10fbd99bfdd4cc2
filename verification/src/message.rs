//! The messages that conversations hold.

use vstd::prelude::*;

verus! {

/// Who wrote a message.
#[derive(Debug, Clone, Copy, PartialEq, Eq, Structural)]
pub enum MessageSender {
    User,
    AI,
}

/// A file sent along with a message.
#[derive(Debug, PartialEq, Eq)]
pub struct Attachment {
    pub filename: String,
    pub content_type: String,
    /// The file's bytes in base64.
    pub data: String,
}

/// The mathematical value of an [`Attachment`].
pub struct AttachmentView {
    pub filename: Seq<char>,
    pub content_type: Seq<char>,
    pub data: Seq<char>,
}

impl View for Attachment {
    type V = AttachmentView;

    open spec fn view(&self) -> AttachmentView {
        AttachmentView {
            filename: self.filename@,
            content_type: self.content_type@,
            data: self.data@,
        }
    }
}

impl Clone for Attachment {
    fn clone(&self) -> (copy: Self)
        ensures
            copy == *self,
    {
        Attachment {
            filename: self.filename.clone(),
            content_type: self.content_type.clone(),
            data: self.data.clone(),
        }
    }
}

/// One message of a conversation. Once stored it never changes.
#[derive(Debug, PartialEq, Eq)]
pub struct ChatMessage {
    pub text: Option<String>,
    pub attachment: Option<Attachment>,
    pub sender: MessageSender,
}

/// The mathematical value of a [`ChatMessage`].
pub struct MessageView {
    pub text: Option<Seq<char>>,
    pub attachment: Option<AttachmentView>,
    pub sender: MessageSender,
}

impl View for ChatMessage {
    type V = MessageView;

    open spec fn view(&self) -> MessageView {
        MessageView {
            text: match self.text {
                Some(text) => Some(text@),
                None => None,
            },
            attachment: match self.attachment {
                Some(attachment) => Some(attachment@),
                None => None,
            },
            sender: self.sender,
        }
    }
}

impl Clone for ChatMessage {
    fn clone(&self) -> (copy: Self)
        ensures
            copy == *self,
    {
        ChatMessage {
            text: match &self.text {
                Some(text) => Some(text.clone()),
                None => None,
            },
            attachment: match &self.attachment {
                Some(attachment) => Some(attachment.clone()),
                None => None,
            },
            sender: self.sender,
        }
    }
}

/// The values of a run of messages, in order.
pub open spec fn message_views(messages: Seq<ChatMessage>) -> Seq<MessageView> {
    Seq::new(messages.len(), |i: int| messages[i]@)
}

} // verus!
