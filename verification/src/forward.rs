use vstd::prelude::*;
use crate::sender::{Chat, User};

verus! {

/// Where a forwarded message first came from.
#[derive(Debug)]
pub enum MessageForwardOrigin {
    /// A message first sent by a known user.
    User(User),
    /// A message first sent by a chat on its own behalf.
    Chat { chat: Chat, author_signature: String },
    /// A message first sent by a user who hides their account.
    HiddenUser { sender_name: String },
    /// A post first published in a channel.
    Channel { chat: Chat, message_id: i64, author_signature: String },
    /// A message imported from another application.
    MessageImport { sender_name: String },
}

/// A forward origin in mathematical form.
pub enum ForwardOriginModel {
    User(User),
    Chat { chat: Chat, author_signature: Seq<char> },
    HiddenUser { sender_name: Seq<char> },
    Channel { chat: Chat, message_id: i64, author_signature: Seq<char> },
    MessageImport { sender_name: Seq<char> },
}

impl View for MessageForwardOrigin {
    type V = ForwardOriginModel;

    open spec fn view(&self) -> ForwardOriginModel {
        match self {
            MessageForwardOrigin::User(user) => ForwardOriginModel::User(*user),
            MessageForwardOrigin::Chat { chat, author_signature } => ForwardOriginModel::Chat {
                chat: *chat,
                author_signature: author_signature@,
            },
            MessageForwardOrigin::HiddenUser { sender_name } => ForwardOriginModel::HiddenUser {
                sender_name: sender_name@,
            },
            MessageForwardOrigin::Channel { chat, message_id, author_signature } =>
                ForwardOriginModel::Channel {
                chat: *chat,
                message_id: *message_id,
                author_signature: author_signature@,
            },
            MessageForwardOrigin::MessageImport { sender_name } =>
                ForwardOriginModel::MessageImport { sender_name: sender_name@ },
        }
    }
}

/// What a forwarded message tells of its first sending.
#[derive(Debug)]
pub struct MessageForwardInfo {
    pub origin: MessageForwardOrigin,
    /// When the message was first sent, in seconds since the Unix epoch.
    pub date: i32,
}

/// Forward information in mathematical form.
pub struct ForwardInfoModel {
    pub origin: ForwardOriginModel,
    pub date: i32,
}

impl View for MessageForwardInfo {
    type V = ForwardInfoModel;

    open spec fn view(&self) -> ForwardInfoModel {
        ForwardInfoModel { origin: self.origin@, date: self.date }
    }
}

pub open spec fn forward_info_model(info: Option<MessageForwardInfo>) -> Option<ForwardInfoModel> {
    match info {
        Some(info) => Some(info@),
        None => None,
    }
}

impl MessageForwardInfo {
    /// Where the message first came from.
    pub fn origin(&self) -> (r: &MessageForwardOrigin)
        ensures
            r@ == self@.origin,
    {
        &self.origin
    }
}

} // verus!
