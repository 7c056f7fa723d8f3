use vstd::prelude::*;
use crate::forward::{ForwardOriginModel, MessageForwardOrigin};
use crate::message::{Message, MessageModel};
use crate::sender::{Chat, MessageSender, User};

verus! {

/// Where the user interface takes a name from, and keeps it current.
#[derive(Debug)]
pub enum NameExpression {
    /// The display name of a user. `watched` is set where the expression
    /// follows the user object itself rather than a constant taken from it.
    UserDisplayName { user: User, watched: bool },
    /// The title of a chat.
    ChatTitle(Chat),
    /// A fixed text.
    Constant(String),
}

/// A name expression in mathematical form.
pub enum NameModel {
    UserDisplayName { user: User, watched: bool },
    ChatTitle(Chat),
    Constant(Seq<char>),
}

impl View for NameExpression {
    type V = NameModel;

    open spec fn view(&self) -> NameModel {
        match self {
            NameExpression::UserDisplayName { user, watched } => NameModel::UserDisplayName {
                user: *user,
                watched: *watched,
            },
            NameExpression::ChatTitle(chat) => NameModel::ChatTitle(*chat),
            NameExpression::Constant(text) => NameModel::Constant(text@),
        }
    }
}

/// The name of a message's sender: a user's display name, or a chat's
/// title.
pub open spec fn sender_name<S, I>(m: MessageModel<S, I>) -> NameModel {
    match m.sender {
        MessageSender::User(user) => NameModel::UserDisplayName { user, watched: false },
        MessageSender::Chat(chat) => NameModel::ChatTitle(chat),
    }
}

/// The name under which a forwarded message first appeared.
pub open spec fn origin_name(origin: ForwardOriginModel) -> NameModel {
    match origin {
        ForwardOriginModel::User(user) => NameModel::UserDisplayName { user, watched: true },
        ForwardOriginModel::Chat { chat, .. } => NameModel::ChatTitle(chat),
        ForwardOriginModel::Channel { chat, .. } => NameModel::ChatTitle(chat),
        ForwardOriginModel::HiddenUser { sender_name } => NameModel::Constant(sender_name),
        ForwardOriginModel::MessageImport { sender_name } => NameModel::Constant(sender_name),
    }
}

/// The name that a message row shows for the sender: in the user's chat
/// with themselves, the name of the forwarded message's origin; elsewhere
/// the sender's own name.
pub open spec fn sender_display_name<S, I>(m: MessageModel<S, I>) -> NameModel
    recommends
        m.chat_is_own_chat ==> m.forward_info.is_some(),
{
    if m.chat_is_own_chat {
        origin_name(m.forward_info.unwrap().origin)
    } else {
        sender_name(m)
    }
}

impl<S, I> Message<S, I> {
    /// The name of the message's sender.
    pub fn sender_name_expression(&self) -> (r: NameExpression)
        ensures
            r@ == sender_name(self@),
    {
        match self.sender() {
            MessageSender::User(user) => NameExpression::UserDisplayName {
                user: *user,
                watched: false,
            },
            MessageSender::Chat(chat) => NameExpression::ChatTitle(*chat),
        }
    }

    /// The name that a message row shows for the sender.
    ///
    /// In the user's chat with themselves a message that was not forwarded
    /// has no such name: there the lookup would not end, so it is left out.
    pub fn sender_display_name_expression(&self) -> (r: NameExpression)
        requires
            self@.chat_is_own_chat ==> self@.forward_info.is_some(),
        ensures
            r@ == sender_display_name(self@),
    {
        if self.chat_is_own_chat() {
            let info = self.forward_info().unwrap();
            match info.origin() {
                MessageForwardOrigin::User(user) => NameExpression::UserDisplayName {
                    user: *user,
                    watched: true,
                },
                MessageForwardOrigin::Chat { chat, .. } => NameExpression::ChatTitle(*chat),
                MessageForwardOrigin::Channel { chat, .. } => NameExpression::ChatTitle(*chat),
                MessageForwardOrigin::HiddenUser { sender_name } => NameExpression::Constant(
                    sender_name.clone(),
                ),
                MessageForwardOrigin::MessageImport { sender_name } => NameExpression::Constant(
                    sender_name.clone(),
                ),
            }
        } else {
            self.sender_name_expression()
        }
    }
}

} // verus!
