use vstd::prelude::*;

verus! {

/// A Telegram user, known to the session by its identifier.
#[derive(Clone, Copy, Debug, PartialEq, Eq, Structural)]
pub struct User {
    pub id: i64,
}

/// A Telegram chat, known to the session by its identifier.
#[derive(Clone, Copy, Debug, PartialEq, Eq, Structural)]
pub struct Chat {
    pub id: i64,
}

/// The sender of a message as TDLib names it: a user or a chat identifier.
#[derive(Clone, Copy, Debug, PartialEq, Eq, Structural)]
pub enum SenderId {
    User { user_id: i64 },
    Chat { chat_id: i64 },
}

/// The sender of a message: a user, or a chat that posts in its own name.
#[derive(Clone, Copy, Debug, PartialEq, Eq, Structural)]
pub enum MessageSender {
    User(User),
    Chat(Chat),
}

impl MessageSender {
    /// The identifier of the user or of the chat.
    pub open spec fn spec_id(self) -> i64 {
        match self {
            MessageSender::User(user) => user.id,
            MessageSender::Chat(chat) => chat.id,
        }
    }

    /// Resolves a TDLib sender: a user sender becomes the user with that
    /// identifier, a chat sender the chat with that identifier.
    pub fn from_td_object(sender: &SenderId) -> (r: MessageSender)
        ensures
            match *sender {
                SenderId::User { user_id } => r == MessageSender::User(User { id: user_id }),
                SenderId::Chat { chat_id } => r == MessageSender::Chat(Chat { id: chat_id }),
            },
    {
        match *sender {
            SenderId::User { user_id } => MessageSender::User(User { id: user_id }),
            SenderId::Chat { chat_id } => MessageSender::Chat(Chat { id: chat_id }),
        }
    }

    /// The user, where the sender is a user.
    pub fn as_user(&self) -> (r: Option<&User>)
        ensures
            match *self {
                MessageSender::User(user) => r == Some(&user),
                MessageSender::Chat(_) => r.is_none(),
            },
    {
        match self {
            MessageSender::User(user) => Some(user),
            _ => None,
        }
    }

    /// The identifier of the user or of the chat that sent the message.
    pub fn id(&self) -> (r: i64)
        ensures
            r == self.spec_id(),
    {
        match self {
            MessageSender::User(user) => user.id,
            MessageSender::Chat(chat) => chat.id,
        }
    }
}

} // verus!
