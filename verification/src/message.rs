use vstd::prelude::*;
use crate::content::{ContentModel, MessageContent};
use crate::forward::{forward_info_model, ForwardInfoModel, MessageForwardInfo};
use crate::property::MessageProperty;
use crate::sender::{Chat, MessageSender, SenderId};

verus! {

/// A message as TDLib delivers it, in the parts that the client keeps.
///
/// `S` is the sending state and `I` the interaction information (views,
/// forwards, replies); the client keeps both and hands them back without
/// reading them.
pub struct MessageData<S, I> {
    pub id: i64,
    pub sender_id: SenderId,
    pub is_outgoing: bool,
    pub is_pinned: bool,
    pub can_be_edited: bool,
    pub can_be_deleted_only_for_self: bool,
    pub can_be_deleted_for_all_users: bool,
    pub sending_state: Option<S>,
    /// When the message was sent, in seconds since the Unix epoch.
    pub date: i32,
    /// When the message was last edited, in seconds since the Unix epoch,
    /// or 0 where it never was.
    pub edit_date: i32,
    pub content: MessageContent,
    pub forward_info: Option<MessageForwardInfo>,
    pub reply_in_chat_id: i64,
    pub reply_to_message_id: i64,
    pub interaction_info: I,
}

/// A message of a chat.
pub struct Message<S, I> {
    id: i64,
    sender: MessageSender,
    is_outgoing: bool,
    is_pinned: bool,
    can_be_edited: bool,
    can_be_deleted_only_for_self: bool,
    can_be_deleted_for_all_users: bool,
    sending_state: Option<S>,
    date: i32,
    content: MessageContent,
    is_edited: bool,
    chat: Chat,
    chat_is_own_chat: bool,
    forward_info: Option<MessageForwardInfo>,
    reply_in_chat_id: i64,
    reply_to_message_id: i64,
    interaction_info: I,
}

/// A message in mathematical form.
pub struct MessageModel<S, I> {
    pub id: i64,
    pub sender: MessageSender,
    pub is_outgoing: bool,
    pub is_pinned: bool,
    pub can_be_edited: bool,
    pub can_be_deleted_only_for_self: bool,
    pub can_be_deleted_for_all_users: bool,
    pub sending_state: Option<S>,
    pub date: i32,
    pub content: ContentModel,
    pub is_edited: bool,
    pub chat: Chat,
    /// Whether the message's chat is the user's chat with themselves.
    pub chat_is_own_chat: bool,
    pub forward_info: Option<ForwardInfoModel>,
    pub reply_in_chat_id: i64,
    pub reply_to_message_id: i64,
    pub interaction_info: I,
}

impl<S, I> View for Message<S, I> {
    type V = MessageModel<S, I>;

    closed spec fn view(&self) -> MessageModel<S, I> {
        MessageModel {
            id: self.id,
            sender: self.sender,
            is_outgoing: self.is_outgoing,
            is_pinned: self.is_pinned,
            can_be_edited: self.can_be_edited,
            can_be_deleted_only_for_self: self.can_be_deleted_only_for_self,
            can_be_deleted_for_all_users: self.can_be_deleted_for_all_users,
            sending_state: self.sending_state,
            date: self.date,
            content: self.content@,
            is_edited: self.is_edited,
            chat: self.chat,
            chat_is_own_chat: self.chat_is_own_chat,
            forward_info: forward_info_model(self.forward_info),
            reply_in_chat_id: self.reply_in_chat_id,
            reply_to_message_id: self.reply_to_message_id,
            interaction_info: self.interaction_info,
        }
    }
}

/// An update that TDLib sends about a message; `I` is the interaction
/// information.
pub enum MessageUpdate<I> {
    /// The content of the message changed.
    Content(MessageContent),
    /// The message was edited; `edit_date` is the time of the edit.
    Edited { edit_date: i32 },
    /// The interaction information of the message changed.
    InteractionInfo(I),
    /// Any other update, which a message ignores.
    Other,
}

/// An update in mathematical form.
pub enum UpdateModel<I> {
    Content(ContentModel),
    Edited { edit_date: i32 },
    InteractionInfo(I),
    Other,
}

impl<I> View for MessageUpdate<I> {
    type V = UpdateModel<I>;

    open spec fn view(&self) -> UpdateModel<I> {
        match self {
            MessageUpdate::Content(content) => UpdateModel::Content(content@),
            MessageUpdate::Edited { edit_date } => UpdateModel::Edited { edit_date: *edit_date },
            MessageUpdate::InteractionInfo(info) => UpdateModel::InteractionInfo(*info),
            MessageUpdate::Other => UpdateModel::Other,
        }
    }
}

/// What the user interface is told after an update.
#[derive(Clone, Copy, Debug, PartialEq, Eq, Structural)]
pub enum UpdateEffect {
    /// Nothing changed.
    Nothing,
    /// The value of the property changed.
    Notify(MessageProperty),
    /// The interaction information took new values, which its object is to
    /// show.
    InteractionInfoUpdated,
}

/// The message after an update.
pub open spec fn next_message<S, I>(m: MessageModel<S, I>, u: UpdateModel<I>) -> MessageModel<S, I> {
    match u {
        UpdateModel::Content(content) => MessageModel { content, ..m },
        UpdateModel::Edited { edit_date } => MessageModel { is_edited: edit_date > 0, ..m },
        UpdateModel::InteractionInfo(interaction_info) => MessageModel { interaction_info, ..m },
        UpdateModel::Other => m,
    }
}

/// What an update tells the user interface: a change of content or of the
/// edited mark is notified, and only where the value differs from the one
/// held; new interaction information is passed to its object.
pub open spec fn update_effect<S, I>(m: MessageModel<S, I>, u: UpdateModel<I>) -> UpdateEffect {
    match u {
        UpdateModel::Content(content) => if m.content == content {
            UpdateEffect::Nothing
        } else {
            UpdateEffect::Notify(MessageProperty::Content)
        },
        UpdateModel::Edited { edit_date } => if m.is_edited == (edit_date > 0) {
            UpdateEffect::Nothing
        } else {
            UpdateEffect::Notify(MessageProperty::IsEdited)
        },
        UpdateModel::InteractionInfo(_) => UpdateEffect::InteractionInfoUpdated,
        UpdateModel::Other => UpdateEffect::Nothing,
    }
}

/// The message that TDLib describes with `td_message`, in `chat`.
pub open spec fn message_from<S, I>(td_message: MessageData<S, I>, chat: Chat, chat_is_own_chat: bool) -> MessageModel<S, I> {
    MessageModel {
        id: td_message.id,
        sender: match td_message.sender_id {
            SenderId::User { user_id } => MessageSender::User(
                crate::sender::User { id: user_id },
            ),
            SenderId::Chat { chat_id } => MessageSender::Chat(Chat { id: chat_id }),
        },
        is_outgoing: td_message.is_outgoing,
        is_pinned: td_message.is_pinned,
        can_be_edited: td_message.can_be_edited,
        can_be_deleted_only_for_self: td_message.can_be_deleted_only_for_self,
        can_be_deleted_for_all_users: td_message.can_be_deleted_for_all_users,
        sending_state: td_message.sending_state,
        date: td_message.date,
        content: td_message.content@,
        is_edited: td_message.edit_date > 0,
        chat,
        chat_is_own_chat,
        forward_info: forward_info_model(td_message.forward_info),
        reply_in_chat_id: td_message.reply_in_chat_id,
        reply_to_message_id: td_message.reply_to_message_id,
        interaction_info: td_message.interaction_info,
    }
}

/// A request about a message that the client sends to TDLib.
#[derive(Debug)]
pub enum MessageRequest {
    PinChatMessage {
        chat_id: i64,
        message_id: i64,
        disable_notification: bool,
        only_for_self: bool,
    },
    UnpinChatMessage { chat_id: i64, message_id: i64 },
    DeleteMessages { chat_id: i64, message_ids: Vec<i64>, revoke: bool },
}

impl<S, I> Message<S, I> {
    /// The message that TDLib describes with `td_message`, in `chat`;
    /// `chat_is_own_chat` says whether that chat is the user's chat with
    /// themselves. The message counts as edited where it has an edit date
    /// after the epoch.
    pub fn new(td_message: MessageData<S, I>, chat: &Chat, chat_is_own_chat: bool) -> (r: Message<S, I>)
        ensures
            r@ == message_from(td_message, *chat, chat_is_own_chat),
    {
        let sender = MessageSender::from_td_object(&td_message.sender_id);
        let is_edited = td_message.edit_date > 0;
        Message {
            id: td_message.id,
            sender,
            is_outgoing: td_message.is_outgoing,
            is_pinned: td_message.is_pinned,
            can_be_edited: td_message.can_be_edited,
            can_be_deleted_only_for_self: td_message.can_be_deleted_only_for_self,
            can_be_deleted_for_all_users: td_message.can_be_deleted_for_all_users,
            sending_state: td_message.sending_state,
            date: td_message.date,
            content: td_message.content,
            is_edited,
            chat: *chat,
            chat_is_own_chat,
            forward_info: td_message.forward_info,
            reply_in_chat_id: td_message.reply_in_chat_id,
            reply_to_message_id: td_message.reply_to_message_id,
            interaction_info: td_message.interaction_info,
        }
    }

    /// Applies an update from TDLib and says what the user interface is to
    /// be told of it.
    pub fn handle_update(&mut self, update: MessageUpdate<I>) -> (effect: UpdateEffect)
        ensures
            final(self)@ == next_message(old(self)@, update@),
            effect == update_effect(old(self)@, update@),
    {
        match update {
            MessageUpdate::Content(new_content) => {
                if self.set_content(new_content) {
                    UpdateEffect::Notify(MessageProperty::Content)
                } else {
                    UpdateEffect::Nothing
                }
            },
            MessageUpdate::Edited { edit_date } => {
                if self.set_is_edited(edit_date > 0) {
                    UpdateEffect::Notify(MessageProperty::IsEdited)
                } else {
                    UpdateEffect::Nothing
                }
            },
            MessageUpdate::InteractionInfo(info) => {
                self.interaction_info = info;
                UpdateEffect::InteractionInfoUpdated
            },
            MessageUpdate::Other => UpdateEffect::Nothing,
        }
    }

    /// Replaces the content where it differs; says whether it did.
    fn set_content(&mut self, content: MessageContent) -> (changed: bool)
        ensures
            final(self)@ == (MessageModel { content: content@, ..old(self)@ }),
            changed == (old(self)@.content != content@),
    {
        if self.content.same_as(&content) {
            return false;
        }
        self.content = content;
        true
    }

    /// Sets the edited mark where it differs; says whether it did.
    fn set_is_edited(&mut self, is_edited: bool) -> (changed: bool)
        ensures
            final(self)@ == (MessageModel { is_edited, ..old(self)@ }),
            changed == (old(self)@.is_edited != is_edited),
    {
        if self.is_edited() == is_edited {
            return false;
        }
        self.is_edited = is_edited;
        true
    }

    pub fn id(&self) -> (r: i64)
        ensures
            r == self@.id,
    {
        self.id
    }

    pub fn sender(&self) -> (r: &MessageSender)
        ensures
            *r == self@.sender,
    {
        &self.sender
    }

    pub fn is_outgoing(&self) -> (r: bool)
        ensures
            r == self@.is_outgoing,
    {
        self.is_outgoing
    }

    pub fn is_pinned(&self) -> (r: bool)
        ensures
            r == self@.is_pinned,
    {
        self.is_pinned
    }

    pub fn can_be_edited(&self) -> (r: bool)
        ensures
            r == self@.can_be_edited,
    {
        self.can_be_edited
    }

    pub fn can_be_deleted_only_for_self(&self) -> (r: bool)
        ensures
            r == self@.can_be_deleted_only_for_self,
    {
        self.can_be_deleted_only_for_self
    }

    pub fn can_be_deleted_for_all_users(&self) -> (r: bool)
        ensures
            r == self@.can_be_deleted_for_all_users,
    {
        self.can_be_deleted_for_all_users
    }

    pub fn sending_state(&self) -> (r: Option<&S>)
        ensures
            match self@.sending_state {
                Some(state) => r == Some(&state),
                None => r.is_none(),
            },
    {
        self.sending_state.as_ref()
    }

    pub fn date(&self) -> (r: i32)
        ensures
            r == self@.date,
    {
        self.date
    }

    pub fn content(&self) -> (r: MessageContent)
        ensures
            r@ == self@.content,
    {
        self.content.clone()
    }

    pub fn is_edited(&self) -> (r: bool)
        ensures
            r == self@.is_edited,
    {
        self.is_edited
    }

    pub fn chat(&self) -> (r: Chat)
        ensures
            r == self@.chat,
    {
        self.chat
    }

    /// Whether the message's chat is the user's chat with themselves.
    pub fn chat_is_own_chat(&self) -> (r: bool)
        ensures
            r == self@.chat_is_own_chat,
    {
        self.chat_is_own_chat
    }

    pub fn forward_info(&self) -> (r: Option<&MessageForwardInfo>)
        ensures
            match r {
                Some(info) => self@.forward_info == Some(info@),
                None => self@.forward_info.is_none(),
            },
    {
        self.forward_info.as_ref()
    }

    pub fn reply_in_chat_id(&self) -> (r: i64)
        ensures
            r == self@.reply_in_chat_id,
    {
        self.reply_in_chat_id
    }

    pub fn reply_to_message_id(&self) -> (r: i64)
        ensures
            r == self@.reply_to_message_id,
    {
        self.reply_to_message_id
    }

    /// The interaction information of the message (views, forwards,
    /// replies).
    pub fn interaction_info(&self) -> (r: &I)
        ensures
            *r == self@.interaction_info,
    {
        &self.interaction_info
    }

    /// The request that pins this message in its chat.
    pub fn pin(&self, disable_notification: bool, only_for_self: bool) -> (r: MessageRequest)
        ensures
            r == (MessageRequest::PinChatMessage {
                chat_id: self@.chat.id,
                message_id: self@.id,
                disable_notification,
                only_for_self,
            }),
    {
        MessageRequest::PinChatMessage {
            chat_id: self.chat().id,
            message_id: self.id(),
            disable_notification,
            only_for_self,
        }
    }

    /// The request that unpins this message in its chat.
    pub fn unpin(&self) -> (r: MessageRequest)
        ensures
            r == (MessageRequest::UnpinChatMessage { chat_id: self@.chat.id, message_id: self@.id }),
    {
        MessageRequest::UnpinChatMessage { chat_id: self.chat().id, message_id: self.id() }
    }

    /// The request that deletes this message, for everyone where `revoke`
    /// is set.
    pub fn delete(&self, revoke: bool) -> (r: MessageRequest)
        ensures
            match r {
                MessageRequest::DeleteMessages { chat_id, message_ids, revoke: rev } => chat_id
                    == self@.chat.id && message_ids@ == seq![self@.id] && rev == revoke,
                _ => false,
            },
    {
        MessageRequest::DeleteMessages { chat_id: self.chat().id, message_ids: vec![self.id()], revoke }
    }
}

} // verus!
