use vstd::prelude::*;
use crate::content::{ContentModel, MessageContent};
use crate::forward::{ForwardInfoModel, MessageForwardInfo};
use crate::message::{Message, MessageModel};
use crate::property::{MessageProperty, ValueType};
use crate::sender::{Chat, MessageSender};

verus! {

/// The value of a message property.
pub enum PropertyValue<'a, S, I> {
    Int64(i64),
    Int(i32),
    Boolean(bool),
    Sender(MessageSender),
    SendingState(Option<&'a S>),
    Content(MessageContent),
    InteractionInfo(&'a I),
    Chat(Chat),
    ForwardInfo(Option<&'a MessageForwardInfo>),
}

/// A property value in mathematical form.
pub enum PropertyValueModel<S, I> {
    Int64(i64),
    Int(i32),
    Boolean(bool),
    Sender(MessageSender),
    SendingState(Option<S>),
    Content(ContentModel),
    InteractionInfo(I),
    Chat(Chat),
    ForwardInfo(Option<ForwardInfoModel>),
}

impl<'a, S, I> View for PropertyValue<'a, S, I> {
    type V = PropertyValueModel<S, I>;

    open spec fn view(&self) -> PropertyValueModel<S, I> {
        match self {
            PropertyValue::Int64(v) => PropertyValueModel::Int64(*v),
            PropertyValue::Int(v) => PropertyValueModel::Int(*v),
            PropertyValue::Boolean(v) => PropertyValueModel::Boolean(*v),
            PropertyValue::Sender(v) => PropertyValueModel::Sender(*v),
            PropertyValue::SendingState(v) => PropertyValueModel::SendingState(
                match v {
                    Some(state) => Some(**state),
                    None => None,
                },
            ),
            PropertyValue::Content(v) => PropertyValueModel::Content(v@),
            PropertyValue::InteractionInfo(v) => PropertyValueModel::InteractionInfo(**v),
            PropertyValue::Chat(v) => PropertyValueModel::Chat(*v),
            PropertyValue::ForwardInfo(v) => PropertyValueModel::ForwardInfo(
                match v {
                    Some(info) => Some(info@),
                    None => None,
                },
            ),
        }
    }
}

impl<S, I> PropertyValueModel<S, I> {
    /// The type of the value.
    pub open spec fn value_type(self) -> ValueType {
        match self {
            PropertyValueModel::Int64(_) => ValueType::Int64,
            PropertyValueModel::Int(_) => ValueType::Int,
            PropertyValueModel::Boolean(_) => ValueType::Boolean,
            PropertyValueModel::Sender(_) => ValueType::MessageSender,
            PropertyValueModel::SendingState(_) => ValueType::MessageSendingState,
            PropertyValueModel::Content(_) => ValueType::MessageContent,
            PropertyValueModel::InteractionInfo(_) => ValueType::MessageInteractionInfo,
            PropertyValueModel::Chat(_) => ValueType::Chat,
            PropertyValueModel::ForwardInfo(_) => ValueType::MessageForwardInfo,
        }
    }
}

/// The value of the property `p` of the message `m`: the value its getter
/// gives.
pub open spec fn property_value<S, I>(m: MessageModel<S, I>, p: MessageProperty) -> PropertyValueModel<
    S,
    I,
> {
    match p {
        MessageProperty::Id => PropertyValueModel::Int64(m.id),
        MessageProperty::Sender => PropertyValueModel::Sender(m.sender),
        MessageProperty::IsOutgoing => PropertyValueModel::Boolean(m.is_outgoing),
        MessageProperty::IsPinned => PropertyValueModel::Boolean(m.is_pinned),
        MessageProperty::CanBeEdited => PropertyValueModel::Boolean(m.can_be_edited),
        MessageProperty::CanBeDeletedOnlyForSelf => PropertyValueModel::Boolean(
            m.can_be_deleted_only_for_self,
        ),
        MessageProperty::CanBeDeletedForAllUsers => PropertyValueModel::Boolean(
            m.can_be_deleted_for_all_users,
        ),
        MessageProperty::SendingState => PropertyValueModel::SendingState(m.sending_state),
        MessageProperty::Date => PropertyValueModel::Int(m.date),
        MessageProperty::Content => PropertyValueModel::Content(m.content),
        MessageProperty::IsEdited => PropertyValueModel::Boolean(m.is_edited),
        MessageProperty::InteractionInfo => PropertyValueModel::InteractionInfo(m.interaction_info),
        MessageProperty::Chat => PropertyValueModel::Chat(m.chat),
        MessageProperty::ForwardInfo => PropertyValueModel::ForwardInfo(m.forward_info),
        MessageProperty::ReplyInChatId => PropertyValueModel::Int64(m.reply_in_chat_id),
        MessageProperty::ReplyToMessageId => PropertyValueModel::Int64(m.reply_to_message_id),
    }
}

/// Every property's value has the type that the property declares.
pub proof fn lemma_value_has_declared_type<S, I>(m: MessageModel<S, I>, p: MessageProperty)
    ensures
        property_value(m, p).value_type() == p.spec_value_type(),
{
}

impl<S, I> Message<S, I> {
    /// The value of the property `p`.
    pub fn property(&self, p: MessageProperty) -> (r: PropertyValue<'_, S, I>)
        ensures
            r@ == property_value(self@, p),
    {
        match p {
            MessageProperty::Id => PropertyValue::Int64(self.id()),
            MessageProperty::Sender => PropertyValue::Sender(*self.sender()),
            MessageProperty::IsOutgoing => PropertyValue::Boolean(self.is_outgoing()),
            MessageProperty::IsPinned => PropertyValue::Boolean(self.is_pinned()),
            MessageProperty::CanBeEdited => PropertyValue::Boolean(self.can_be_edited()),
            MessageProperty::CanBeDeletedOnlyForSelf => PropertyValue::Boolean(
                self.can_be_deleted_only_for_self(),
            ),
            MessageProperty::CanBeDeletedForAllUsers => PropertyValue::Boolean(
                self.can_be_deleted_for_all_users(),
            ),
            MessageProperty::SendingState => PropertyValue::SendingState(self.sending_state()),
            MessageProperty::Date => PropertyValue::Int(self.date()),
            MessageProperty::Content => PropertyValue::Content(self.content()),
            MessageProperty::IsEdited => PropertyValue::Boolean(self.is_edited()),
            MessageProperty::InteractionInfo => PropertyValue::InteractionInfo(
                self.interaction_info(),
            ),
            MessageProperty::Chat => PropertyValue::Chat(self.chat()),
            MessageProperty::ForwardInfo => PropertyValue::ForwardInfo(self.forward_info()),
            MessageProperty::ReplyInChatId => PropertyValue::Int64(self.reply_in_chat_id()),
            MessageProperty::ReplyToMessageId => PropertyValue::Int64(self.reply_to_message_id()),
        }
    }
}

} // verus!
