use vstd::prelude::*;
use crate::link_preview::{message_property_declaration, preview_after, LinkPreviewModel, MessageObject};
use crate::message::{
    message_from, next_message, update_effect, MessageData, MessageModel, UpdateEffect, UpdateModel,
};
use crate::name::{sender_display_name, sender_name, NameModel};
use crate::content::{ContentKindModel, ContentModel, WebPageModel};
use crate::forward::{ForwardInfoModel, ForwardOriginModel};
use crate::property::{all_properties, MessageProperty, ValueType};
use crate::sender::{Chat, MessageSender, SenderId, User};
use crate::value::{property_value, PropertyValueModel};

verus! {

/// An update other than new interaction information tells the user
/// interface of a change exactly where it changes the message.
pub proof fn lemma_notified_iff_changed<S, I>(m: MessageModel<S, I>, u: UpdateModel<I>)
    requires
        !(u is InteractionInfo),
    ensures
        !(update_effect(m, u) is Nothing) <==> next_message(m, u) != m,
{
}

/// Applying an update a second time changes nothing more, and tells the
/// user interface of no further change.
pub proof fn lemma_update_idempotent<S, I>(m: MessageModel<S, I>, u: UpdateModel<I>)
    ensures
        next_message(next_message(m, u), u) == next_message(m, u),
        !(update_effect(next_message(m, u), u) is Notify),
{
}

/// An update changes only the content, the edited mark and the interaction
/// information of a message.
pub proof fn lemma_update_keeps_identity<S, I>(m: MessageModel<S, I>, u: UpdateModel<I>)
    ensures
        ({
            let n = next_message(m, u);
            &&& n.id == m.id
            &&& n.sender == m.sender
            &&& n.is_outgoing == m.is_outgoing
            &&& n.is_pinned == m.is_pinned
            &&& n.can_be_edited == m.can_be_edited
            &&& n.can_be_deleted_only_for_self == m.can_be_deleted_only_for_self
            &&& n.can_be_deleted_for_all_users == m.can_be_deleted_for_all_users
            &&& n.sending_state == m.sending_state
            &&& n.date == m.date
            &&& n.chat == m.chat
            &&& n.chat_is_own_chat == m.chat_is_own_chat
            &&& n.forward_info == m.forward_info
            &&& n.reply_in_chat_id == m.reply_in_chat_id
            &&& n.reply_to_message_id == m.reply_to_message_id
        }),
{
}

/// After a content update the message holds the new content; after an
/// edit it is marked edited exactly where the edit date is after the epoch.
pub proof fn lemma_update_read_back<S, I>(m: MessageModel<S, I>, u: UpdateModel<I>)
    ensures
        u matches UpdateModel::Content(c) ==> next_message(m, u).content == c,
        u matches UpdateModel::Edited { edit_date } ==> next_message(m, u).is_edited == (edit_date
            > 0),
{
}

/// New interaction information replaces the one held, changes nothing
/// else, and is passed to its object.
pub proof fn lemma_interaction_info_read_back<S, I>(m: MessageModel<S, I>, info: I)
    ensures
        next_message(m, UpdateModel::InteractionInfo(info)) == (MessageModel {
            interaction_info: info,
            ..m
        }),
        update_effect(m, UpdateModel::InteractionInfo(info)) == UpdateEffect::InteractionInfoUpdated,
{
}

/// Outside the user's chat with themselves, a row names the sender by the
/// sender's own name.
pub proof fn lemma_display_name_elsewhere<S, I>(m: MessageModel<S, I>)
    requires
        !m.chat_is_own_chat,
    ensures
        sender_display_name(m) == sender_name(m),
{
}

/// Giving a link preview row the same message object twice leaves it as
/// giving it once did, and a row that took a new object keeps no binding.
pub proof fn lemma_preview_idempotent<B, S, I>(
    row: LinkPreviewModel<B>,
    object: MessageObject,
    m: MessageModel<S, I>,
)
    ensures
        preview_after(preview_after(row, object, m), object, m) == preview_after(row, object, m),
        preview_after(row, object, m) != row ==> preview_after(row, object, m).bindings.len() == 0,
{
}

/// A row shows the message object it was last given.
pub proof fn lemma_preview_read_back<B, S, I>(
    row: LinkPreviewModel<B>,
    object: MessageObject,
    m: MessageModel<S, I>,
)
    ensures
        preview_after(row, object, m).message == Some(object),
{
}

/// A changed content is announced as a change of the content property,
/// whatever else the message holds; an unchanged one is not announced.
pub proof fn lemma_content_change_notifies_content<S, I>(m: MessageModel<S, I>, c: ContentModel)
    ensures
        m.content != c ==> update_effect(m, UpdateModel::<I>::Content(c)) == UpdateEffect::Notify(
            MessageProperty::Content,
        ),
        m.content == c ==> update_effect(m, UpdateModel::<I>::Content(c)) == UpdateEffect::Nothing,
{
}

/// An edit is announced as a change of the edited mark exactly where the
/// mark flips, and never as any other property.
pub proof fn lemma_edit_notifies_is_edited<S, I>(m: MessageModel<S, I>, edit_date: i32)
    ensures
        m.is_edited != (edit_date > 0) ==> update_effect(m, UpdateModel::<I>::Edited { edit_date })
            == UpdateEffect::Notify(MessageProperty::IsEdited),
        m.is_edited == (edit_date > 0) ==> update_effect(m, UpdateModel::<I>::Edited { edit_date })
            == UpdateEffect::Nothing,
{
}

/// The property an update announces is exactly the one whose value differs
/// between the message before and after it; an update that announces
/// nothing leaves every property's value as it was.
pub proof fn lemma_notified_property_is_the_changed_one<S, I>(
    m: MessageModel<S, I>,
    u: UpdateModel<I>,
    p: MessageProperty,
)
    requires
        !(u is InteractionInfo),
    ensures
        (property_value(next_message(m, u), p) != property_value(m, p)) <==> update_effect(m, u)
            == UpdateEffect::Notify(p),
{
}

/// What an update announces depends only on the message's content and
/// edited mark, not on any other part of the message.
pub proof fn lemma_effect_depends_on_content_and_mark<S, I>(
    m1: MessageModel<S, I>,
    m2: MessageModel<S, I>,
    u: UpdateModel<I>,
)
    requires
        m1.content == m2.content,
        m1.is_edited == m2.is_edited,
    ensures
        update_effect(m1, u) == update_effect(m2, u),
{
}

/// Each property reads the part of the message that bears its name.
pub proof fn lemma_property_reads_its_field<S, I>(m: MessageModel<S, I>)
    ensures
        property_value(m, MessageProperty::Id) == PropertyValueModel::<S, I>::Int64(m.id),
        property_value(m, MessageProperty::Sender) == PropertyValueModel::<S, I>::Sender(m.sender),
        property_value(m, MessageProperty::IsOutgoing) == PropertyValueModel::<S, I>::Boolean(
            m.is_outgoing,
        ),
        property_value(m, MessageProperty::IsPinned) == PropertyValueModel::<S, I>::Boolean(
            m.is_pinned,
        ),
        property_value(m, MessageProperty::CanBeEdited) == PropertyValueModel::<S, I>::Boolean(
            m.can_be_edited,
        ),
        property_value(m, MessageProperty::CanBeDeletedOnlyForSelf)
            == PropertyValueModel::<S, I>::Boolean(m.can_be_deleted_only_for_self),
        property_value(m, MessageProperty::CanBeDeletedForAllUsers)
            == PropertyValueModel::<S, I>::Boolean(m.can_be_deleted_for_all_users),
        property_value(m, MessageProperty::SendingState) == PropertyValueModel::<
            S,
            I,
        >::SendingState(m.sending_state),
        property_value(m, MessageProperty::Date) == PropertyValueModel::<S, I>::Int(m.date),
        property_value(m, MessageProperty::Content) == PropertyValueModel::<S, I>::Content(
            m.content,
        ),
        property_value(m, MessageProperty::IsEdited) == PropertyValueModel::<S, I>::Boolean(
            m.is_edited,
        ),
        property_value(m, MessageProperty::InteractionInfo) == PropertyValueModel::<
            S,
            I,
        >::InteractionInfo(m.interaction_info),
        property_value(m, MessageProperty::Chat) == PropertyValueModel::<S, I>::Chat(m.chat),
        property_value(m, MessageProperty::ForwardInfo) == PropertyValueModel::<S, I>::ForwardInfo(
            m.forward_info,
        ),
        property_value(m, MessageProperty::ReplyInChatId) == PropertyValueModel::<S, I>::Int64(
            m.reply_in_chat_id,
        ),
        property_value(m, MessageProperty::ReplyToMessageId) == PropertyValueModel::<S, I>::Int64(
            m.reply_to_message_id,
        ),
{
}

/// The two deletion rights are read apart: changing one of them changes
/// the value of its own property and not of the other.
pub proof fn lemma_deletion_rights_read_apart<S, I>(m: MessageModel<S, I>, b: bool)
    ensures
        property_value(MessageModel { can_be_deleted_for_all_users: b, ..m }, MessageProperty::CanBeDeletedOnlyForSelf)
            == property_value(m, MessageProperty::CanBeDeletedOnlyForSelf),
        property_value(MessageModel { can_be_deleted_only_for_self: b, ..m }, MessageProperty::CanBeDeletedForAllUsers)
            == property_value(m, MessageProperty::CanBeDeletedForAllUsers),
        property_value(MessageModel { can_be_deleted_for_all_users: b, ..m }, MessageProperty::CanBeDeletedForAllUsers)
            == PropertyValueModel::<S, I>::Boolean(b),
{
}

/// A row given a new message object whose message is a text with a web
/// page shows that page, whatever it showed before; a message without such
/// a page leaves the labels as they were.
pub proof fn lemma_new_page_is_shown<B, S, I>(
    row: LinkPreviewModel<B>,
    object: MessageObject,
    m: MessageModel<S, I>,
)
    requires
        row.message != Some(object),
    ensures
        forall|page: WebPageModel|
            m.content.kind == (ContentKindModel::Text { web_page: Some(page) }) ==> preview_after(
                row,
                object,
                m,
            ).labels == Some(page),
        m.content.kind == ContentKindModel::Other ==> preview_after(row, object, m).labels
            == row.labels,
        m.content.kind == (ContentKindModel::Text { web_page: None }) ==> preview_after(
            row,
            object,
            m,
        ).labels == row.labels,
{
}

/// A sender is named by itself: a user by its display name, a chat by its
/// title, whatever its identifier and whatever chat the message is in.
pub proof fn lemma_sender_named_by_itself<S, I>(m: MessageModel<S, I>)
    ensures
        forall|c: Chat|
            m.sender == MessageSender::Chat(c) ==> sender_name(m) == NameModel::ChatTitle(c),
        forall|u: User|
            m.sender == MessageSender::User(u) ==> sender_name(m) == (NameModel::UserDisplayName {
                user: u,
                watched: false,
            }),
{
}

/// The sender's name does not depend on the chat the message is in, nor on
/// anything else of the message but its sender.
pub proof fn lemma_sender_name_depends_on_sender<S, I>(m1: MessageModel<S, I>, m2: MessageModel<S, I>)
    requires
        m1.sender == m2.sender,
    ensures
        sender_name(m1) == sender_name(m2),
{
}

/// In the user's chat with themselves a forwarded message is named after
/// its origin: a chat or a channel by that chat's title, a user by the
/// user's display name (followed on the user object), a hidden user or an
/// import by the sender name it carries; whatever the identifiers and
/// signatures.
pub proof fn lemma_own_chat_named_by_origin<S, I>(m: MessageModel<S, I>, info: ForwardInfoModel)
    requires
        m.chat_is_own_chat,
        m.forward_info == Some(info),
    ensures
        forall|chat: Chat, sig: Seq<char>|
            info.origin == (ForwardOriginModel::Chat { chat, author_signature: sig })
                ==> sender_display_name(m) == NameModel::ChatTitle(chat),
        forall|chat: Chat, id: i64, sig: Seq<char>|
            info.origin == (ForwardOriginModel::Channel {
                chat,
                message_id: id,
                author_signature: sig,
            }) ==> sender_display_name(m) == NameModel::ChatTitle(chat),
        forall|user: User|
            info.origin == ForwardOriginModel::User(user) ==> sender_display_name(m) == (
            NameModel::UserDisplayName { user, watched: true }),
        forall|name: Seq<char>|
            info.origin == (ForwardOriginModel::HiddenUser { sender_name: name })
                ==> sender_display_name(m) == NameModel::Constant(name),
        forall|name: Seq<char>|
            info.origin == (ForwardOriginModel::MessageImport { sender_name: name })
                ==> sender_display_name(m) == NameModel::Constant(name),
{
}

/// A new message keeps what TDLib sent: every flag, date, identifier,
/// content, forward and interaction information of the TDLib message, in
/// the chat it was given; its sender is the user or chat that TDLib names;
/// it counts as edited exactly where it has an edit date after the epoch.
pub proof fn lemma_new_message_keeps_what_tdlib_sent<S, I>(
    d: MessageData<S, I>,
    chat: Chat,
    own: bool,
)
    ensures
        ({
            let m = message_from(d, chat, own);
            &&& m.id == d.id
            &&& m.is_outgoing == d.is_outgoing
            &&& m.is_pinned == d.is_pinned
            &&& m.can_be_edited == d.can_be_edited
            &&& m.can_be_deleted_only_for_self == d.can_be_deleted_only_for_self
            &&& m.can_be_deleted_for_all_users == d.can_be_deleted_for_all_users
            &&& m.sending_state == d.sending_state
            &&& m.date == d.date
            &&& m.content == d.content@
            &&& m.is_edited == (d.edit_date > 0)
            &&& m.chat == chat
            &&& m.chat_is_own_chat == own
            &&& m.reply_in_chat_id == d.reply_in_chat_id
            &&& m.reply_to_message_id == d.reply_to_message_id
            &&& m.interaction_info == d.interaction_info
            &&& (d.forward_info is None <==> m.forward_info is None)
            &&& forall|info: crate::forward::MessageForwardInfo|
                d.forward_info == Some(info) ==> m.forward_info == Some(info@)
            &&& forall|id: i64|
                d.sender_id == (SenderId::User { user_id: id }) ==> m.sender == MessageSender::User(
                    User { id },
                )
            &&& forall|id: i64|
                d.sender_id == (SenderId::Chat { chat_id: id }) ==> m.sender == MessageSender::Chat(
                    Chat { id },
                )
        }),
{
}

/// The names under which the object system knows the properties.
pub proof fn lemma_property_names()
    ensures
        MessageProperty::Id.spec_name() == "id"@,
        MessageProperty::Sender.spec_name() == "sender"@,
        MessageProperty::IsOutgoing.spec_name() == "is-outgoing"@,
        MessageProperty::IsPinned.spec_name() == "is-pinned"@,
        MessageProperty::CanBeEdited.spec_name() == "can-be-edited"@,
        MessageProperty::CanBeDeletedOnlyForSelf.spec_name() == "can-be-deleted-only-for-self"@,
        MessageProperty::CanBeDeletedForAllUsers.spec_name() == "can-be-deleted-for-all-users"@,
        MessageProperty::SendingState.spec_name() == "sending-state"@,
        MessageProperty::Date.spec_name() == "date"@,
        MessageProperty::Content.spec_name() == "content"@,
        MessageProperty::IsEdited.spec_name() == "is-edited"@,
        MessageProperty::InteractionInfo.spec_name() == "interaction-info"@,
        MessageProperty::Chat.spec_name() == "chat"@,
        MessageProperty::ForwardInfo.spec_name() == "forward-info"@,
        MessageProperty::ReplyInChatId.spec_name() == "reply-in-chat-id"@,
        MessageProperty::ReplyToMessageId.spec_name() == "reply-to-message-id"@,
{
}

/// The order in which the object system lists the properties.
pub proof fn lemma_property_order()
    ensures
        all_properties().len() == 16,
        all_properties()[0] == MessageProperty::Id,
        all_properties()[1] == MessageProperty::Sender,
        all_properties()[2] == MessageProperty::IsOutgoing,
        all_properties()[3] == MessageProperty::IsPinned,
        all_properties()[4] == MessageProperty::CanBeEdited,
        all_properties()[5] == MessageProperty::CanBeDeletedOnlyForSelf,
        all_properties()[6] == MessageProperty::CanBeDeletedForAllUsers,
        all_properties()[7] == MessageProperty::SendingState,
        all_properties()[8] == MessageProperty::Date,
        all_properties()[9] == MessageProperty::Content,
        all_properties()[10] == MessageProperty::IsEdited,
        all_properties()[11] == MessageProperty::InteractionInfo,
        all_properties()[12] == MessageProperty::Chat,
        all_properties()[13] == MessageProperty::ForwardInfo,
        all_properties()[14] == MessageProperty::ReplyInChatId,
        all_properties()[15] == MessageProperty::ReplyToMessageId,
{
}

/// A sender's identifier is the identifier of the user or chat it is.
pub proof fn lemma_sender_id(u: User, c: Chat)
    ensures
        MessageSender::User(u).spec_id() == u.id,
        MessageSender::Chat(c).spec_id() == c.id,
{
}

/// A link preview row offers its message under the name "message", to be
/// read and written, announced only where the row says so.
pub proof fn lemma_row_property_declaration()
    ensures
        message_property_declaration().name == "message"@,
        message_property_declaration().value_type == ValueType::Message,
        message_property_declaration().flags.readable,
        message_property_declaration().flags.writable,
        message_property_declaration().flags.explicit_notify,
{
}

} // verus!
