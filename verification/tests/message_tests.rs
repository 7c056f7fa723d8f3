use paper_plane_message::value::PropertyValue;
use paper_plane_message::content::{ContentKind, MessageContent, WebPage};
use paper_plane_message::forward::{MessageForwardInfo, MessageForwardOrigin};
use paper_plane_message::message::{Message, MessageData, MessageRequest, MessageUpdate, UpdateEffect};
use paper_plane_message::property::MessageProperty;
use paper_plane_message::sender::{Chat, MessageSender, SenderId, User};

fn text(form: &str) -> MessageContent {
    MessageContent { form: form.to_string(), kind: ContentKind::Text { web_page: None } }
}

fn data(edit_date: i32, sender_id: SenderId) -> MessageData<u32, u64> {
    MessageData {
        id: 42,
        sender_id,
        is_outgoing: true,
        is_pinned: false,
        can_be_edited: true,
        can_be_deleted_only_for_self: true,
        can_be_deleted_for_all_users: false,
        sending_state: Some(9),
        date: 1_700_000_000,
        edit_date,
        content: text("messageText hello"),
        forward_info: None,
        reply_in_chat_id: 5,
        reply_to_message_id: 6,
        interaction_info: 1000,
    }
}

fn message(edit_date: i32) -> Message<u32, u64> {
    Message::new(data(edit_date, SenderId::User { user_id: 3 }), &Chat { id: 11 }, false)
}

#[test]
fn new_copies_the_fields() {
    let m = message(0);
    assert_eq!(m.id(), 42);
    assert_eq!(*m.sender(), MessageSender::User(User { id: 3 }));
    assert!(m.is_outgoing());
    assert!(!m.is_pinned());
    assert!(m.can_be_edited());
    assert!(m.can_be_deleted_only_for_self());
    assert!(!m.can_be_deleted_for_all_users());
    assert_eq!(m.sending_state(), Some(&9));
    assert_eq!(m.date(), 1_700_000_000);
    assert_eq!(m.content().form, "messageText hello");
    assert_eq!(m.chat(), Chat { id: 11 });
    assert!(!m.chat_is_own_chat());
    assert!(m.forward_info().is_none());
    assert_eq!(m.reply_in_chat_id(), 5);
    assert_eq!(m.reply_to_message_id(), 6);
}

#[test]
fn new_marks_edited_only_after_the_epoch() {
    assert!(!message(0).is_edited());
    assert!(message(1).is_edited());
    assert!(!message(-5).is_edited());
}

#[test]
fn new_resolves_a_chat_sender() {
    let m = Message::new(data(0, SenderId::Chat { chat_id: -100 }), &Chat { id: 11 }, false);
    assert_eq!(*m.sender(), MessageSender::Chat(Chat { id: -100 }));
    assert_eq!(m.sender().id(), -100);
    assert!(m.sender().as_user().is_none());
}

#[test]
fn content_update_notifies_only_a_change() {
    let mut m = message(0);
    let e = m.handle_update(MessageUpdate::Content(text("messageText hello")));
    assert!(matches!(e, UpdateEffect::Nothing));
    let e = m.handle_update(MessageUpdate::Content(text("messageText bye")));
    assert!(matches!(e, UpdateEffect::Notify(MessageProperty::Content)));
    assert_eq!(m.content().form, "messageText bye");
    let e = m.handle_update(MessageUpdate::Content(text("messageText bye")));
    assert!(matches!(e, UpdateEffect::Nothing));
}

#[test]
fn content_update_sees_a_new_web_page() {
    let mut m = message(0);
    let page = WebPage {
        site_name: "Site".to_string(),
        title: "Title".to_string(),
        description: "About".to_string(),
    };
    let content = MessageContent {
        form: "messageText hello".to_string(),
        kind: ContentKind::Text { web_page: Some(page) },
    };
    let e = m.handle_update(MessageUpdate::Content(content));
    assert!(matches!(e, UpdateEffect::Notify(MessageProperty::Content)));
    match m.content().kind {
        ContentKind::Text { web_page: Some(page) } => assert_eq!(page.title, "Title"),
        other => panic!("unexpected kind {:?}", other),
    }
}

#[test]
fn edit_update_notifies_only_a_change() {
    let mut m = message(0);
    let e = m.handle_update(MessageUpdate::Edited { edit_date: 0 });
    assert!(matches!(e, UpdateEffect::Nothing));
    assert!(!m.is_edited());
    let e = m.handle_update(MessageUpdate::Edited { edit_date: 1_700_000_100 });
    assert!(matches!(e, UpdateEffect::Notify(MessageProperty::IsEdited)));
    assert!(m.is_edited());
    let e = m.handle_update(MessageUpdate::Edited { edit_date: 1_700_000_200 });
    assert!(matches!(e, UpdateEffect::Nothing));
    assert!(m.is_edited());
}

#[test]
fn interaction_info_is_handed_on() {
    let mut m = message(3);
    assert_eq!(*m.interaction_info(), 1000);
    let e = m.handle_update(MessageUpdate::InteractionInfo(77u64));
    assert_eq!(e, UpdateEffect::InteractionInfoUpdated);
    assert_eq!(*m.interaction_info(), 77);
    assert!(m.is_edited());
    assert_eq!(m.content().form, "messageText hello");
}

#[test]
fn other_updates_are_ignored() {
    let mut m = message(0);
    let e = m.handle_update(MessageUpdate::Other);
    assert!(matches!(e, UpdateEffect::Nothing));
    assert!(!m.is_edited());
    assert_eq!(m.content().form, "messageText hello");
}

#[test]
fn updates_keep_identity() {
    let mut m = message(0);
    m.handle_update(MessageUpdate::Content(text("x")));
    m.handle_update(MessageUpdate::Edited { edit_date: 9 });
    assert_eq!(m.id(), 42);
    assert_eq!(m.chat(), Chat { id: 11 });
    assert_eq!(m.date(), 1_700_000_000);
    assert_eq!(m.reply_to_message_id(), 6);
    assert_eq!(m.sending_state(), Some(&9));
}

#[test]
fn requests_name_the_chat_and_the_message() {
    let m = message(0);
    match m.pin(true, false) {
        MessageRequest::PinChatMessage { chat_id, message_id, disable_notification, only_for_self } => {
            assert_eq!((chat_id, message_id, disable_notification, only_for_self), (11, 42, true, false));
        }
        other => panic!("unexpected request {:?}", other),
    }
    match m.unpin() {
        MessageRequest::UnpinChatMessage { chat_id, message_id } => {
            assert_eq!((chat_id, message_id), (11, 42));
        }
        other => panic!("unexpected request {:?}", other),
    }
    match m.delete(true) {
        MessageRequest::DeleteMessages { chat_id, message_ids, revoke } => {
            assert_eq!((chat_id, message_ids, revoke), (11, vec![42], true));
        }
        other => panic!("unexpected request {:?}", other),
    }
}

#[test]
fn forward_info_is_kept() {
    let mut d = data(0, SenderId::User { user_id: 3 });
    d.forward_info = Some(MessageForwardInfo {
        origin: MessageForwardOrigin::HiddenUser { sender_name: "Anon".to_string() },
        date: 12,
    });
    let m = Message::new(d, &Chat { id: 11 }, true);
    let info = m.forward_info().unwrap();
    assert_eq!(info.date, 12);
    assert!(matches!(info.origin(), MessageForwardOrigin::HiddenUser { sender_name } if sender_name == "Anon"));
}

#[test]
fn property_values_are_the_getters() {
    let mut m = message(1);
    assert!(matches!(m.property(MessageProperty::Id), PropertyValue::Int64(42)));
    assert!(matches!(m.property(MessageProperty::Date), PropertyValue::Int(1_700_000_000)));
    assert!(matches!(m.property(MessageProperty::IsEdited), PropertyValue::Boolean(true)));
    assert!(matches!(m.property(MessageProperty::IsPinned), PropertyValue::Boolean(false)));
    assert!(matches!(m.property(MessageProperty::Sender), PropertyValue::Sender(MessageSender::User(User { id: 3 }))));
    assert!(matches!(m.property(MessageProperty::SendingState), PropertyValue::SendingState(Some(&9))));
    assert!(matches!(m.property(MessageProperty::Chat), PropertyValue::Chat(Chat { id: 11 })));
    assert!(matches!(m.property(MessageProperty::ForwardInfo), PropertyValue::ForwardInfo(None)));
    assert!(matches!(m.property(MessageProperty::ReplyInChatId), PropertyValue::Int64(5)));
    assert!(matches!(m.property(MessageProperty::ReplyToMessageId), PropertyValue::Int64(6)));
    assert!(matches!(m.property(MessageProperty::InteractionInfo), PropertyValue::InteractionInfo(&1000)));
    match m.property(MessageProperty::Content) {
        PropertyValue::Content(c) => assert_eq!(c.form, "messageText hello"),
        _ => panic!("content expected"),
    }
    m.handle_update(MessageUpdate::InteractionInfo(5));
    assert!(matches!(m.property(MessageProperty::InteractionInfo), PropertyValue::InteractionInfo(&5)));
}
