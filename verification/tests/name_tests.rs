use paper_plane_message::content::{ContentKind, MessageContent};
use paper_plane_message::forward::{MessageForwardInfo, MessageForwardOrigin};
use paper_plane_message::message::{Message, MessageData};
use paper_plane_message::name::NameExpression;
use paper_plane_message::sender::{Chat, SenderId, User};

fn message(sender_id: SenderId, own: bool, origin: Option<MessageForwardOrigin>) -> Message<(), ()> {
    let data = MessageData {
        id: 1,
        sender_id,
        is_outgoing: false,
        is_pinned: false,
        can_be_edited: false,
        can_be_deleted_only_for_self: false,
        can_be_deleted_for_all_users: false,
        sending_state: None,
        date: 0,
        edit_date: 0,
        content: MessageContent { form: "messageText".to_string(), kind: ContentKind::Text { web_page: None } },
        forward_info: origin.map(|origin| MessageForwardInfo { origin, date: 0 }),
        reply_in_chat_id: 0,
        reply_to_message_id: 0,
        interaction_info: (),
    };
    Message::new(data, &Chat { id: 9 }, own)
}

#[test]
fn sender_name_of_a_user_and_of_a_chat() {
    let m = message(SenderId::User { user_id: 4 }, false, None);
    assert!(matches!(m.sender_name_expression(),
        NameExpression::UserDisplayName { user: User { id: 4 }, watched: false }));
    let m = message(SenderId::Chat { chat_id: 8 }, false, None);
    assert!(matches!(m.sender_name_expression(), NameExpression::ChatTitle(Chat { id: 8 })));
}

#[test]
fn display_name_elsewhere_is_the_sender_name() {
    let origin = MessageForwardOrigin::HiddenUser { sender_name: "Anon".to_string() };
    let m = message(SenderId::User { user_id: 4 }, false, Some(origin));
    assert!(matches!(m.sender_display_name_expression(),
        NameExpression::UserDisplayName { user: User { id: 4 }, watched: false }));
}

#[test]
fn display_name_in_own_chat_follows_the_origin() {
    let m = message(SenderId::User { user_id: 4 }, true, Some(MessageForwardOrigin::User(User { id: 5 })));
    assert!(matches!(m.sender_display_name_expression(),
        NameExpression::UserDisplayName { user: User { id: 5 }, watched: true }));

    let origin = MessageForwardOrigin::Chat { chat: Chat { id: 6 }, author_signature: String::new() };
    let m = message(SenderId::User { user_id: 4 }, true, Some(origin));
    assert!(matches!(m.sender_display_name_expression(), NameExpression::ChatTitle(Chat { id: 6 })));

    let origin = MessageForwardOrigin::Channel {
        chat: Chat { id: 7 },
        message_id: 3,
        author_signature: "ed".to_string(),
    };
    let m = message(SenderId::User { user_id: 4 }, true, Some(origin));
    assert!(matches!(m.sender_display_name_expression(), NameExpression::ChatTitle(Chat { id: 7 })));

    let origin = MessageForwardOrigin::HiddenUser { sender_name: "Anon".to_string() };
    let m = message(SenderId::User { user_id: 4 }, true, Some(origin));
    assert!(matches!(m.sender_display_name_expression(), NameExpression::Constant(s) if s == "Anon"));

    let origin = MessageForwardOrigin::MessageImport { sender_name: "Imported".to_string() };
    let m = message(SenderId::User { user_id: 4 }, true, Some(origin));
    assert!(matches!(m.sender_display_name_expression(), NameExpression::Constant(s) if s == "Imported"));
}
