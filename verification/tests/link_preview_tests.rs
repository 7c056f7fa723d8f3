use paper_plane_message::content::{ContentKind, MessageContent, WebPage};
use paper_plane_message::link_preview::{link_preview_properties, LinkPreview, MessageObject};
use paper_plane_message::property::{PropertyFlags, ValueType};
use paper_plane_message::message::{Message, MessageData};
use paper_plane_message::sender::{Chat, SenderId};

fn message(id: i64, web_page: Option<WebPage>) -> Message<(), ()> {
    let data = MessageData {
        id,
        sender_id: SenderId::User { user_id: 2 },
        is_outgoing: false,
        is_pinned: false,
        can_be_edited: false,
        can_be_deleted_only_for_self: false,
        can_be_deleted_for_all_users: false,
        sending_state: None,
        date: 0,
        edit_date: 0,
        content: MessageContent { form: "messageText".to_string(), kind: ContentKind::Text { web_page } },
        forward_info: None,
        reply_in_chat_id: 0,
        reply_to_message_id: 0,
        interaction_info: (),
    };
    Message::new(data, &Chat { id: 3 }, false)
}

fn page() -> WebPage {
    WebPage {
        site_name: "Example".to_string(),
        title: "A page".to_string(),
        description: "What it is about".to_string(),
    }
}

#[test]
fn a_web_page_fills_the_labels() {
    let mut row: LinkPreview<u8> = LinkPreview::new();
    let change = row.set_message(MessageObject { id: 1 }, &message(1, Some(page())));
    assert!(change.notify);
    assert!(change.unwatch.is_empty());
    let labels = row.labels().unwrap();
    assert_eq!(labels.site_name, "Example");
    assert_eq!(labels.title, "A page");
    assert_eq!(labels.description, "What it is about");
}

#[test]
fn no_web_page_leaves_the_labels() {
    let mut row: LinkPreview<u8> = LinkPreview::new();
    row.set_message(MessageObject { id: 1 }, &message(1, None));
    assert!(row.labels().is_none());
    row.set_message(MessageObject { id: 2 }, &message(2, Some(page())));
    row.set_message(MessageObject { id: 3 }, &message(3, None));
    assert_eq!(row.labels().unwrap().title, "A page");
}

#[test]
fn the_row_reads_back_its_message() {
    let mut row: LinkPreview<u8> = LinkPreview::new();
    row.set_message(MessageObject { id: 7 }, &message(7, Some(page())));
    assert_eq!(row.message(), MessageObject { id: 7 });
    row.set_message(MessageObject { id: 8 }, &message(8, None));
    assert_eq!(row.message(), MessageObject { id: 8 });
}

#[test]
fn giving_the_message_twice_announces_once() {
    let mut row: LinkPreview<u8> = LinkPreview::new();
    let m = message(1, Some(page()));
    assert!(row.set_message(MessageObject { id: 1 }, &m).notify);
    let again = row.set_message(MessageObject { id: 1 }, &m);
    assert!(!again.notify);
    assert!(again.unwatch.is_empty());
    assert_eq!(row.labels().unwrap().site_name, "Example");
    assert_eq!(row.message(), MessageObject { id: 1 });
}

#[test]
fn the_row_declares_its_message_property() {
    let specs = link_preview_properties();
    assert_eq!(specs.len(), 1);
    assert_eq!(specs[0].name, "message");
    assert_eq!(specs[0].nick, Some("Message"));
    assert_eq!(specs[0].blurb, Some("The message represented by this row"));
    assert_eq!(specs[0].value_type, ValueType::Message);
    assert_eq!(specs[0].flags, PropertyFlags { readable: true, writable: true, explicit_notify: true });
}

#[test]
fn another_object_for_the_same_message_is_new_to_the_row() {
    let mut row: LinkPreview<u8> = LinkPreview::new();
    assert!(row.set_message(MessageObject { id: 1 }, &message(5, None)).notify);
    let change = row.set_message(MessageObject { id: 2 }, &message(5, Some(page())));
    assert!(change.notify);
    assert_eq!(row.message(), MessageObject { id: 2 });
    assert_eq!(row.labels().unwrap().title, "A page");
}

#[test]
fn only_a_text_previews_a_page() {
    let mut row: LinkPreview<u8> = LinkPreview::new();
    let mut m = message(4, None);
    m.handle_update(paper_plane_message::message::MessageUpdate::Content(MessageContent {
        form: "messagePhoto".to_string(),
        kind: ContentKind::Other,
    }));
    row.set_message(MessageObject { id: 4 }, &m);
    assert!(row.labels().is_none());
}
