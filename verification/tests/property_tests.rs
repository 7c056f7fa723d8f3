use paper_plane_message::property::{MessageProperty, PropertyFlags, ValueType};

#[test]
fn sixteen_properties_in_order() {
    let names: Vec<&str> = MessageProperty::properties().iter().map(|p| p.name()).collect();
    assert_eq!(
        names,
        vec![
            "id",
            "sender",
            "is-outgoing",
            "is-pinned",
            "can-be-edited",
            "can-be-deleted-only-for-self",
            "can-be-deleted-for-all-users",
            "sending-state",
            "date",
            "content",
            "is-edited",
            "interaction-info",
            "chat",
            "forward-info",
            "reply-in-chat-id",
            "reply-to-message-id",
        ]
    );
}

#[test]
fn every_property_is_found_by_its_name() {
    for p in MessageProperty::properties() {
        assert_eq!(MessageProperty::from_name(p.name()), Some(p));
    }
}

#[test]
fn unknown_names_are_not_found() {
    assert_eq!(MessageProperty::from_name("title"), None);
    assert_eq!(MessageProperty::from_name(""), None);
    assert_eq!(MessageProperty::from_name("Id"), None);
    assert_eq!(MessageProperty::from_name("is-edite"), None);
}

#[test]
fn value_types_of_properties() {
    let types: Vec<ValueType> = MessageProperty::properties().iter().map(|p| p.value_type()).collect();
    assert_eq!(
        types,
        vec![
            ValueType::Int64,
            ValueType::MessageSender,
            ValueType::Boolean,
            ValueType::Boolean,
            ValueType::Boolean,
            ValueType::Boolean,
            ValueType::Boolean,
            ValueType::MessageSendingState,
            ValueType::Int,
            ValueType::MessageContent,
            ValueType::Boolean,
            ValueType::MessageInteractionInfo,
            ValueType::Chat,
            ValueType::MessageForwardInfo,
            ValueType::Int64,
            ValueType::Int64,
        ]
    );
}

#[test]
fn every_property_is_read_only() {
    let specs = MessageProperty::param_specs();
    assert_eq!(specs.len(), 16);
    for (spec, p) in specs.iter().zip(MessageProperty::properties()) {
        assert_eq!(spec.name, p.name());
        assert_eq!(spec.value_type, p.value_type());
        assert_eq!(spec.nick, None);
        assert_eq!(spec.blurb, None);
        assert_eq!(spec.flags, PropertyFlags { readable: true, writable: false, explicit_notify: false });
    }
}
