use vstd::prelude::*;
use vstd::string::StrSliceExecFns;

verus! {

/// The properties that a message offers to the user interface.
#[derive(Clone, Copy, Debug, PartialEq, Eq, Structural)]
pub enum MessageProperty {
    Id,
    Sender,
    IsOutgoing,
    IsPinned,
    CanBeEdited,
    CanBeDeletedOnlyForSelf,
    CanBeDeletedForAllUsers,
    SendingState,
    Date,
    Content,
    IsEdited,
    InteractionInfo,
    Chat,
    ForwardInfo,
    ReplyInChatId,
    ReplyToMessageId,
}

/// The type of the value that a property holds.
#[derive(Clone, Copy, Debug, PartialEq, Eq, Structural)]
pub enum ValueType {
    /// A 64-bit integer.
    Int64,
    /// A 32-bit integer.
    Int,
    /// A boolean.
    Boolean,
    /// A message sender, boxed for the object system.
    MessageSender,
    /// A message's sending state, boxed for the object system.
    MessageSendingState,
    /// A message content, boxed for the object system.
    MessageContent,
    /// The object that shows a message's interaction information.
    MessageInteractionInfo,
    /// A chat object.
    Chat,
    /// The object that shows where a forwarded message came from.
    MessageForwardInfo,
    /// A message object.
    Message,
}

/// How a property may be used.
#[derive(Clone, Copy, Debug, PartialEq, Eq, Structural)]
pub struct PropertyFlags {
    pub readable: bool,
    pub writable: bool,
    /// Set where a change is announced only where the owner says so, not on
    /// every write.
    pub explicit_notify: bool,
}

pub open spec fn read_only() -> PropertyFlags {
    PropertyFlags { readable: true, writable: false, explicit_notify: false }
}

/// The declaration of a property: its name, its optional nickname and
/// description, the type of its value, and how it may be used.
#[derive(Debug)]
pub struct PropertySpec {
    pub name: &'static str,
    pub nick: Option<&'static str>,
    pub blurb: Option<&'static str>,
    pub value_type: ValueType,
    pub flags: PropertyFlags,
}

/// A property declaration in mathematical form.
pub struct PropertySpecModel {
    pub name: Seq<char>,
    pub nick: Option<Seq<char>>,
    pub blurb: Option<Seq<char>>,
    pub value_type: ValueType,
    pub flags: PropertyFlags,
}

pub open spec fn text_model(text: Option<&'static str>) -> Option<Seq<char>> {
    match text {
        Some(t) => Some(t@),
        None => None,
    }
}

impl View for PropertySpec {
    type V = PropertySpecModel;

    open spec fn view(&self) -> PropertySpecModel {
        PropertySpecModel {
            name: self.name@,
            nick: text_model(self.nick),
            blurb: text_model(self.blurb),
            value_type: self.value_type,
            flags: self.flags,
        }
    }
}

impl MessageProperty {
    /// The name under which the object system knows the property.
    pub open spec fn spec_name(self) -> Seq<char> {
        match self {
            MessageProperty::Id => "id"@,
            MessageProperty::Sender => "sender"@,
            MessageProperty::IsOutgoing => "is-outgoing"@,
            MessageProperty::IsPinned => "is-pinned"@,
            MessageProperty::CanBeEdited => "can-be-edited"@,
            MessageProperty::CanBeDeletedOnlyForSelf => "can-be-deleted-only-for-self"@,
            MessageProperty::CanBeDeletedForAllUsers => "can-be-deleted-for-all-users"@,
            MessageProperty::SendingState => "sending-state"@,
            MessageProperty::Date => "date"@,
            MessageProperty::Content => "content"@,
            MessageProperty::IsEdited => "is-edited"@,
            MessageProperty::InteractionInfo => "interaction-info"@,
            MessageProperty::Chat => "chat"@,
            MessageProperty::ForwardInfo => "forward-info"@,
            MessageProperty::ReplyInChatId => "reply-in-chat-id"@,
            MessageProperty::ReplyToMessageId => "reply-to-message-id"@,
        }
    }

    /// The type of the value the property holds.
    pub open spec fn spec_value_type(self) -> ValueType {
        match self {
            MessageProperty::Id => ValueType::Int64,
            MessageProperty::Sender => ValueType::MessageSender,
            MessageProperty::SendingState => ValueType::MessageSendingState,
            MessageProperty::Date => ValueType::Int,
            MessageProperty::Content => ValueType::MessageContent,
            MessageProperty::InteractionInfo => ValueType::MessageInteractionInfo,
            MessageProperty::Chat => ValueType::Chat,
            MessageProperty::ForwardInfo => ValueType::MessageForwardInfo,
            MessageProperty::ReplyInChatId => ValueType::Int64,
            MessageProperty::ReplyToMessageId => ValueType::Int64,
            _ => ValueType::Boolean,
        }
    }

    /// Every property of a message is read-only.
    pub open spec fn spec_flags(self) -> PropertyFlags {
        read_only()
    }

    /// The declaration of the property: its name, no nickname or
    /// description, its value type and its flags.
    pub open spec fn declaration(self) -> PropertySpecModel {
        PropertySpecModel {
            name: self.spec_name(),
            nick: None,
            blurb: None,
            value_type: self.spec_value_type(),
            flags: self.spec_flags(),
        }
    }

    pub fn name(&self) -> (r: &'static str)
        ensures
            r@ == self.spec_name(),
    {
        match self {
            MessageProperty::Id => "id",
            MessageProperty::Sender => "sender",
            MessageProperty::IsOutgoing => "is-outgoing",
            MessageProperty::IsPinned => "is-pinned",
            MessageProperty::CanBeEdited => "can-be-edited",
            MessageProperty::CanBeDeletedOnlyForSelf => "can-be-deleted-only-for-self",
            MessageProperty::CanBeDeletedForAllUsers => "can-be-deleted-for-all-users",
            MessageProperty::SendingState => "sending-state",
            MessageProperty::Date => "date",
            MessageProperty::Content => "content",
            MessageProperty::IsEdited => "is-edited",
            MessageProperty::InteractionInfo => "interaction-info",
            MessageProperty::Chat => "chat",
            MessageProperty::ForwardInfo => "forward-info",
            MessageProperty::ReplyInChatId => "reply-in-chat-id",
            MessageProperty::ReplyToMessageId => "reply-to-message-id",
        }
    }

    pub fn value_type(&self) -> (r: ValueType)
        ensures
            r == self.spec_value_type(),
    {
        match self {
            MessageProperty::Id => ValueType::Int64,
            MessageProperty::Sender => ValueType::MessageSender,
            MessageProperty::SendingState => ValueType::MessageSendingState,
            MessageProperty::Date => ValueType::Int,
            MessageProperty::Content => ValueType::MessageContent,
            MessageProperty::InteractionInfo => ValueType::MessageInteractionInfo,
            MessageProperty::Chat => ValueType::Chat,
            MessageProperty::ForwardInfo => ValueType::MessageForwardInfo,
            MessageProperty::ReplyInChatId => ValueType::Int64,
            MessageProperty::ReplyToMessageId => ValueType::Int64,
            _ => ValueType::Boolean,
        }
    }

    pub fn flags(&self) -> (r: PropertyFlags)
        ensures
            r == self.spec_flags(),
    {
        PropertyFlags { readable: true, writable: false, explicit_notify: false }
    }

    /// The declaration of the property.
    pub fn param_spec(&self) -> (r: PropertySpec)
        ensures
            r@ == self.declaration(),
    {
        PropertySpec {
            name: self.name(),
            nick: None,
            blurb: None,
            value_type: self.value_type(),
            flags: self.flags(),
        }
    }

    /// The declarations of every property of a message, in the order in
    /// which the object system lists them.
    pub fn param_specs() -> (r: Vec<PropertySpec>)
        ensures
            r@.len() == all_properties().len(),
            forall|i: int| 0 <= i < r@.len() ==> #[trigger] r@[i]@ == all_properties()[i].declaration(),
    {
        let all = MessageProperty::properties();
        let mut specs: Vec<PropertySpec> = Vec::new();
        let mut i: usize = 0;
        while i < all.len()
            invariant
                all@ == all_properties(),
                i <= all.len(),
                specs@.len() == i,
                forall|j: int| 0 <= j < i ==> #[trigger] specs@[j]@ == all_properties()[j].declaration(),
            decreases all.len() - i,
        {
            specs.push(all[i].param_spec());
            i = i + 1;
        }
        specs
    }

    /// Every property of a message, in the order in which the object
    /// system lists them.
    pub fn properties() -> (r: Vec<MessageProperty>)
        ensures
            r@ == all_properties(),
    {
        vec![
            MessageProperty::Id,
            MessageProperty::Sender,
            MessageProperty::IsOutgoing,
            MessageProperty::IsPinned,
            MessageProperty::CanBeEdited,
            MessageProperty::CanBeDeletedOnlyForSelf,
            MessageProperty::CanBeDeletedForAllUsers,
            MessageProperty::SendingState,
            MessageProperty::Date,
            MessageProperty::Content,
            MessageProperty::IsEdited,
            MessageProperty::InteractionInfo,
            MessageProperty::Chat,
            MessageProperty::ForwardInfo,
            MessageProperty::ReplyInChatId,
            MessageProperty::ReplyToMessageId,
        ]
    }

    /// The property of the given name, where there is one.
    pub fn from_name(name: &str) -> (r: Option<MessageProperty>)
        ensures
            r == property_named(name@),
    {
        let all = MessageProperty::properties();
        let mut i: usize = 0;
        while i < all.len()
            invariant
                all@ == all_properties(),
                i <= all.len(),
                find_named(all@, name@, i as int) == property_named(name@),
            decreases all.len() - i,
        {
            let p = all[i];
            if str_eq(p.name(), name) {
                return Some(p);
            }
            i = i + 1;
        }
        None
    }
}
/// Every property of a message, in the order in which the object system
/// lists them.
pub open spec fn all_properties() -> Seq<MessageProperty> {
    seq![
        MessageProperty::Id,
        MessageProperty::Sender,
        MessageProperty::IsOutgoing,
        MessageProperty::IsPinned,
        MessageProperty::CanBeEdited,
        MessageProperty::CanBeDeletedOnlyForSelf,
        MessageProperty::CanBeDeletedForAllUsers,
        MessageProperty::SendingState,
        MessageProperty::Date,
        MessageProperty::Content,
        MessageProperty::IsEdited,
        MessageProperty::InteractionInfo,
        MessageProperty::Chat,
        MessageProperty::ForwardInfo,
        MessageProperty::ReplyInChatId,
        MessageProperty::ReplyToMessageId,
    ]
}

/// The first property in `props`, from place `i` on, whose name is
/// `name`, where there is one.
pub open spec fn find_named(props: Seq<MessageProperty>, name: Seq<char>, i: int) -> Option<
    MessageProperty,
>
    decreases props.len() - i,
{
    if i < 0 || i >= props.len() {
        None
    } else if props[i].spec_name() == name {
        Some(props[i])
    } else {
        find_named(props, name, i + 1)
    }
}

/// The property whose name is `name`, where there is one.
pub open spec fn property_named(name: Seq<char>) -> Option<MessageProperty> {
    find_named(all_properties(), name, 0)
}

/// Spells out the property names: their lengths and the letters at
/// which names of one length differ.
proof fn reveal_names()
    ensures
        "id"@.len() == 2 && "id"@[0] == 'i',
        "sender"@.len() == 6 && "sender"@[0] == 's' && "sender"@[3] == 'd',
        "is-outgoing"@.len() == 11 && "is-outgoing"@[0] == 'i' && "is-outgoing"@[3] == 'o',
        "is-pinned"@.len() == 9 && "is-pinned"@[0] == 'i' && "is-pinned"@[3] == 'p',
        "can-be-edited"@.len() == 13 && "can-be-edited"@[0] == 'c' && "can-be-edited"@[3] == '-',
        "can-be-deleted-only-for-self"@.len() == 28 && "can-be-deleted-only-for-self"@[0] == 'c' && "can-be-deleted-only-for-self"@[3] == '-' && "can-be-deleted-only-for-self"@[15] == 'o',
        "can-be-deleted-for-all-users"@.len() == 28 && "can-be-deleted-for-all-users"@[0] == 'c' && "can-be-deleted-for-all-users"@[3] == '-' && "can-be-deleted-for-all-users"@[15] == 'f',
        "sending-state"@.len() == 13 && "sending-state"@[0] == 's' && "sending-state"@[3] == 'd',
        "date"@.len() == 4 && "date"@[0] == 'd' && "date"@[3] == 'e',
        "content"@.len() == 7 && "content"@[0] == 'c' && "content"@[3] == 't',
        "is-edited"@.len() == 9 && "is-edited"@[0] == 'i' && "is-edited"@[3] == 'e',
        "interaction-info"@.len() == 16 && "interaction-info"@[0] == 'i' && "interaction-info"@[3] == 'e' && "interaction-info"@[15] == 'o',
        "chat"@.len() == 4 && "chat"@[0] == 'c' && "chat"@[3] == 't',
        "forward-info"@.len() == 12 && "forward-info"@[0] == 'f' && "forward-info"@[3] == 'w',
        "reply-in-chat-id"@.len() == 16 && "reply-in-chat-id"@[0] == 'r' && "reply-in-chat-id"@[3] == 'l' && "reply-in-chat-id"@[15] == 'd',
        "reply-to-message-id"@.len() == 19 && "reply-to-message-id"@[0] == 'r' && "reply-to-message-id"@[3] == 'l' && "reply-to-message-id"@[15] == 'e',
{
    reveal_strlit("id");
    reveal_strlit("sender");
    reveal_strlit("is-outgoing");
    reveal_strlit("is-pinned");
    reveal_strlit("can-be-edited");
    reveal_strlit("can-be-deleted-only-for-self");
    reveal_strlit("can-be-deleted-for-all-users");
    reveal_strlit("sending-state");
    reveal_strlit("date");
    reveal_strlit("content");
    reveal_strlit("is-edited");
    reveal_strlit("interaction-info");
    reveal_strlit("chat");
    reveal_strlit("forward-info");
    reveal_strlit("reply-in-chat-id");
    reveal_strlit("reply-to-message-id");
}

/// Every property of a message can be read and none can be written.
pub proof fn lemma_properties_read_only(p: MessageProperty)
    ensures
        p.declaration().flags.readable,
        !p.declaration().flags.writable,
        !p.declaration().flags.explicit_notify,
{
}

/// Each property is found again under its own name.
pub proof fn lemma_name_round_trip(p: MessageProperty)
    ensures
        property_named(p.spec_name()) == Some(p),
{
    reveal_names();
    reveal_with_fuel(find_named, 17);
}

/// No two properties share a name.
pub proof fn lemma_names_distinct(p: MessageProperty, q: MessageProperty)
    requires
        p.spec_name() == q.spec_name(),
    ensures
        p == q,
{
    lemma_name_round_trip(p);
    lemma_name_round_trip(q);
}

/// Whether the two texts are the same.
fn str_eq(a: &str, b: &str) -> (r: bool)
    ensures
        r == (a@ == b@),
{
    let n = a.unicode_len();
    if n != b.unicode_len() {
        return false;
    }
    let mut i: usize = 0;
    while i < n
        invariant
            n == a@.len(),
            n == b@.len(),
            i <= n,
            forall|j: int| 0 <= j < i ==> a@[j] == b@[j],
        decreases n - i,
    {
        if a.get_char(i) != b.get_char(i) {
            return false;
        }
        i = i + 1;
    }
    assert(a@ =~= b@);
    true
}

} // verus!
