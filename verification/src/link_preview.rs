use vstd::prelude::*;
use crate::content::{ContentKind, ContentKindModel, MessageContent, WebPage, WebPageModel};
use crate::message::{Message, MessageModel};
use crate::property::{PropertyFlags, PropertySpec, PropertySpecModel, ValueType};

verus! {

/// The identity of a message object: what the object system compares when
/// it asks whether two messages are the same object (its address, which
/// stays the object's own while the row holds it).
#[derive(Clone, Copy, Debug, PartialEq, Eq, Structural)]
pub struct MessageObject {
    pub id: u64,
}

/// The page that a row previews for a content: the web page of a text
/// message, where it has one.
pub open spec fn previewed_page(kind: ContentKindModel) -> Option<WebPageModel> {
    match kind {
        ContentKindModel::Text { web_page } => web_page,
        ContentKindModel::Other => None,
    }
}

/// The row that shows the web page a text message links to.
///
/// `labels` holds the texts shown for the site name, the page title and the
/// page description, once a page has been shown (`None` while the row
/// still shows the texts it was built with). `B` is a watch that keeps a
/// label bound to a value, which the row drops when it takes a new message.
pub struct LinkPreview<B> {
    message: Option<MessageObject>,
    labels: Option<WebPage>,
    bindings: Vec<B>,
}

/// A link preview row in mathematical form.
pub struct LinkPreviewModel<B> {
    pub message: Option<MessageObject>,
    pub labels: Option<WebPageModel>,
    pub bindings: Seq<B>,
}

impl<B> View for LinkPreview<B> {
    type V = LinkPreviewModel<B>;

    closed spec fn view(&self) -> LinkPreviewModel<B> {
        LinkPreviewModel {
            message: self.message,
            labels: crate::content::web_page_model(self.labels),
            bindings: self.bindings@,
        }
    }
}

/// The row after it is given the message object `object`, whose message is
/// `m`: a row that already shows that object stays as it is; otherwise the
/// row shows the object, the labels take the texts of the web page that
/// the message previews where it has one, and every binding is dropped.
pub open spec fn preview_after<B, S, I>(
    row: LinkPreviewModel<B>,
    object: MessageObject,
    m: MessageModel<S, I>,
) -> LinkPreviewModel<B> {
    if row.message == Some(object) {
        row
    } else {
        LinkPreviewModel {
            message: Some(object),
            labels: match previewed_page(m.content.kind) {
                Some(page) => Some(page),
                None => row.labels,
            },
            bindings: Seq::empty(),
        }
    }
}

/// What follows from giving a row a message: whether the row's message
/// property is to announce a change, and the bindings to unwatch.
pub struct RowChange<B> {
    pub notify: bool,
    pub unwatch: Vec<B>,
}

/// The declaration of the row's one property: the message it shows, which
/// can be read and written, and announces a change only where the row says
/// so.
pub open spec fn message_property_declaration() -> PropertySpecModel {
    PropertySpecModel {
        name: "message"@,
        nick: Some("Message"@),
        blurb: Some("The message represented by this row"@),
        value_type: ValueType::Message,
        flags: PropertyFlags { readable: true, writable: true, explicit_notify: true },
    }
}

/// The declarations of the properties of a link preview row.
pub fn link_preview_properties() -> (r: Vec<PropertySpec>)
    ensures
        r@.len() == 1,
        r@[0]@ == message_property_declaration(),
{
    vec![
        PropertySpec {
            name: "message",
            nick: Some("Message"),
            blurb: Some("The message represented by this row"),
            value_type: ValueType::Message,
            flags: PropertyFlags { readable: true, writable: true, explicit_notify: true },
        },
    ]
}

impl<B> LinkPreview<B> {
    /// A row that shows no message yet.
    pub fn new() -> (r: LinkPreview<B>)
        ensures
            r@.message.is_none(),
            r@.labels.is_none(),
            r@.bindings.len() == 0,
    {
        LinkPreview { message: None, labels: None, bindings: Vec::new() }
    }

    /// The message object that the row shows; a row shows one once it has
    /// been given one.
    pub fn message(&self) -> (r: MessageObject)
        requires
            self@.message.is_some(),
        ensures
            Some(r) == self@.message,
    {
        self.message.unwrap()
    }

    /// The texts that the labels show, once a page has been shown.
    pub fn labels(&self) -> (r: Option<&WebPage>)
        ensures
            match r {
                Some(page) => self@.labels == Some(page@),
                None => self@.labels.is_none(),
            },
    {
        self.labels.as_ref()
    }

    /// Gives the row the message object `object`, whose message is
    /// `message`. The row compares objects, not messages: another object
    /// for the same message is a new message to it. Says whether the row's
    /// message changed, so that the change is announced, and hands back the
    /// bindings that the row drops, in the order in which they are to be
    /// unwatched (the latest first).
    pub fn set_message<S, I>(&mut self, object: MessageObject, message: &Message<S, I>) -> (r:
        RowChange<B>)
        ensures
            final(self)@ == preview_after(old(self)@, object, message@),
            r.notify == (old(self)@.message != Some(object)),
            r.notify ==> r.unwatch@ == old(self)@.bindings.reverse(),
            !r.notify ==> r.unwatch@.len() == 0,
    {
        if self.message == Some(object) {
            return RowChange { notify: false, unwatch: Vec::new() };
        }
        self.message = Some(object);
        let content: MessageContent = message.content();
        if let ContentKind::Text { web_page: Some(page) } = content.kind {
            self.labels = Some(page);
        }
        let mut dropped: Vec<B> = Vec::new();
        let ghost old_bindings = self.bindings@;
        let ghost shown = self.message;
        let ghost labels = self.labels;
        while self.bindings.len() > 0
            invariant
                self.message == shown,
                self.labels == labels,
                dropped@ + self.bindings@.reverse() == old_bindings.reverse(),
            decreases self.bindings.len(),
        {
            let ghost before = self.bindings@;
            let binding = self.bindings.pop().unwrap();
            assert(before.reverse() =~= seq![binding] + self.bindings@.reverse());
            dropped.push(binding);
        }
        assert(self.bindings@ =~= Seq::<B>::empty());
        assert(self.bindings@.reverse() =~= Seq::<B>::empty());
        assert(dropped@ =~= old_bindings.reverse());
        RowChange { notify: true, unwatch: dropped }
    }
}

} // verus!
