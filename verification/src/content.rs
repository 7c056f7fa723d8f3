use vstd::prelude::*;

verus! {

/// The parts of a web page that a link preview shows.
#[derive(Debug)]
pub struct WebPage {
    pub site_name: String,
    pub title: String,
    /// The plain text of the page's description.
    pub description: String,
}

/// A web page in mathematical form.
pub struct WebPageModel {
    pub site_name: Seq<char>,
    pub title: Seq<char>,
    pub description: Seq<char>,
}

impl View for WebPage {
    type V = WebPageModel;

    open spec fn view(&self) -> WebPageModel {
        WebPageModel {
            site_name: self.site_name@,
            title: self.title@,
            description: self.description@,
        }
    }
}

impl Clone for WebPage {
    fn clone(&self) -> (r: Self)
        ensures
            r@ == self@,
    {
        WebPage {
            site_name: self.site_name.clone(),
            title: self.title.clone(),
            description: self.description.clone(),
        }
    }
}

/// What kind of content a message holds, in the parts that the client
/// reads: a text, with the web page it links to where it has one, or
/// anything else.
#[derive(Debug)]
pub enum ContentKind {
    Text { web_page: Option<WebPage> },
    Other,
}

/// A content kind in mathematical form.
pub enum ContentKindModel {
    Text { web_page: Option<WebPageModel> },
    Other,
}

pub open spec fn web_page_model(web_page: Option<WebPage>) -> Option<WebPageModel> {
    match web_page {
        Some(page) => Some(page@),
        None => None,
    }
}

impl View for ContentKind {
    type V = ContentKindModel;

    open spec fn view(&self) -> ContentKindModel {
        match self {
            ContentKind::Text { web_page } => ContentKindModel::Text {
                web_page: web_page_model(*web_page),
            },
            ContentKind::Other => ContentKindModel::Other,
        }
    }
}

/// The content of a message.
///
/// `form` is the whole content in one canonical text form, so that two
/// contents are the same exactly where their forms are; `kind` says what
/// the client reads of it.
#[derive(Debug)]
pub struct MessageContent {
    pub form: String,
    pub kind: ContentKind,
}

/// A message content in mathematical form.
pub struct ContentModel {
    pub form: Seq<char>,
    pub kind: ContentKindModel,
}

impl View for MessageContent {
    type V = ContentModel;

    open spec fn view(&self) -> ContentModel {
        ContentModel { form: self.form@, kind: self.kind@ }
    }
}

impl Clone for ContentKind {
    fn clone(&self) -> (r: Self)
        ensures
            r@ == self@,
    {
        match self {
            ContentKind::Text { web_page: Some(page) } => ContentKind::Text {
                web_page: Some(page.clone()),
            },
            ContentKind::Text { web_page: None } => ContentKind::Text { web_page: None },
            ContentKind::Other => ContentKind::Other,
        }
    }
}

impl Clone for MessageContent {
    fn clone(&self) -> (r: Self)
        ensures
            r@ == self@,
    {
        MessageContent { form: self.form.clone(), kind: self.kind.clone() }
    }
}

impl WebPage {
    /// Whether the two pages hold the same texts.
    pub fn same_as(&self, other: &WebPage) -> (r: bool)
        ensures
            r == (self@ == other@),
    {
        self.site_name == other.site_name && self.title == other.title && self.description
            == other.description
    }
}

impl ContentKind {
    /// Whether the two kinds are the same.
    pub fn same_as(&self, other: &ContentKind) -> (r: bool)
        ensures
            r == (self@ == other@),
    {
        match (self, other) {
            (ContentKind::Text { web_page: Some(a) }, ContentKind::Text { web_page: Some(b) }) =>
                a.same_as(b),
            (ContentKind::Text { web_page: None }, ContentKind::Text { web_page: None }) => true,
            (ContentKind::Other, ContentKind::Other) => true,
            _ => false,
        }
    }
}

impl MessageContent {
    /// Whether the two contents are the same.
    pub fn same_as(&self, other: &MessageContent) -> (r: bool)
        ensures
            r == (self@ == other@),
    {
        self.form == other.form && self.kind.same_as(&other.kind)
    }
}

} // verus!
