//! What is known of an open document: its description and its pages.

use crate::coord::Coord;
use crate::text::optional_text;
use vstd::prelude::*;

verus! {

/// The description of a document.
#[derive(Clone, Debug)]
pub struct DocumentMeta {
    pub title: Option<String>,
    pub author: Option<String>,
    pub subject: Option<String>,
    pub creator: Option<String>,
    pub producer: Option<String>,
    pub page_count: i32,
    pub file_path: Vec<u8>,
    pub file_size: u64,
}

/// What a [`DocumentMeta`] holds.
pub struct DocumentInfo {
    pub title: Option<Seq<char>>,
    pub author: Option<Seq<char>>,
    pub subject: Option<Seq<char>>,
    pub creator: Option<Seq<char>>,
    pub producer: Option<Seq<char>>,
    pub page_count: i32,
    pub file_path: Seq<u8>,
    pub file_size: u64,
}

impl View for DocumentMeta {
    type V = DocumentInfo;

    open spec fn view(&self) -> DocumentInfo {
        DocumentInfo {
            title: optional_text(self.title),
            author: optional_text(self.author),
            subject: optional_text(self.subject),
            creator: optional_text(self.creator),
            producer: optional_text(self.producer),
            page_count: self.page_count,
            file_path: self.file_path@,
            file_size: self.file_size,
        }
    }
}

/// What a document and its file say of themselves. An entry that could not be read is absent.
#[derive(Clone, Debug)]
pub struct MetaReply {
    pub title: Option<String>,
    pub author: Option<String>,
    pub subject: Option<String>,
    pub creator: Option<String>,
    pub producer: Option<String>,
    pub file_size: Option<u64>,
}

/// What a [`MetaReply`] holds.
pub struct MetaAnswer {
    pub title: Option<Seq<char>>,
    pub author: Option<Seq<char>>,
    pub subject: Option<Seq<char>>,
    pub creator: Option<Seq<char>>,
    pub producer: Option<Seq<char>>,
    pub file_size: Option<u64>,
}

impl View for MetaReply {
    type V = MetaAnswer;

    open spec fn view(&self) -> MetaAnswer {
        MetaAnswer {
            title: optional_text(self.title),
            author: optional_text(self.author),
            subject: optional_text(self.subject),
            creator: optional_text(self.creator),
            producer: optional_text(self.producer),
            file_size: self.file_size,
        }
    }
}

/// `text`, unless it is empty.
pub open spec fn nonempty(text: Option<Seq<char>>) -> Option<Seq<char>> {
    match text {
        Some(t) => if t.len() == 0 {
            None
        } else {
            Some(t)
        },
        None => None,
    }
}

/// The description that a document's answer amounts to.
pub open spec fn described(answer: MetaAnswer, page_count: i32, path: Seq<u8>) -> DocumentInfo {
    DocumentInfo {
        title: nonempty(answer.title),
        author: nonempty(answer.author),
        subject: nonempty(answer.subject),
        creator: nonempty(answer.creator),
        producer: nonempty(answer.producer),
        page_count,
        file_path: path,
        file_size: match answer.file_size {
            Some(size) => size,
            None => 0,
        },
    }
}

fn drop_empty(text: Option<String>) -> (kept: Option<String>)
    ensures
        optional_text(kept) == nonempty(optional_text(text)),
{
    match text {
        Some(t) => {
            if t.as_str().is_empty() {
                None
            } else {
                Some(t)
            }
        },
        None => None,
    }
}

impl DocumentMeta {
    /// Describes a document from its answer, leaving out entries that are absent or empty.
    pub fn from_reply(reply: MetaReply, page_count: i32, path: Vec<u8>) -> (meta: DocumentMeta)
        ensures
            meta@ == described(reply@, page_count, path@),
    {
        DocumentMeta {
            title: drop_empty(reply.title),
            author: drop_empty(reply.author),
            subject: drop_empty(reply.subject),
            creator: drop_empty(reply.creator),
            producer: drop_empty(reply.producer),
            page_count,
            file_path: path,
            file_size: reply.file_size.unwrap_or(0),
        }
    }
}

/// The edges of a page.
#[derive(Clone, Copy, Debug, PartialEq, Eq, Structural)]
pub struct PageBounds {
    pub x0: Coord,
    pub y0: Coord,
    pub x1: Coord,
    pub y1: Coord,
}

/// A page: its number, its edges, and what has been made of it so far. `D` is a recorded
/// page and `I` is an image that can be shown.
#[derive(Clone, Debug)]
pub struct Page<D, I> {
    pub index: i32,
    pub bounds: PageBounds,
    pub display_list: Option<D>,
    pub icon_handle: Option<I>,
    pub image_handle: Option<I>,
    pub inverted_image_handle: Option<I>,
}

impl<D, I> Page<D, I> {
    /// The page of which only the edges are known.
    pub open spec fn blank(index: i32, bounds: PageBounds) -> Self {
        Page {
            index,
            bounds,
            display_list: None,
            icon_handle: None,
            image_handle: None,
            inverted_image_handle: None,
        }
    }

    /// A page of which only the edges are known.
    pub fn new(index: i32, bounds: PageBounds) -> (page: Self)
        ensures
            page == Self::blank(index, bounds),
    {
        Page {
            index,
            bounds,
            display_list: None,
            icon_handle: None,
            image_handle: None,
            inverted_image_handle: None,
        }
    }
}

/// A description never holds an empty text.
pub proof fn description_has_no_empty_text(answer: MetaAnswer, page_count: i32, path: Seq<u8>)
    ensures
        ({
            let info = described(answer, page_count, path);
            &&& info.title matches Some(t) ==> t.len() > 0
            &&& info.author matches Some(t) ==> t.len() > 0
            &&& info.subject matches Some(t) ==> t.len() > 0
            &&& info.creator matches Some(t) ==> t.len() > 0
            &&& info.producer matches Some(t) ==> t.len() > 0
        }),
{
}

/// Each text that the document gives of itself stands in the description under its own name,
/// unless it is empty; one that is absent or empty is left out. The number of pages and the
/// path are those of the document, and a file without a known size counts as empty.
pub proof fn each_text_keeps_its_name(
    reply: MetaReply,
    page_count: i32,
    path: Vec<u8>,
    meta: DocumentMeta,
)
    requires
        call_ensures(DocumentMeta::from_reply, (reply, page_count, path), meta),
    ensures
        reply.title matches Some(t) ==> if t@.len() > 0 {
            meta.title matches Some(u) && u@ == t@
        } else {
            meta.title is None
        },
        reply.title is None ==> meta.title is None,
        reply.author matches Some(t) ==> if t@.len() > 0 {
            meta.author matches Some(u) && u@ == t@
        } else {
            meta.author is None
        },
        reply.author is None ==> meta.author is None,
        reply.subject matches Some(t) ==> if t@.len() > 0 {
            meta.subject matches Some(u) && u@ == t@
        } else {
            meta.subject is None
        },
        reply.subject is None ==> meta.subject is None,
        reply.creator matches Some(t) ==> if t@.len() > 0 {
            meta.creator matches Some(u) && u@ == t@
        } else {
            meta.creator is None
        },
        reply.creator is None ==> meta.creator is None,
        reply.producer matches Some(t) ==> if t@.len() > 0 {
            meta.producer matches Some(u) && u@ == t@
        } else {
            meta.producer is None
        },
        reply.producer is None ==> meta.producer is None,
        meta.page_count == page_count,
        meta.file_path@ == path@,
        reply.file_size matches Some(size) ==> meta.file_size == size,
        reply.file_size is None ==> meta.file_size == 0,
{
}

/// A description holds each text of the answer that is not empty under its own name.
pub proof fn description_keeps_the_names(answer: MetaAnswer, page_count: i32, path: Seq<u8>)
    ensures
        ({
            let info = described(answer, page_count, path);
            &&& answer.title matches Some(t) ==> info.title == if t.len() > 0 {
                Some(t)
            } else {
                None
            }
            &&& answer.title is None ==> info.title is None
            &&& answer.author matches Some(t) ==> info.author == if t.len() > 0 {
                Some(t)
            } else {
                None
            }
            &&& answer.author is None ==> info.author is None
            &&& answer.subject matches Some(t) ==> info.subject == if t.len() > 0 {
                Some(t)
            } else {
                None
            }
            &&& answer.subject is None ==> info.subject is None
            &&& answer.creator matches Some(t) ==> info.creator == if t.len() > 0 {
                Some(t)
            } else {
                None
            }
            &&& answer.creator is None ==> info.creator is None
            &&& answer.producer matches Some(t) ==> info.producer == if t.len() > 0 {
                Some(t)
            } else {
                None
            }
            &&& answer.producer is None ==> info.producer is None
            &&& info.page_count == page_count
            &&& info.file_path == path
            &&& answer.file_size matches Some(size) ==> info.file_size == size
            &&& answer.file_size is None ==> info.file_size == 0
        }),
{
}

/// A new page has its number and its edges, and neither a record nor an image.
pub proof fn new_page_is_bare<D, I>(index: i32, bounds: PageBounds, page: Page<D, I>)
    requires
        call_ensures(Page::<D, I>::new, (index, bounds), page),
    ensures
        page.index == index,
        page.bounds == bounds,
        page.display_list is None,
        page.icon_handle is None,
        page.image_handle is None,
        page.inverted_image_handle is None,
        page == Page::<D, I>::blank(index, bounds),
{
}

} // verus!
