//! Loading a document, one outside step at a time.
//!
//! A [`Loader`] decides what is to be done next: it issues a [`Request`], is handed the
//! [`Reply`], and goes on from there. It first has the document opened and described, then
//! every page measured, then every page recorded, and reports to the viewer on the way. The
//! first failure is reported and ends the load; so does a viewer that no longer listens.

use crate::document::{described, DocumentMeta, MetaAnswer, MetaReply, Page, PageBounds};
use crate::message::{Message, Notice};
use crate::outside::{to_file_path, url_file_path};
use crate::text::{signed_decimal, signed_numeral};
use vstd::prelude::*;

verus! {

/// What a load waits for.
#[derive(Debug)]
pub enum Stage<D, I> {
    /// The document to be opened.
    Opening { path: Vec<u8> },
    /// The description of the document.
    Describing { path: Vec<u8>, page_count: i32 },
    /// The description to be taken by the viewer.
    SendingMeta { page_count: i32 },
    /// The edges of the page that follows `pages`.
    Measuring { page_count: i32, pages: Vec<Page<D, I>> },
    /// The pages to be taken by the viewer.
    SendingPages { page_count: i32 },
    /// The record of the page `index`.
    Listing { page_count: i32, index: i32 },
    /// The record of the page `index` to be taken by the viewer.
    SendingList { page_count: i32, index: i32 },
    /// Nothing.
    Finished,
}

/// What a [`Stage`] holds.
pub enum LoadState<D, I> {
    Opening { path: Seq<u8> },
    Describing { path: Seq<u8>, page_count: i32 },
    SendingMeta { page_count: i32 },
    Measuring { page_count: i32, pages: Seq<Page<D, I>> },
    SendingPages { page_count: i32 },
    Listing { page_count: i32, index: i32 },
    SendingList { page_count: i32, index: i32 },
    Finished,
}

impl<D, I> View for Stage<D, I> {
    type V = LoadState<D, I>;

    open spec fn view(&self) -> LoadState<D, I> {
        match *self {
            Stage::Opening { path } => LoadState::Opening { path: path@ },
            Stage::Describing { path, page_count } => LoadState::Describing {
                path: path@,
                page_count,
            },
            Stage::SendingMeta { page_count } => LoadState::SendingMeta { page_count },
            Stage::Measuring { page_count, pages } => LoadState::Measuring {
                page_count,
                pages: pages@,
            },
            Stage::SendingPages { page_count } => LoadState::SendingPages { page_count },
            Stage::Listing { page_count, index } => LoadState::Listing { page_count, index },
            Stage::SendingList { page_count, index } => LoadState::SendingList {
                page_count,
                index,
            },
            Stage::Finished => LoadState::Finished,
        }
    }
}

/// What is to be done next.
#[derive(Debug)]
pub enum Request<D, I> {
    /// Open the document at a path and count its pages.
    Open(Vec<u8>),
    /// Read the description of the document and the size of its file.
    Describe,
    /// Load a page and measure it.
    Measure(i32),
    /// Load a page and record it.
    List(i32),
    /// Hand a message to the viewer.
    Send(Message<D, I>),
    /// Stop: the load is over.
    Finish,
}

/// What a [`Request`] asks for.
pub enum Order<D, I> {
    Open(Seq<u8>),
    Describe,
    Measure(i32),
    List(i32),
    Send(Notice<D, I>),
    Finish,
}

impl<D, I> View for Request<D, I> {
    type V = Order<D, I>;

    open spec fn view(&self) -> Order<D, I> {
        match *self {
            Request::Open(path) => Order::Open(path@),
            Request::Describe => Order::Describe,
            Request::Measure(index) => Order::Measure(index),
            Request::List(index) => Order::List(index),
            Request::Send(message) => Order::Send(message@),
            Request::Finish => Order::Finish,
        }
    }
}

/// What came of a request. A failure carries its explanation.
#[derive(Debug)]
pub enum Reply<D> {
    /// The document is open and has this many pages.
    Opened(i32),
    /// The document could not be opened.
    NoDocument(String),
    /// The pages could not be counted.
    NoPageCount(String),
    /// The document was described.
    Described(MetaReply),
    /// The page was measured.
    Measured(PageBounds),
    /// The page was recorded.
    Listed(D),
    /// The page could not be loaded.
    NoPage(String),
    /// The page could not be measured.
    NoBounds(String),
    /// The page could not be recorded.
    NoList(String),
    /// The viewer has taken the message.
    Sent,
    /// The viewer no longer listens.
    Closed,
}

/// What a [`Reply`] holds.
pub enum Answer<D> {
    Opened(i32),
    NoDocument(Seq<char>),
    NoPageCount(Seq<char>),
    Described(MetaAnswer),
    Measured(PageBounds),
    Listed(D),
    NoPage(Seq<char>),
    NoBounds(Seq<char>),
    NoList(Seq<char>),
    Sent,
    Closed,
}

impl<D> View for Reply<D> {
    type V = Answer<D>;

    open spec fn view(&self) -> Answer<D> {
        match *self {
            Reply::Opened(count) => Answer::Opened(count),
            Reply::NoDocument(error) => Answer::NoDocument(error@),
            Reply::NoPageCount(error) => Answer::NoPageCount(error@),
            Reply::Described(reply) => Answer::Described(reply@),
            Reply::Measured(bounds) => Answer::Measured(bounds),
            Reply::Listed(list) => Answer::Listed(list),
            Reply::NoPage(error) => Answer::NoPage(error@),
            Reply::NoBounds(error) => Answer::NoBounds(error@),
            Reply::NoList(error) => Answer::NoList(error@),
            Reply::Sent => Answer::Sent,
            Reply::Closed => Answer::Closed,
        }
    }
}

/// The report that a page failed: `what` could not be done with page `index`.
pub open spec fn page_failure(what: Seq<char>, index: i32, error: Seq<char>) -> Seq<char> {
    what + signed_decimal(index as int) + ": "@ + error
}

/// Reporting `text` and stopping.
pub open spec fn failed<D, I>(text: Seq<char>) -> (LoadState<D, I>, Order<D, I>) {
    (LoadState::Finished, Order::Send(Notice::LoadError(text)))
}

/// Stopping without a word.
pub open spec fn over<D, I>() -> (LoadState<D, I>, Order<D, I>) {
    (LoadState::Finished, Order::Finish)
}

/// How a load of the document at `url` begins.
pub open spec fn begun<D, I>(url: Seq<char>) -> (LoadState<D, I>, Order<D, I>) {
    match url_file_path(url) {
        Some(path) => (LoadState::Opening { path }, Order::Open(path)),
        None => failed("Invalid URL path: ()"@),
    }
}

/// How a load goes on once `pages` are measured.
pub open spec fn measured_so_far<D, I>(page_count: i32, pages: Seq<Page<D, I>>) -> (
    LoadState<D, I>,
    Order<D, I>,
) {
    if pages.len() < page_count {
        (LoadState::Measuring { page_count, pages }, Order::Measure(pages.len() as i32))
    } else {
        (LoadState::SendingPages { page_count }, Order::Send(Notice::Pages(pages)))
    }
}

/// How a load goes on once the pages before `index` are recorded.
pub open spec fn listed_so_far<D, I>(page_count: i32, index: int) -> (
    LoadState<D, I>,
    Order<D, I>,
) {
    if index < page_count {
        (LoadState::Listing { page_count, index: index as i32 }, Order::List(index as i32))
    } else {
        over()
    }
}

/// How a load goes on. A reply that answers another request ends it.
pub open spec fn resumed<D, I>(state: LoadState<D, I>, answer: Answer<D>) -> (
    LoadState<D, I>,
    Order<D, I>,
) {
    match (state, answer) {
        (LoadState::Opening { path }, Answer::Opened(page_count)) => (
            LoadState::Describing { path, page_count },
            Order::Describe,
        ),
        (LoadState::Opening { .. }, Answer::NoDocument(error)) => failed(
            "Failed to open document: "@ + error,
        ),
        (LoadState::Opening { .. }, Answer::NoPageCount(error)) => failed(
            "Failed to get page count: "@ + error,
        ),
        (LoadState::Describing { path, page_count }, Answer::Described(meta)) => (
            LoadState::SendingMeta { page_count },
            Order::Send(Notice::DocumentMeta(described(meta, page_count, path))),
        ),
        (LoadState::SendingMeta { page_count }, Answer::Sent) => if page_count < 0 {
            failed("Invalid page count: out of range integral type conversion attempted"@)
        } else {
            measured_so_far(page_count, Seq::empty())
        },
        (LoadState::Measuring { page_count, pages }, Answer::Measured(bounds)) => measured_so_far(
            page_count,
            pages.push(Page::blank(pages.len() as i32, bounds)),
        ),
        (LoadState::Measuring { pages, .. }, Answer::NoPage(error)) => failed(
            page_failure("Failed to load page "@, pages.len() as i32, error),
        ),
        (LoadState::Measuring { pages, .. }, Answer::NoBounds(error)) => failed(
            page_failure("Failed to get bounds for page "@, pages.len() as i32, error),
        ),
        (LoadState::SendingPages { page_count }, Answer::Sent) => listed_so_far(page_count, 0),
        (LoadState::Listing { page_count, index }, Answer::Listed(list)) => (
            LoadState::SendingList { page_count, index },
            Order::Send(Notice::DisplayList(index, list)),
        ),
        (LoadState::Listing { index, .. }, Answer::NoPage(error)) => failed(
            page_failure("Failed to load page "@, index, error),
        ),
        (LoadState::Listing { index, .. }, Answer::NoList(error)) => failed(
            page_failure("Failed to create display list for page "@, index, error),
        ),
        (LoadState::SendingList { page_count, index }, Answer::Sent) => listed_so_far(
            page_count,
            index + 1,
        ),
        _ => over(),
    }
}

impl<D, I> LoadState<D, I> {
    /// Whether the pages done so far are among those of the document.
    pub open spec fn wf(self) -> bool {
        match self {
            LoadState::Measuring { page_count, pages } => pages.len() < page_count,
            LoadState::Listing { page_count, index } => 0 <= index < page_count,
            LoadState::SendingList { page_count, index } => 0 <= index < page_count,
            _ => true,
        }
    }
}

/// A load in progress.
#[derive(Debug)]
pub struct Loader<D, I> {
    pub stage: Stage<D, I>,
}

fn report<D, I>(what: &str, error: &str) -> (request: Request<D, I>)
    ensures
        request@ == Order::<D, I>::Send(Notice::LoadError(what@ + error@)),
{
    let mut text = what.to_owned();
    text.append(error);
    Request::Send(Message::LoadError(text))
}

fn report_page<D, I>(what: &str, index: i32, error: &str) -> (request: Request<D, I>)
    ensures
        request@ == Order::<D, I>::Send(
            Notice::LoadError(page_failure(what@, index, error@)),
        ),
{
    let mut text = what.to_owned();
    let numeral = signed_numeral(index);
    text.append(numeral.as_str());
    text.append(": ");
    text.append(error);
    Request::Send(Message::LoadError(text))
}

fn measure_next<D, I>(page_count: i32, pages: Vec<Page<D, I>>) -> (next: (
    Stage<D, I>,
    Request<D, I>,
))
    requires
        pages@.len() <= page_count,
    ensures
        (next.0@, next.1@) == measured_so_far(page_count, pages@),
        next.0@.wf(),
{
    let done: i32 = pages.len() as i32;
    if done < page_count {
        (Stage::Measuring { page_count, pages }, Request::Measure(done))
    } else {
        (Stage::SendingPages { page_count }, Request::Send(Message::Pages(pages)))
    }
}

fn list_next<D, I>(page_count: i32, index: i32) -> (next: (Stage<D, I>, Request<D, I>))
    requires
        0 <= index,
    ensures
        (next.0@, next.1@) == listed_so_far::<D, I>(page_count, index as int),
        next.0@.wf(),
{
    if index < page_count {
        (Stage::Listing { page_count, index }, Request::List(index))
    } else {
        (Stage::Finished, Request::Finish)
    }
}

fn go_on<D, I>(stage: Stage<D, I>, reply: Reply<D>) -> (next: (Stage<D, I>, Request<D, I>))
    requires
        stage@.wf(),
    ensures
        (next.0@, next.1@) == resumed(stage@, reply@),
        next.0@.wf(),
{
    match stage {
        Stage::Opening { path } => match reply {
            Reply::Opened(page_count) => (
                Stage::Describing { path, page_count },
                Request::Describe,
            ),
            Reply::NoDocument(error) => (
                Stage::Finished,
                report("Failed to open document: ", error.as_str()),
            ),
            Reply::NoPageCount(error) => (
                Stage::Finished,
                report("Failed to get page count: ", error.as_str()),
            ),
            _ => (Stage::Finished, Request::Finish),
        },
        Stage::Describing { path, page_count } => match reply {
            Reply::Described(meta) => (
                Stage::SendingMeta { page_count },
                Request::Send(
                    Message::DocumentMeta(DocumentMeta::from_reply(meta, page_count, path)),
                ),
            ),
            _ => (Stage::Finished, Request::Finish),
        },
        Stage::SendingMeta { page_count } => match reply {
            Reply::Sent => {
                if page_count < 0 {
                    (
                        Stage::Finished,
                        Request::Send(
                            Message::LoadError(
                                "Invalid page count: out of range integral type conversion attempted".to_owned(),
                            ),
                        ),
                    )
                } else {
                    measure_next(page_count, Vec::new())
                }
            },
            _ => (Stage::Finished, Request::Finish),
        },
        Stage::Measuring { page_count, pages } => {
            let index: i32 = pages.len() as i32;
            match reply {
                Reply::Measured(bounds) => {
                    let mut pages = pages;
                    pages.push(Page::new(index, bounds));
                    measure_next(page_count, pages)
                },
                Reply::NoPage(error) => (
                    Stage::Finished,
                    report_page("Failed to load page ", index, error.as_str()),
                ),
                Reply::NoBounds(error) => (
                    Stage::Finished,
                    report_page("Failed to get bounds for page ", index, error.as_str()),
                ),
                _ => (Stage::Finished, Request::Finish),
            }
        },
        Stage::SendingPages { page_count } => match reply {
            Reply::Sent => list_next(page_count, 0),
            _ => (Stage::Finished, Request::Finish),
        },
        Stage::Listing { page_count, index } => match reply {
            Reply::Listed(list) => (
                Stage::SendingList { page_count, index },
                Request::Send(Message::DisplayList(index, list)),
            ),
            Reply::NoPage(error) => (
                Stage::Finished,
                report_page("Failed to load page ", index, error.as_str()),
            ),
            Reply::NoList(error) => (
                Stage::Finished,
                report_page("Failed to create display list for page ", index, error.as_str()),
            ),
            _ => (Stage::Finished, Request::Finish),
        },
        Stage::SendingList { page_count, index } => match reply {
            Reply::Sent => list_next(page_count, index + 1),
            _ => (Stage::Finished, Request::Finish),
        },
        Stage::Finished => (Stage::Finished, Request::Finish),
    }
}

impl<D, I> Loader<D, I> {
    /// Begins to load the document at `url`.
    pub fn start(url: &str) -> (begin: (Self, Request<D, I>))
        ensures
            (begin.0.stage@, begin.1@) == begun::<D, I>(url@),
            begin.0.stage@.wf(),
    {
        Self::start_at(to_file_path(url))
    }

    /// Begins to load the document at `path`, where its URL stands for a path.
    pub fn start_at(path: Option<Vec<u8>>) -> (begin: (Self, Request<D, I>))
        ensures
            match path {
                Some(p) => begin.0.stage@ == (LoadState::<D, I>::Opening { path: p@ })
                    && begin.1@ == Order::<D, I>::Open(p@),
                None => (begin.0.stage@, begin.1@) == failed::<D, I>("Invalid URL path: ()"@),
            },
            begin.0.stage@.wf(),
    {
        match path {
            Some(path) => {
                let copy = path.clone();
                assert(copy@ =~= path@);
                (Loader { stage: Stage::Opening { path: copy } }, Request::Open(path))
            },
            None => (
                Loader { stage: Stage::Finished },
                Request::Send(Message::LoadError("Invalid URL path: ()".to_owned())),
            ),
        }
    }

    /// Takes the reply to the last request and says what is to be done next.
    pub fn step(&mut self, reply: Reply<D>) -> (request: Request<D, I>)
        requires
            old(self).stage@.wf(),
        ensures
            (final(self).stage@, request@) == resumed(old(self).stage@, reply@),
            final(self).stage@.wf(),
    {
        let mut stage = Stage::Finished;
        std::mem::swap(&mut self.stage, &mut stage);
        let (next, request) = go_on(stage, reply);
        self.stage = next;
        request
    }
}

} // verus!
