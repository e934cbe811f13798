//! What a load does with each reply, in its own fields.

use crate::document::{MetaReply, Page, PageBounds};
use crate::loader::{Loader, Reply, Request, Stage};
use crate::message::Message;
use crate::outside::url_file_path;
use crate::text::signed_decimal;
use vstd::prelude::*;

verus! {

/// A load begins by opening the document at its path. Without a path there is only an error
/// to report.
pub proof fn load_begins_with_the_path<D, I>(
    path: Option<Vec<u8>>,
    begin: (Loader<D, I>, Request<D, I>),
)
    requires
        call_ensures(Loader::<D, I>::start_at, (path,), begin),
    ensures
        path matches Some(p) ==> {
            &&& begin.1 matches Request::Open(opened)
            &&& opened@ == p@
            &&& begin.0.stage matches Stage::Opening { path: kept }
            &&& kept@ == p@
        },
        path is None ==> {
            &&& begin.1 matches Request::Send(Message::LoadError(text))
            &&& text@ == "Invalid URL path: ()"@
            &&& begin.0.stage is Finished
        },
{
}

/// The path that a load begins with is that of its URL.
pub proof fn load_begins_with_the_url<D, I>(url: &str, begin: (Loader<D, I>, Request<D, I>))
    requires
        call_ensures(Loader::<D, I>::start, (url,), begin),
    ensures
        url_file_path(url@) matches Some(p) ==> {
            &&& begin.1 matches Request::Open(opened)
            &&& opened@ == p
            &&& begin.0.stage matches Stage::Opening { path: kept }
            &&& kept@ == p
        },
        url_file_path(url@) is None ==> {
            &&& begin.1 matches Request::Send(Message::LoadError(text))
            &&& text@ == "Invalid URL path: ()"@
            &&& begin.0.stage is Finished
        },
{
}

/// A document that was opened is to be described. Its path and the number of its pages are kept.
pub proof fn opened_document_is_described<D, I>(
    loader: &mut Loader<D, I>,
    path: Vec<u8>,
    page_count: i32,
    request: Request<D, I>,
)
    requires
        call_ensures(Loader::<D, I>::step, (loader, Reply::Opened(page_count)), request),
        old(loader).stage == (Stage::<D, I>::Opening { path }),
    ensures
        request is Describe,
        final(loader).stage matches Stage::Describing { path: kept, page_count: count } && kept@
            == path@ && count == page_count,
{
}

/// A document that cannot be opened is reported with the explanation, and the load is over.
pub proof fn unopened_document_is_reported<D, I>(
    loader: &mut Loader<D, I>,
    path: Vec<u8>,
    error: String,
    request: Request<D, I>,
)
    requires
        call_ensures(Loader::<D, I>::step, (loader, Reply::NoDocument(error)), request),
        old(loader).stage == (Stage::<D, I>::Opening { path }),
    ensures
        request matches Request::Send(Message::LoadError(text)) && text@
            == "Failed to open document: "@ + error@,
        final(loader).stage is Finished,
{
}

/// Pages that cannot be counted are reported with the explanation, and the load is over.
pub proof fn uncounted_pages_are_reported<D, I>(
    loader: &mut Loader<D, I>,
    path: Vec<u8>,
    error: String,
    request: Request<D, I>,
)
    requires
        call_ensures(Loader::<D, I>::step, (loader, Reply::NoPageCount(error)), request),
        old(loader).stage == (Stage::<D, I>::Opening { path }),
    ensures
        request matches Request::Send(Message::LoadError(text)) && text@
            == "Failed to get page count: "@ + error@,
        final(loader).stage is Finished,
{
}

/// The viewer is told of the description: of each text that is not empty under its own name, of
/// the number of pages, of the path, and of the size of the file, which is zero where it is not
/// known.
pub proof fn description_is_told<D, I>(
    loader: &mut Loader<D, I>,
    path: Vec<u8>,
    page_count: i32,
    reply: MetaReply,
    request: Request<D, I>,
)
    requires
        call_ensures(Loader::<D, I>::step, (loader, Reply::Described(reply)), request),
        old(loader).stage == (Stage::<D, I>::Describing { path, page_count }),
    ensures
        ({
            &&& request matches Request::Send(Message::DocumentMeta(meta))
            &&& reply.title matches Some(t) ==> if t@.len() > 0 {
                meta.title matches Some(u) && u@ == t@
            } else {
                meta.title is None
            }
            &&& reply.title is None ==> meta.title is None
            &&& reply.author matches Some(t) ==> if t@.len() > 0 {
                meta.author matches Some(u) && u@ == t@
            } else {
                meta.author is None
            }
            &&& reply.author is None ==> meta.author is None
            &&& reply.subject matches Some(t) ==> if t@.len() > 0 {
                meta.subject matches Some(u) && u@ == t@
            } else {
                meta.subject is None
            }
            &&& reply.subject is None ==> meta.subject is None
            &&& reply.creator matches Some(t) ==> if t@.len() > 0 {
                meta.creator matches Some(u) && u@ == t@
            } else {
                meta.creator is None
            }
            &&& reply.creator is None ==> meta.creator is None
            &&& reply.producer matches Some(t) ==> if t@.len() > 0 {
                meta.producer matches Some(u) && u@ == t@
            } else {
                meta.producer is None
            }
            &&& reply.producer is None ==> meta.producer is None
            &&& meta.page_count == page_count
            &&& meta.file_path@ == path@
            &&& reply.file_size matches Some(size) ==> meta.file_size == size
            &&& reply.file_size is None ==> meta.file_size == 0
        }),
        final(loader).stage == (Stage::<D, I>::SendingMeta { page_count }),
{
}

/// Once the description is taken the first page is to be measured. A document without pages is
/// told as such, and a negative number of pages is reported.
pub proof fn first_page_is_measured<D, I>(
    loader: &mut Loader<D, I>,
    page_count: i32,
    request: Request<D, I>,
)
    requires
        call_ensures(Loader::<D, I>::step, (loader, Reply::Sent), request),
        old(loader).stage == (Stage::<D, I>::SendingMeta { page_count }),
    ensures
        page_count > 0 ==> {
            &&& request == Request::<D, I>::Measure(0)
            &&& final(loader).stage matches Stage::Measuring { page_count: count, pages }
            &&& count == page_count
            &&& pages@.len() == 0
        },
        page_count == 0 ==> {
            &&& request matches Request::Send(Message::Pages(pages))
            &&& pages@.len() == 0
            &&& final(loader).stage == (Stage::<D, I>::SendingPages { page_count })
        },
        page_count < 0 ==> {
            &&& request matches Request::Send(Message::LoadError(text))
            &&& text@
                == "Invalid page count: out of range integral type conversion attempted"@
            &&& final(loader).stage is Finished
        },
{
}

/// A page that was measured is kept behind the ones before, with its number and its edges and
/// nothing else. The following page is then to be measured; after the last one the viewer is told
/// of all of them.
pub proof fn measured_page_is_kept<D, I>(
    loader: &mut Loader<D, I>,
    page_count: i32,
    pages: Vec<Page<D, I>>,
    bounds: PageBounds,
    request: Request<D, I>,
)
    requires
        call_ensures(Loader::<D, I>::step, (loader, Reply::Measured(bounds)), request),
        old(loader).stage == (Stage::<D, I>::Measuring { page_count, pages }),
        pages@.len() < page_count,
    ensures
        ({
            let page = Page::<D, I> {
                index: pages@.len() as i32,
                bounds,
                display_list: None,
                icon_handle: None,
                image_handle: None,
                inverted_image_handle: None,
            };
            &&& pages@.len() + 1 < page_count ==> {
                &&& request == Request::<D, I>::Measure((pages@.len() + 1) as i32)
                &&& final(loader).stage matches Stage::Measuring { page_count: count, pages: kept }
                &&& count == page_count
                &&& kept@ == pages@.push(page)
            }
            &&& pages@.len() + 1 == page_count ==> {
                &&& request matches Request::Send(Message::Pages(told))
                &&& told@ == pages@.push(page)
                &&& final(loader).stage == (Stage::<D, I>::SendingPages { page_count })
            }
        }),
{
}

/// A page that cannot be measured is reported by its number with the explanation, and the load is
/// over.
pub proof fn unmeasured_page_is_reported<D, I>(
    loader: &mut Loader<D, I>,
    page_count: i32,
    pages: Vec<Page<D, I>>,
    error: String,
    request: Request<D, I>,
)
    requires
        call_ensures(Loader::<D, I>::step, (loader, Reply::NoBounds(error)), request),
        old(loader).stage == (Stage::<D, I>::Measuring { page_count, pages }),
        pages@.len() < page_count,
    ensures
        request matches Request::Send(Message::LoadError(text)) && text@
            == "Failed to get bounds for page "@ + signed_decimal(pages@.len() as int) + ": "@
            + error@,
        final(loader).stage is Finished,
{
}

/// A page that cannot be loaded to be measured is reported by its number, and the load is
/// over.
pub proof fn page_unloaded_to_measure_is_reported<D, I>(
    loader: &mut Loader<D, I>,
    page_count: i32,
    pages: Vec<Page<D, I>>,
    error: String,
    request: Request<D, I>,
)
    requires
        call_ensures(Loader::<D, I>::step, (loader, Reply::NoPage(error)), request),
        old(loader).stage == (Stage::<D, I>::Measuring { page_count, pages }),
        pages@.len() < page_count,
    ensures
        request matches Request::Send(Message::LoadError(text)) && text@
            == "Failed to load page "@ + signed_decimal(pages@.len() as int) + ": "@ + error@,
        final(loader).stage is Finished,
{
}

/// Once the pages are taken the first page is to be recorded, if there is one.
pub proof fn first_page_is_recorded<D, I>(
    loader: &mut Loader<D, I>,
    page_count: i32,
    request: Request<D, I>,
)
    requires
        call_ensures(Loader::<D, I>::step, (loader, Reply::Sent), request),
        old(loader).stage == (Stage::<D, I>::SendingPages { page_count }),
    ensures
        page_count > 0 ==> request == Request::<D, I>::List(0) && final(loader).stage == (Stage::<
            D,
            I,
        >::Listing { page_count, index: 0 }),
        page_count <= 0 ==> request is Finish && final(loader).stage is Finished,
{
}

/// The viewer is told of the record of a page by the number of the page.
pub proof fn record_is_told<D, I>(
    loader: &mut Loader<D, I>,
    page_count: i32,
    index: i32,
    list: D,
    request: Request<D, I>,
)
    requires
        call_ensures(Loader::<D, I>::step, (loader, Reply::Listed(list)), request),
        old(loader).stage == (Stage::<D, I>::Listing { page_count, index }),
    ensures
        request matches Request::Send(Message::DisplayList(number, record)) && number == index
            && record == list,
        final(loader).stage == (Stage::<D, I>::SendingList { page_count, index }),
{
}

/// A page that cannot be recorded is reported by its number with the explanation, and the load is
/// over.
pub proof fn unrecorded_page_is_reported<D, I>(
    loader: &mut Loader<D, I>,
    page_count: i32,
    index: i32,
    error: String,
    request: Request<D, I>,
)
    requires
        call_ensures(Loader::<D, I>::step, (loader, Reply::NoList(error)), request),
        old(loader).stage == (Stage::<D, I>::Listing { page_count, index }),
    ensures
        request matches Request::Send(Message::LoadError(text)) && text@
            == "Failed to create display list for page "@ + signed_decimal(index as int) + ": "@
            + error@,
        final(loader).stage is Finished,
{
}

/// A page that cannot be loaded to be recorded is reported by its number, and the load is
/// over.
pub proof fn page_unloaded_to_record_is_reported<D, I>(
    loader: &mut Loader<D, I>,
    page_count: i32,
    index: i32,
    error: String,
    request: Request<D, I>,
)
    requires
        call_ensures(Loader::<D, I>::step, (loader, Reply::NoPage(error)), request),
        old(loader).stage == (Stage::<D, I>::Listing { page_count, index }),
    ensures
        request matches Request::Send(Message::LoadError(text)) && text@
            == "Failed to load page "@ + signed_decimal(index as int) + ": "@ + error@,
        final(loader).stage is Finished,
{
}

/// Once a record is taken the following page is to be recorded. After the last one the load is
/// over.
pub proof fn following_page_is_recorded<D, I>(
    loader: &mut Loader<D, I>,
    page_count: i32,
    index: i32,
    request: Request<D, I>,
)
    requires
        call_ensures(Loader::<D, I>::step, (loader, Reply::Sent), request),
        old(loader).stage == (Stage::<D, I>::SendingList { page_count, index }),
        0 <= index < page_count,
    ensures
        index + 1 < page_count ==> request == Request::<D, I>::List((index + 1) as i32)
            && final(loader).stage == (Stage::<D, I>::Listing {
            page_count,
            index: (index + 1) as i32,
        }),
        index + 1 == page_count ==> request is Finish && final(loader).stage is Finished,
{
}

/// A reply that does not answer the last request ends the load without a word, and so does a
/// viewer that no longer listens. A load that is over stays so.
pub proof fn unsuited_reply_ends_the_load<D, I>(
    loader: &mut Loader<D, I>,
    reply: Reply<D>,
    request: Request<D, I>,
)
    requires
        call_ensures(Loader::<D, I>::step, (loader, reply), request),
        ({
            ||| old(loader).stage is Opening && !(reply is Opened || reply is NoDocument
                || reply is NoPageCount)
            ||| old(loader).stage is Describing && !(reply is Described)
            ||| old(loader).stage is SendingMeta && !(reply is Sent)
            ||| old(loader).stage is Measuring && !(reply is Measured || reply is NoPage
                || reply is NoBounds)
            ||| old(loader).stage is SendingPages && !(reply is Sent)
            ||| old(loader).stage is Listing && !(reply is Listed || reply is NoPage
                || reply is NoList)
            ||| old(loader).stage is SendingList && !(reply is Sent)
            ||| old(loader).stage is Finished
            ||| reply is Closed
        }),
    ensures
        request is Finish,
        final(loader).stage is Finished,
{
}

} // verus!
