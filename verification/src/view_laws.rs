//! What the view of a value tells of it.

use crate::document::{DocumentMeta, MetaReply};
use crate::loader::{Answer, LoadState, Order, Reply, Request, Stage};
use crate::message::{Key, Message, Notice, Stroke};
use crate::viewer::App;
use vstd::prelude::*;

verus! {

/// The view of a viewer has each of its fields under the same name.
pub proof fn viewer_view_is_faithful<D, I>(app: App<D, I>)
    ensures
        app@.content_viewport == app.content_viewport,
        app@.fullscreen == app.fullscreen,
        app@.show_headerbar == app.show_headerbar,
        app@.middle_drag_pos == app.middle_drag_pos,
        app@.modifiers == app.modifiers,
        app@.natural_scroll == app.natural_scroll,
        app@.nav_viewport == app.nav_viewport,
        app@.page_scroll == app.page_scroll,
        app@.pdf_background == app.pdf_background,
        app@.properties_open == app.properties_open,
        app@.search_active == app.search_active,
        app@.zoom == app.zoom,
        app@.nav == app.nav_model@,
        app@.search_term == app.search_term@,
        app.url matches Some(t) ==> app@.url == Some(t@),
        app.url is None ==> app@.url is None,
        app.load_error matches Some(t) ==> app@.load_error == Some(t@),
        app.load_error is None ==> app@.load_error is None,
        app.document_meta matches Some(t) ==> app@.document_meta == Some(t@),
        app.document_meta is None ==> app@.document_meta is None,
        app@.pdf_background_names.len() == app.pdf_background_names@.len(),
        forall|i: int|
            0 <= i < app.pdf_background_names@.len() ==> #[trigger] app@.pdf_background_names[i]
                == app.pdf_background_names@[i]@,
        app@.zoom_names.len() == app.zoom_names@.len(),
        forall|i: int|
            0 <= i < app.zoom_names@.len() ==> #[trigger] app@.zoom_names[i]
                == app.zoom_names@[i]@,
{
}

/// The view of a description has each of its fields under the same name.
pub proof fn description_view_is_faithful(meta: DocumentMeta)
    ensures
        meta.title matches Some(t) ==> meta@.title == Some(t@),
        meta.title is None ==> meta@.title is None,
        meta.author matches Some(t) ==> meta@.author == Some(t@),
        meta.author is None ==> meta@.author is None,
        meta.subject matches Some(t) ==> meta@.subject == Some(t@),
        meta.subject is None ==> meta@.subject is None,
        meta.creator matches Some(t) ==> meta@.creator == Some(t@),
        meta.creator is None ==> meta@.creator is None,
        meta.producer matches Some(t) ==> meta@.producer == Some(t@),
        meta.producer is None ==> meta@.producer is None,
        meta@.page_count == meta.page_count,
        meta@.file_path == meta.file_path@,
        meta@.file_size == meta.file_size,
{
}

/// The view of what a document says of itself has each of its entries under the same name.
pub proof fn answer_view_is_faithful(reply: MetaReply)
    ensures
        reply.title matches Some(t) ==> reply@.title == Some(t@),
        reply.title is None ==> reply@.title is None,
        reply.author matches Some(t) ==> reply@.author == Some(t@),
        reply.author is None ==> reply@.author is None,
        reply.subject matches Some(t) ==> reply@.subject == Some(t@),
        reply.subject is None ==> reply@.subject is None,
        reply.creator matches Some(t) ==> reply@.creator == Some(t@),
        reply.creator is None ==> reply@.creator is None,
        reply.producer matches Some(t) ==> reply@.producer == Some(t@),
        reply.producer is None ==> reply@.producer is None,
        reply@.file_size == reply.file_size,
{
}

/// The view of a message says what the message says.
pub proof fn message_view_is_faithful<D, I>(message: Message<D, I>)
    ensures
        message matches Message::ContentScroll(a) ==> message@ == Notice::<D, I>::ContentScroll(a),
        message matches Message::DisplayList(a, b) ==> message@
            == Notice::<D, I>::DisplayList(a, b),
        message matches Message::DocumentMeta(a) ==> message@ == Notice::<D, I>::DocumentMeta(a@),
        message matches Message::FileLoad(a) ==> message@ == Notice::<D, I>::FileLoad(a@),
        message is FileOpen ==> message@ == Notice::<D, I>::FileOpen,
        message is Fullscreen ==> message@ == Notice::<D, I>::Fullscreen,
        message matches Message::Key(a, b) ==> message@ == Notice::<D, I>::Key(a, b@),
        message matches Message::LoadError(a) ==> message@ == Notice::<D, I>::LoadError(a@),
        message is MiddleDragRelease ==> message@ == Notice::<D, I>::MiddleDragRelease,
        message matches Message::MiddleDragStart(a) ==> message@
            == Notice::<D, I>::MiddleDragStart(a),
        message matches Message::MiddleDragMove(a) ==> message@
            == Notice::<D, I>::MiddleDragMove(a),
        message matches Message::ModifiersChanged(a) ==> message@
            == Notice::<D, I>::ModifiersChanged(a),
        message matches Message::NavScroll(a) ==> message@ == Notice::<D, I>::NavScroll(a),
        message matches Message::NavSelect(a) ==> message@ == Notice::<D, I>::NavSelect(a),
        message is NaturalScrollToggle ==> message@ == Notice::<D, I>::NaturalScrollToggle,
        message matches Message::PageRendered(a, b, c) ==> message@
            == Notice::<D, I>::PageRendered(a, b, c),
        message matches Message::PageScroll(a) ==> message@ == Notice::<D, I>::PageScroll(a),
        message matches Message::Pages(a) ==> message@ == Notice::<D, I>::Pages(a@),
        message matches Message::PdfBackgroundChange(a) ==> message@
            == Notice::<D, I>::PdfBackgroundChange(a),
        message is PropertiesToggle ==> message@ == Notice::<D, I>::PropertiesToggle,
        message is SearchActivate ==> message@ == Notice::<D, I>::SearchActivate,
        message is SearchClear ==> message@ == Notice::<D, I>::SearchClear,
        message matches Message::SearchInput(a) ==> message@ == Notice::<D, I>::SearchInput(a@),
        message matches Message::SearchResults(a, b) ==> message@
            == Notice::<D, I>::SearchResults(a, b@),
        message matches Message::Thumbnail(a, b) ==> message@ == Notice::<D, I>::Thumbnail(a, b),
        message matches Message::ZoomDropdown(a) ==> message@ == Notice::<D, I>::ZoomDropdown(a),
        message matches Message::ZoomScroll(a) ==> message@ == Notice::<D, I>::ZoomScroll(a),
{
}

/// The view of a key tells which key it is, and what it types.
pub proof fn key_view_is_faithful(key: Key)
    ensures
        key is ArrowUp ==> key@ == Stroke::ArrowUp,
        key is ArrowLeft ==> key@ == Stroke::ArrowLeft,
        key is PageUp ==> key@ == Stroke::PageUp,
        key is ArrowDown ==> key@ == Stroke::ArrowDown,
        key is ArrowRight ==> key@ == Stroke::ArrowRight,
        key is PageDown ==> key@ == Stroke::PageDown,
        key is Enter ==> key@ == Stroke::Enter,
        key is Escape ==> key@ == Stroke::Escape,
        key is Other ==> key@ == Stroke::Other,
        key matches Key::Character(text) ==> key@ == Stroke::Character(text@),
{
}

/// The view of a reply tells what came of the request.
pub proof fn reply_view_is_faithful<D>(reply: Reply<D>)
    ensures
        reply matches Reply::Opened(a) ==> reply@ == Answer::<D>::Opened(a),
        reply matches Reply::NoDocument(a) ==> reply@ == Answer::<D>::NoDocument(a@),
        reply matches Reply::NoPageCount(a) ==> reply@ == Answer::<D>::NoPageCount(a@),
        reply matches Reply::Described(a) ==> reply@ == Answer::<D>::Described(a@),
        reply matches Reply::Measured(a) ==> reply@ == Answer::<D>::Measured(a),
        reply matches Reply::Listed(a) ==> reply@ == Answer::<D>::Listed(a),
        reply matches Reply::NoPage(a) ==> reply@ == Answer::<D>::NoPage(a@),
        reply matches Reply::NoBounds(a) ==> reply@ == Answer::<D>::NoBounds(a@),
        reply matches Reply::NoList(a) ==> reply@ == Answer::<D>::NoList(a@),
        reply is Sent ==> reply@ == Answer::<D>::Sent,
        reply is Closed ==> reply@ == Answer::<D>::Closed,
{
}

/// The view of a request tells what is to be done.
pub proof fn request_view_is_faithful<D, I>(request: Request<D, I>)
    ensures
        request matches Request::Open(a) ==> request@ == Order::<D, I>::Open(a@),
        request is Describe ==> request@ == Order::<D, I>::Describe,
        request matches Request::Measure(a) ==> request@ == Order::<D, I>::Measure(a),
        request matches Request::List(a) ==> request@ == Order::<D, I>::List(a),
        request matches Request::Send(a) ==> request@ == Order::<D, I>::Send(a@),
        request is Finish ==> request@ == Order::<D, I>::Finish,
{
}

/// The view of a stage tells what the load waits for.
pub proof fn stage_view_is_faithful<D, I>(stage: Stage<D, I>)
    ensures
        stage matches Stage::Opening { path } ==> stage@ == (LoadState::<D, I>::Opening {
            path: path@,
        }),
        stage matches Stage::Describing { path, page_count } ==> stage@ == (LoadState::<
            D,
            I,
        >::Describing { path: path@, page_count }),
        stage matches Stage::SendingMeta { page_count } ==> stage@ == (LoadState::<
            D,
            I,
        >::SendingMeta { page_count }),
        stage matches Stage::Measuring { page_count, pages } ==> stage@ == (LoadState::<
            D,
            I,
        >::Measuring { page_count, pages: pages@ }),
        stage matches Stage::SendingPages { page_count } ==> stage@ == (LoadState::<
            D,
            I,
        >::SendingPages { page_count }),
        stage matches Stage::Listing { page_count, index } ==> stage@ == (LoadState::<
            D,
            I,
        >::Listing { page_count, index }),
        stage matches Stage::SendingList { page_count, index } ==> stage@ == (LoadState::<
            D,
            I,
        >::SendingList { page_count, index }),
        stage is Finished ==> stage@ == LoadState::<D, I>::Finished,
{
}

} // verus!
