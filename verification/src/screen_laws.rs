//! What is shown and what runs beside the viewer, in the viewer's own fields.

use crate::background::{Color, PdfBackground};
use crate::coord::{Coord, Point};
use crate::document::Page;
use crate::message::{Message, Quad};
use crate::nav::{Entity, Items};
use crate::properties::{pane, section_texts};
use crate::screen::{
    drag_target, entry_infos, recorded, search_report, HeaderEnd, HeaderStart, NavBar, NavEntry,
    PageTask, Screen, Search, Subscriptions, ThumbnailEdges, Wheel, WheelUnit, NAV_MAX_WIDTH,
    RENDER_SCALE, SEARCH_LIMIT, THUMBNAIL_WIDTH,
};
use crate::viewer::{App, Task};
use crate::zoom::Zoom;
use vstd::prelude::*;

verus! {

/// A viewer starts without a document but with its URL, in a window with a header bar, with
/// the page fitted on the system's background, with natural scrolling, and without a search.
pub proof fn viewer_starts_at_rest<D, I>(url: Option<String>, start: (App<D, I>, Vec<PageTask>))
    requires
        call_ensures(App::<D, I>::init, (url,), start),
    ensures
        url matches Some(u) ==> (start.0.url matches Some(v) && v@ == u@),
        url is None ==> start.0.url is None,
        start.0.content_viewport is None,
        start.0.nav_viewport is None,
        !start.0.fullscreen,
        start.0.show_headerbar,
        start.0.load_error is None,
        start.0.middle_drag_pos is None,
        !start.0.modifiers.control,
        start.0.natural_scroll,
        start.0.nav_model.items@.len() == 0,
        start.0.nav_model.active is None,
        start.0.page_scroll == 0,
        start.0.pdf_background == PdfBackground::SystemTheme,
        !start.0.properties_open,
        start.0.document_meta is None,
        !start.0.search_active,
        start.0.search_term@.len() == 0,
        start.0.zoom == Zoom::FitBoth,
        start.1@.len() == 0,
{
}

/// The menus of a viewer have the names of what they offer, from the start.
pub proof fn menus_start_complete<D, I>(
    url: Option<String>,
    start: (App<D, I>, Vec<PageTask>),
    i: int,
)
    requires
        call_ensures(App::<D, I>::init, (url,), start),
    ensures
        start.0.zoom_names@.len() == 23,
        start.0.pdf_background_names@.len() == 4,
        0 <= i < 23 ==> start.0.zoom_names@[i]@ == Zoom::offered()[i].name(),
        0 <= i < 4 ==> start.0.pdf_background_names@[i]@ == PdfBackground::offered()[i].name(),
{
    let zooms = crate::text::texts(start.0.zoom_names@);
    let modes = crate::text::texts(start.0.pdf_background_names@);
    assert(zooms.len() == start.0.zoom_names@.len());
    assert(modes.len() == start.0.pdf_background_names@.len());
    if 0 <= i < 23 {
        assert(zooms[i] == start.0.zoom_names@[i]@);
    }
    if 0 <= i < 4 {
        assert(modes[i] == start.0.pdf_background_names@[i]@);
    }
}

/// Whether `app` shows the page at `slot` of its list.
pub open spec fn shows<D, I>(app: App<D, I>, slot: int) -> bool {
    &&& app.nav_model.active matches Some(entity)
    &&& entity.generation == app.nav_model.generation
    &&& entity.slot == slot
    &&& 0 <= slot < app.nav_model.items@.len()
}

/// Whether `app` shows no page.
pub open spec fn shows_none<D, I>(app: App<D, I>) -> bool {
    app.nav_model.active matches Some(entity) ==> entity.generation != app.nav_model.generation
        || entity.slot >= app.nav_model.items@.len()
}

/// A thumbnail that begins above what can be seen is scrolled to by its upper edge. One that
/// ends below it is scrolled to by its lower edge. One in sight, or of which it is not known
/// where it stands, is left.
pub proof fn thumbnail_comes_into_sight<D, I>(
    app: &App<D, I>,
    edges: Option<ThumbnailEdges>,
    slot: int,
    tasks: Vec<PageTask>,
    y: Coord,
)
    requires
        call_ensures(App::<D, I>::update_page, (app, edges), tasks),
        shows(*app, slot),
    ensures
        match (app.nav_viewport, edges) {
            (Some(viewport), Some(e)) => {
                &&& e.top.below(viewport.offset.y) ==> (tasks@.contains(PageTask::ScrollNav(y))
                    <==> y == e.top)
                &&& !e.top.below(viewport.offset.y) && e.view_bottom.below(e.bottom) ==> (
                tasks@.contains(PageTask::ScrollNav(y)) <==> y == e.aligned)
                &&& !e.top.below(viewport.offset.y) && !e.view_bottom.below(e.bottom)
                    ==> !tasks@.contains(PageTask::ScrollNav(y))
            },
            _ => !tasks@.contains(PageTask::ScrollNav(y)),
        },
{
    if let (Some(viewport), Some(e)) = (app.nav_viewport, edges) {
        if e.top.below(viewport.offset.y) {
            assert(tasks@[0] == PageTask::ScrollNav(e.top));
        } else if e.view_bottom.below(e.bottom) {
            assert(tasks@[0] == PageTask::ScrollNav(e.aligned));
        }
    }
}

/// The page that is shown is to be rendered where it is recorded and has no image yet, and no
/// other page is. That comes last, and nothing else than scrolling comes before it.
pub proof fn shown_page_is_rendered<D, I>(
    app: &App<D, I>,
    edges: Option<ThumbnailEdges>,
    slot: int,
    tasks: Vec<PageTask>,
    entity: Entity,
)
    requires
        call_ensures(App::<D, I>::update_page, (app, edges), tasks),
        shows(*app, slot),
    ensures
        tasks@.contains(PageTask::RenderPage(entity)) <==> {
            &&& entity.generation == app.nav_model.generation
            &&& entity.slot == slot
            &&& app.nav_model.items@[slot].display_list is Some
            &&& app.nav_model.items@[slot].image_handle is None
        },
        tasks@.len() <= 2,
        tasks@.len() == 2 ==> tasks@[0] is ScrollNav && tasks@[1] is RenderPage,
{
    let page = app.nav_model.items@[slot];
    if page.display_list is Some && page.image_handle is None {
        assert(tasks@.last() == PageTask::RenderPage(app.nav_model.active->0));
    }
}

/// Where no page is shown there is nothing to do for one.
pub proof fn nothing_to_do_without_a_page<D, I>(
    app: &App<D, I>,
    edges: Option<ThumbnailEdges>,
    tasks: Vec<PageTask>,
)
    requires
        call_ensures(App::<D, I>::update_page, (app, edges), tasks),
        shows_none(*app),
    ensures
        tasks@.len() == 0,
{
}

/// A change of the system's theme concerns the page only where its background follows the
/// theme.
pub proof fn theme_concerns_the_system_background<D, I>(app: &App<D, I>, tasks: Vec<Task>)
    requires
        call_ensures(App::<D, I>::system_theme_mode_update, (app,), tasks),
    ensures
        app.pdf_background == PdfBackground::SystemTheme ==> tasks@ == seq![Task::RefreshPage],
        app.pdf_background != PdfBackground::SystemTheme ==> tasks@.len() == 0,
{
}

/// The header bar has the search field with its term while it is shown, else the button for it.
pub proof fn header_has_the_search<D, I>(app: &App<D, I>, start: HeaderStart<'_>)
    requires
        call_ensures(App::<D, I>::header_start, (app,), start),
    ensures
        app.search_active ==> (start matches HeaderStart::SearchInput(term) && term@
            == app.search_term@),
        !app.search_active ==> start is SearchButton,
{
}

/// The menus of the header bar show the background and the zoom that are set.
pub proof fn header_shows_the_settings<D, I>(app: &App<D, I>, end: HeaderEnd)
    requires
        call_ensures(App::<D, I>::header_end, (app,), end),
    ensures
        app.pdf_background == PdfBackground::SystemTheme ==> end.background == Some(0usize),
        app.pdf_background == PdfBackground::White ==> end.background == Some(1usize),
        app.pdf_background == PdfBackground::Light ==> end.background == Some(2usize),
        app.pdf_background == PdfBackground::Dark ==> end.background == Some(3usize),
        app.zoom == Zoom::FitBoth ==> end.zoom == Some(0usize),
        app.zoom == Zoom::FitHeight ==> end.zoom == Some(1usize),
        app.zoom == Zoom::FitWidth ==> end.zoom == Some(2usize),
        app.zoom matches Zoom::Percent(percent) ==> if 25 <= percent <= 500 && percent % 25 == 0 {
            end.zoom matches Some(i) && 25 * (i - 2) == percent
        } else {
            end.zoom is None
        },
{
}

/// The list of pages is shown where it is switched on, except in full screen. It has an entry
/// for every page, in order, with a gap between two entries, and the page that is shown is
/// selected. It is as wide as a thumbnail with a gap on either side.
pub proof fn page_list_has_every_page<D, I>(
    app: &App<D, I>,
    active: bool,
    condensed: bool,
    space: u16,
    bar: Option<NavBar<'_, D, I>>,
    i: int,
)
    requires
        call_ensures(App::<D, I>::nav_bar, (app, active, condensed, space), bar),
    ensures
        bar is Some <==> active && !app.fullscreen,
        bar matches Some(b) ==> {
            &&& b.entries@.len() == app.nav_model.items@.len()
            &&& 0 <= i < app.nav_model.items@.len() ==> {
                &&& b.entries@[i].entity.generation == app.nav_model.generation
                &&& b.entries@[i].entity.slot == i
                &&& *b.entries@[i].page == app.nav_model.items@[i]
                &&& b.entries@[i].gap_before == (i > 0)
                &&& b.entries@[i].selected == shows(*app, i)
            }
            &&& b.width == 128 + 2 * space
            &&& condensed ==> b.max_width is None
            &&& !condensed ==> b.max_width == Some(280u16)
        },
{
    assert(app.nav_model.items.len() <= usize::MAX);
    if let Some(b) = bar {
        let infos = entry_infos(b.entries@);
        assert(infos.len() == b.entries@.len());
        if 0 <= i < app.nav_model.items@.len() {
            assert(infos[i] == b.entries@[i]@);
        }
    }
}

/// The properties pane comes before anything else. Else the page is shown, with the zoom that
/// is set, with its inverted image on near black where it is read dark, with its own image on
/// white elsewhere, and with a wheel that zooms while control is held. Without a page there is
/// an invitation to open a file, or nothing while a document is on its way.
pub proof fn screen_follows_the_state<D, I>(
    app: &App<D, I>,
    is_dark: bool,
    screen: Screen<'_, D, I>,
    slot: int,
)
    requires
        call_ensures(App::<D, I>::screen, (app, is_dark), screen),
    ensures
        screen is Properties <==> app.properties_open,
        screen matches Screen::Properties(sections) ==> section_texts(sections@) == pane(
            app@.document_meta,
            app.natural_scroll,
        ),
        !app.properties_open && shows_none(*app) && app.url is None ==> screen is OpenPrompt,
        !app.properties_open && shows_none(*app) && app.url is Some ==> screen is Blank,
        !app.properties_open && shows(*app, slot) ==> {
            let page = app.nav_model.items@[slot];
            let dark = app.pdf_background == PdfBackground::Dark || app.pdf_background
                == PdfBackground::SystemTheme && is_dark;
            &&& screen matches Screen::Page(shown)
            &&& *shown.page == page
            &&& shown.zoom == app.zoom
            &&& app.modifiers.control ==> shown.wheel == Wheel::Zooms
            &&& !app.modifiers.control ==> shown.wheel == Wheel::TurnsPages
            &&& dark ==> shown.color == (Color { red: 1, green: 1, blue: 1 })
            &&& !dark ==> shown.color == (Color { red: 10, green: 10, blue: 10 })
            &&& match shown.image {
                Some(image) => if dark {
                    page.inverted_image_handle == Some(*image)
                } else {
                    page.image_handle == Some(*image)
                },
                None => if dark {
                    page.inverted_image_handle is None
                } else {
                    page.image_handle is None
                },
            }
        },
{
}

/// The document is loaded from its URL as long as there is one.
pub proof fn document_is_loaded_from_its_url<D, I>(
    app: &App<D, I>,
    subscriptions: Subscriptions<'_>,
)
    requires
        call_ensures(App::<D, I>::subscription, (app,), subscriptions),
    ensures
        app.url matches Some(url) ==> (subscriptions.load matches Some(loaded) && loaded@
            == url@),
        app.url is None ==> subscriptions.load is None,
{
}

/// While the search field is shown, every term with at least one character is searched for,
/// and it is searched for as it stands. An empty term is not, and nothing is while the field
/// is hidden.
pub proof fn every_term_is_searched<D, I>(app: &App<D, I>, subscriptions: Subscriptions<'_>)
    requires
        call_ensures(App::<D, I>::subscription, (app,), subscriptions),
    ensures
        app.search_active && app.search_term@.len() >= 1 ==> subscriptions.search is Some,
        app.search_term@.len() == 0 ==> subscriptions.search is None,
        !app.search_active ==> subscriptions.search is None,
        subscriptions.search matches Some(search) ==> search.term@ == app.search_term@,
{
}

/// A search goes through every page that is recorded, in the order of the pages, and through
/// nothing else.
pub proof fn search_takes_recorded_pages_in_order<D, I>(
    app: &App<D, I>,
    subscriptions: Subscriptions<'_>,
    search: Search<'_>,
    slot: usize,
    i: int,
    j: int,
)
    requires
        call_ensures(App::<D, I>::subscription, (app,), subscriptions),
        subscriptions.search == Some(search),
    ensures
        slot < app.nav_model.items@.len() && app.nav_model.items@[slot as int].display_list is Some
            ==> search.pages@.contains(Entity { generation: app.nav_model.generation, slot }),
        0 <= i < search.pages@.len() ==> {
            &&& search.pages@[i].generation == app.nav_model.generation
            &&& search.pages@[i].slot < app.nav_model.items@.len()
            &&& app.nav_model.items@[search.pages@[i].slot as int].display_list is Some
        },
        0 <= i < j < search.pages@.len() ==> search.pages@[i].slot < search.pages@[j].slot,
{
    assert(app.nav_model.items.len() <= usize::MAX);
    let count = app.nav_model.items@.len();
    lemma_recorded_in_order(app@.nav, count);
    if slot < count && app.nav_model.items@[slot as int].display_list is Some {
        lemma_recorded_is_complete(app@.nav, count, slot);
    }
}

proof fn lemma_recorded_in_order<D, I>(nav: Items<Page<D, I>>, count: nat)
    requires
        count <= nav.items.len() <= usize::MAX,
    ensures
        forall|i: int|
            0 <= i < recorded(nav, count).len() ==> {
                let entity = #[trigger] recorded(nav, count)[i];
                &&& entity.generation == nav.generation
                &&& entity.slot < count
                &&& nav.items[entity.slot as int].display_list is Some
            },
        forall|i: int, j: int|
            0 <= i < j < recorded(nav, count).len() ==> (#[trigger] recorded(nav, count)[i]).slot
                < (#[trigger] recorded(nav, count)[j]).slot,
    decreases count,
{
    if count > 0 {
        lemma_recorded_in_order(nav, (count - 1) as nat);
    }
}

proof fn lemma_recorded_is_complete<D, I>(nav: Items<Page<D, I>>, count: nat, slot: usize)
    requires
        slot < count <= nav.items.len() <= usize::MAX,
        nav.items[slot as int].display_list is Some,
    ensures
        recorded(nav, count).contains(Entity { generation: nav.generation, slot }),
    decreases count,
{
    let wanted = Entity { generation: nav.generation, slot };
    let before = recorded(nav, (count - 1) as nat);
    let all = recorded(nav, count);
    if slot == count - 1 {
        assert(all[before.len() as int] == wanted);
    } else {
        lemma_recorded_is_complete(nav, (count - 1) as nat, slot);
        let k = choose|k: int| 0 <= k < before.len() && before[k] == wanted;
        assert(all[k] == wanted);
    }
}

/// With natural scrolling the wheel counts the other way round.
pub proof fn natural_scrolling_turns_the_wheel_round<D, I>(app: &App<D, I>, sign: i8)
    requires
        call_ensures(App::<D, I>::wheel_sign, (app,), sign),
    ensures
        app.natural_scroll ==> sign == -1,
        !app.natural_scroll ==> sign == 1,
{
}

/// Three lines or sixty pixels turn a page; one line or twenty pixels make a zoom step. A line
/// is worth twenty pixels for either.
pub proof fn wheel_units(page_lines: u8, page_pixels: u8, zoom_lines: u8, zoom_pixels: u8)
    requires
        call_ensures(WheelUnit::per_page, (WheelUnit::Lines,), page_lines),
        call_ensures(WheelUnit::per_page, (WheelUnit::Pixels,), page_pixels),
        call_ensures(WheelUnit::per_zoom_step, (WheelUnit::Lines,), zoom_lines),
        call_ensures(WheelUnit::per_zoom_step, (WheelUnit::Pixels,), zoom_pixels),
    ensures
        page_lines == 3,
        page_pixels == 20 * page_lines,
        zoom_lines == 1,
        zoom_pixels == 20 * zoom_lines,
{
}

/// Each coordinate of a drag's target stays where it is above zero, and else becomes zero.
pub proof fn drag_stays_in_the_content(moved: Point, target: Point)
    requires
        call_ensures(drag_target, (moved,), target),
    ensures
        0 < moved.x.bits <= 0x7f80_0000 ==> target.x == moved.x,
        moved.x.bits == 0 || moved.x.bits > 0x7f80_0000 ==> target.x.bits == 0,
        0 < moved.y.bits <= 0x7f80_0000 ==> target.y == moved.y,
        moved.y.bits == 0 || moved.y.bits > 0x7f80_0000 ==> target.y.bits == 0,
{
    crate::coord::numbers_above_zero(moved.x);
    crate::coord::numbers_above_zero(moved.y);
}

/// A page on which the term was found is reported with every place; another one is not
/// reported.
pub proof fn hits_are_reported<D, I>(
    entity: Entity,
    quads: Vec<Quad>,
    message: Option<Message<D, I>>,
)
    requires
        call_ensures(search_report::<D, I>, (entity, quads), message),
    ensures
        quads@.len() == 0 ==> message is None,
        quads@.len() > 0 ==> (message matches Some(Message::SearchResults(page, places)) && page
            == entity && places@ == quads@),
{
}

/// A thumbnail is 128 wide and the list at most 280, a search finds at most a hundred places
/// on a page, and a page is rendered at three times its size.
pub proof fn fixed_measures()
    ensures
        THUMBNAIL_WIDTH == 128,
        NAV_MAX_WIDTH == 280,
        SEARCH_LIMIT == 100,
        RENDER_SCALE == 3,
{
}

/// The view of an entry has its name, its page, its gap and its selection, and a list of views
/// has the view of each entry in its place.
pub proof fn entry_views_are_faithful<'a, D, I>(entries: Seq<NavEntry<'a, D, I>>, i: int)
    requires
        0 <= i < entries.len(),
    ensures
        entry_infos(entries).len() == entries.len(),
        entry_infos(entries)[i].entity == entries[i].entity,
        entry_infos(entries)[i].page == *entries[i].page,
        entry_infos(entries)[i].gap_before == entries[i].gap_before,
        entry_infos(entries)[i].selected == entries[i].selected,
{
}

} // verus!
