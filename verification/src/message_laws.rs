//! What each message does to the viewer, in the viewer's own fields.

use crate::background::PdfBackground;
use crate::coord::{Point, Viewport};
use crate::document::{DocumentMeta, Page};
use crate::message::{Key, Message, Modifiers, Quad};
use crate::nav::{Entity, Items};
use crate::viewer::{place_from, App, AppState, Task, WindowMode};
use crate::zoom::Zoom;
use vstd::prelude::*;

verus! {

proof fn lemma_first_place<D, I>(pages: Seq<Page<D, I>>, index: i32, start: int, place: int)
    requires
        0 <= start <= place < pages.len(),
        pages[place].index == index,
        forall|i: int| start <= i < place ==> (#[trigger] pages[i]).index != index,
    ensures
        place_from(pages, index, start) == Some(place),
    decreases place - start,
{
    if start < place {
        lemma_first_place(pages, index, start + 1, place);
    }
}

/// Scrolling the content is noted.
pub proof fn content_scroll_is_noted<D, I>(
    app: &mut App<D, I>,
    viewport: Viewport,
    tasks: Vec<Task>,
)
    requires
        call_ensures(App::<D, I>::update, (app, Message::ContentScroll(viewport)), tasks),
    ensures
        final(app)@ == (AppState { content_viewport: Some(viewport), ..old(app)@ }),
        tasks@.len() == 0,
{
}

/// Scrolling the list of pages is noted.
pub proof fn nav_scroll_is_noted<D, I>(
    app: &mut App<D, I>,
    viewport: Viewport,
    tasks: Vec<Task>,
)
    requires
        call_ensures(App::<D, I>::update, (app, Message::NavScroll(viewport)), tasks),
    ensures
        final(app)@ == (AppState { nav_viewport: Some(viewport), ..old(app)@ }),
        tasks@.len() == 0,
{
}

/// The modifier keys are noted.
pub proof fn modifiers_are_noted<D, I>(
    app: &mut App<D, I>,
    modifiers: Modifiers,
    tasks: Vec<Task>,
)
    requires
        call_ensures(App::<D, I>::update, (app, Message::ModifiersChanged(modifiers)), tasks),
    ensures
        final(app)@ == (AppState { modifiers, ..old(app)@ }),
        tasks@.len() == 0,
{
}

/// The description of a document is kept, and nothing else changes.
pub proof fn description_is_kept<D, I>(
    app: &mut App<D, I>,
    meta: DocumentMeta,
    tasks: Vec<Task>,
)
    requires
        call_ensures(App::<D, I>::update, (app, Message::DocumentMeta(meta)), tasks),
    ensures
        final(app)@ == (AppState { document_meta: Some(meta@), ..old(app)@ }),
        tasks@.len() == 0,
{
}

/// The record of a page goes to the first page with its number, and to no other one. The
/// thumbnail of that page is rendered, and the page itself too if it is shown.
pub proof fn record_goes_to_its_page<D, I>(
    app: &mut App<D, I>,
    index: i32,
    list: D,
    place: int,
    tasks: Vec<Task>,
)
    requires
        call_ensures(App::<D, I>::update, (app, Message::DisplayList(index, list)), tasks),
        0 <= place < old(app).nav_model.items@.len(),
        old(app).nav_model.items@[place].index == index,
        forall|i: int|
            0 <= i < place ==> (#[trigger] old(app).nav_model.items@[i]).index != index,
    ensures
        final(app).nav_model.items@.len() == old(app).nav_model.items@.len(),
        final(app).nav_model.items@[place] == (Page {
            display_list: Some(list),
            ..old(app).nav_model.items@[place]
        }),
        forall|i: int|
            0 <= i < old(app).nav_model.items@.len() && i != place
                ==> #[trigger] final(app).nav_model.items@[i] == old(app).nav_model.items@[i],
        final(app)@ == (AppState {
            nav: Items { items: final(app).nav_model.items@, ..old(app)@.nav },
            ..old(app)@
        }),
        ({
            let entity = Entity {
                generation: old(app).nav_model.generation,
                slot: place as usize,
            };
            &&& old(app).nav_model.active == Some(entity) ==> tasks@ == seq![
                Task::RefreshPage,
                Task::RenderThumbnail(entity),
            ]
            &&& old(app).nav_model.active != Some(entity) ==> tasks@ == seq![
                Task::RenderThumbnail(entity),
            ]
        }),
{
    assert(old(app).nav_model.items.len() <= usize::MAX);
    lemma_first_place(old(app).nav_model.items@, index, 0, place);
}

/// Opening another document is noted by its URL. The pages, the description and the error of the
/// one before are dropped and the properties pane is closed; nothing else changes.
pub proof fn opening_drops_the_document_before<D, I>(
    app: &mut App<D, I>,
    url: String,
    tasks: Vec<Task>,
)
    requires
        call_ensures(App::<D, I>::update, (app, Message::FileLoad(url)), tasks),
    ensures
        final(app).nav_model.items@.len() == 0,
        final(app).nav_model.active is None,
        final(app).nav_model.generation != old(app).nav_model.generation,
        final(app)@ == (AppState {
            nav: final(app)@.nav,
            url: Some(url@),
            document_meta: None,
            load_error: None,
            properties_open: false,
            ..old(app)@
        }),
        tasks@.len() == 0,
{
}

/// A failure is kept by its text. The pages and the description are dropped; nothing else
/// changes.
pub proof fn failure_drops_the_document<D, I>(
    app: &mut App<D, I>,
    text: String,
    tasks: Vec<Task>,
)
    requires
        call_ensures(App::<D, I>::update, (app, Message::LoadError(text)), tasks),
    ensures
        final(app).nav_model.items@.len() == 0,
        final(app).nav_model.active is None,
        final(app).nav_model.generation != old(app).nav_model.generation,
        final(app)@ == (AppState {
            nav: final(app)@.nav,
            load_error: Some(text@),
            document_meta: None,
            ..old(app)@
        }),
        tasks@.len() == 0,
{
}

/// To open a file the user is asked for one, and nothing changes yet.
pub proof fn file_is_asked_for<D, I>(
    app: &mut App<D, I>,
    tasks: Vec<Task>,
)
    requires
        call_ensures(App::<D, I>::update, (app, Message::FileOpen), tasks),
    ensures
        final(app)@ == old(app)@,
        tasks@ == seq![Task::OpenFile],
{
}

/// A double click goes into full screen, where the header bar is hidden, or out of it.
pub proof fn double_click_toggles_fullscreen<D, I>(
    app: &mut App<D, I>,
    tasks: Vec<Task>,
)
    requires
        call_ensures(App::<D, I>::update, (app, Message::Fullscreen), tasks),
    ensures
        old(app).fullscreen ==> final(app)@ == (AppState {
            fullscreen: false,
            show_headerbar: true,
            ..old(app)@
        }) && tasks@ == seq![Task::SetWindowMode(WindowMode::Windowed)],
        !old(app).fullscreen ==> final(app)@ == (AppState {
            fullscreen: true,
            show_headerbar: false,
            ..old(app)@
        }) && tasks@ == seq![Task::SetWindowMode(WindowMode::Fullscreen)],
{
}

/// The enter key goes into full screen, where the header bar is hidden, or out of it.
pub proof fn enter_key_toggles_fullscreen<D, I>(
    app: &mut App<D, I>,
    modifiers: Modifiers,
    tasks: Vec<Task>,
)
    requires
        call_ensures(App::<D, I>::update, (app, Message::Key(modifiers, Key::Enter)), tasks),
    ensures
        old(app).fullscreen ==> final(app)@ == (AppState {
            fullscreen: false,
            show_headerbar: true,
            ..old(app)@
        }) && tasks@ == seq![Task::SetWindowMode(WindowMode::Windowed)],
        !old(app).fullscreen ==> final(app)@ == (AppState {
            fullscreen: true,
            show_headerbar: false,
            ..old(app)@
        }) && tasks@ == seq![Task::SetWindowMode(WindowMode::Fullscreen)],
{
}

/// The keys that lead on make the following page the one that is shown, and change nothing else.
/// At the last page they change nothing. The page is looked after in any case.
pub proof fn keys_lead_to_the_following_page<D, I>(
    app: &mut App<D, I>,
    modifiers: Modifiers,
    key: Key,
    slot: usize,
    tasks: Vec<Task>,
)
    requires
        call_ensures(App::<D, I>::update, (app, Message::Key(modifiers, key)), tasks),
        key is ArrowDown || key is ArrowRight || key is PageDown,
        old(app).nav_model.active == Some(
            Entity { generation: old(app).nav_model.generation, slot },
        ),
        slot < old(app).nav_model.items@.len(),
    ensures
        tasks@ == seq![Task::RefreshPage],
        final(app)@ == (AppState {
            nav: Items {
                active: Some(
                    Entity {
                        generation: old(app).nav_model.generation,
                        slot: if slot + 1 < old(app).nav_model.items@.len() {
                            (slot + 1) as usize
                        } else {
                            slot
                        },
                    },
                ),
                ..old(app)@.nav
            },
            ..old(app)@
        }),
{
    assert(old(app).nav_model.items.len() <= usize::MAX);
}

/// The keys that lead back make the page before the one that is shown, and change nothing else.
/// At the first page they change nothing. The page is looked after in any case.
pub proof fn keys_lead_to_the_page_before<D, I>(
    app: &mut App<D, I>,
    modifiers: Modifiers,
    key: Key,
    slot: usize,
    tasks: Vec<Task>,
)
    requires
        call_ensures(App::<D, I>::update, (app, Message::Key(modifiers, key)), tasks),
        key is ArrowUp || key is ArrowLeft || key is PageUp,
        old(app).nav_model.active == Some(
            Entity { generation: old(app).nav_model.generation, slot },
        ),
        slot < old(app).nav_model.items@.len(),
    ensures
        tasks@ == seq![Task::RefreshPage],
        final(app)@ == (AppState {
            nav: Items {
                active: Some(
                    Entity {
                        generation: old(app).nav_model.generation,
                        slot: if slot > 0 {
                            (slot - 1) as usize
                        } else {
                            0
                        },
                    },
                ),
                ..old(app)@.nav
            },
            ..old(app)@
        }),
{
}

/// Where no page is shown, a key that leads on shows the second page, if there is one, and one
/// that leads back does nothing. Nothing else changes.
pub proof fn page_keys_without_a_page<D, I>(
    app: &mut App<D, I>,
    modifiers: Modifiers,
    key: Key,
    tasks: Vec<Task>,
)
    requires
        call_ensures(App::<D, I>::update, (app, Message::Key(modifiers, key)), tasks),
        key is ArrowUp || key is ArrowLeft || key is PageUp || key is ArrowDown || key is ArrowRight
            || key is PageDown,
        old(app).nav_model.active matches Some(e) ==> e.generation
            != old(app).nav_model.generation || e.slot >= old(app).nav_model.items@.len(),
    ensures
        tasks@ == seq![Task::RefreshPage],
        key is ArrowUp || key is ArrowLeft || key is PageUp ==> final(app)@ == old(app)@,
        old(app).nav_model.items@.len() <= 1 ==> final(app)@ == old(app)@,
        (key is ArrowDown || key is ArrowRight || key is PageDown)
            && old(app).nav_model.items@.len() > 1 ==> final(app).nav_model.active == Some(
            Entity { generation: old(app).nav_model.generation, slot: 1 },
        ),
        final(app)@ == (AppState {
            nav: Items { active: final(app).nav_model.active, ..old(app)@.nav },
            ..old(app)@
        }),
{
}

/// The escape key hides the search field, and a key without a meaning does nothing.
pub proof fn escape_hides_the_search<D, I>(
    app: &mut App<D, I>,
    modifiers: Modifiers,
    key: Key,
    tasks: Vec<Task>,
)
    requires
        call_ensures(App::<D, I>::update, (app, Message::Key(modifiers, key)), tasks),
        key is Escape || key is Other,
    ensures
        key is Escape ==> final(app)@ == (AppState { search_active: false, ..old(app)@ }),
        key is Other ==> final(app)@ == old(app)@,
        tasks@.len() == 0,
{
}

/// The keys `f`, `h` and `w` fit the page, its height and its width, and `0` shows it at its full
/// size, whatever the zoom was before. Nothing else changes.
pub proof fn fit_keys_set_the_zoom<D, I>(
    app: &mut App<D, I>,
    modifiers: Modifiers,
    text: String,
    tasks: Vec<Task>,
)
    requires
        call_ensures(
            App::<D, I>::update,
            (app, Message::Key(modifiers, Key::Character(text))),
            tasks,
        ),
        text@ == seq!['f'] || text@ == seq!['h'] || text@ == seq!['w'] || text@ == seq!['0'],
    ensures
        text@ == seq!['f'] ==> final(app)@ == (AppState { zoom: Zoom::FitBoth, ..old(app)@ }),
        text@ == seq!['h'] ==> final(app)@ == (AppState { zoom: Zoom::FitHeight, ..old(app)@ }),
        text@ == seq!['w'] ==> final(app)@ == (AppState { zoom: Zoom::FitWidth, ..old(app)@ }),
        text@ == seq!['0'] ==> final(app)@ == (AppState { zoom: Zoom::Percent(100), ..old(app)@ }),
        tasks@.len() == 0,
{
}

/// The key `=` adds 25 percent, up to 500, and `-` takes 25 percent off, down to 25. A page that is
/// fitted counts as one at 100 percent. Nothing else changes.
pub proof fn zoom_keys_move_by_a_quarter<D, I>(
    app: &mut App<D, I>,
    modifiers: Modifiers,
    text: String,
    tasks: Vec<Task>,
)
    requires
        call_ensures(
            App::<D, I>::update,
            (app, Message::Key(modifiers, Key::Character(text))),
            tasks,
        ),
        text@ == seq!['='] || text@ == seq!['-'],
    ensures
        final(app)@ == (AppState { zoom: final(app).zoom, ..old(app)@ }),
        final(app).zoom is Percent,
        ({
            let from: int = match old(app).zoom {
                Zoom::Percent(percent) => percent as int,
                _ => 100,
            };
            let percent = final(app).zoom->Percent_0;
            &&& text@ == seq!['='] && 0 <= from <= 475 ==> percent == from + 25
            &&& text@ == seq!['='] && from > 475 ==> percent == 500
            &&& text@ == seq!['-'] && 50 <= from <= 525 ==> percent == from - 25
            &&& text@ == seq!['-'] && from < 50 ==> percent == 25
        }),
        tasks@.len() == 0,
{
}

/// The keys `s` and `/` show the search field and lead the input there.
pub proof fn search_keys_show_the_search<D, I>(
    app: &mut App<D, I>,
    modifiers: Modifiers,
    text: String,
    tasks: Vec<Task>,
)
    requires
        call_ensures(
            App::<D, I>::update,
            (app, Message::Key(modifiers, Key::Character(text))),
            tasks,
        ),
        text@ == seq!['s'] || text@ == seq!['/'],
    ensures
        final(app)@ == (AppState { search_active: true, ..old(app)@ }),
        tasks@ == seq![Task::FocusSearch],
{
}

/// Every other text that a key gives does nothing.
pub proof fn other_keys_do_nothing<D, I>(
    app: &mut App<D, I>,
    modifiers: Modifiers,
    text: String,
    tasks: Vec<Task>,
)
    requires
        call_ensures(
            App::<D, I>::update,
            (app, Message::Key(modifiers, Key::Character(text))),
            tasks,
        ),
        text@.len() == 1 ==> !(seq!['0', '-', '=', 'f', 'h', 'w', 's', '/'].contains(text@[0])),
    ensures
        final(app)@ == old(app)@,
        tasks@.len() == 0,
{
    let known = seq!['0', '-', '=', 'f', 'h', 'w', 's', '/'];
    assert(known[0] == '0' && known[1] == '-' && known[2] == '=' && known[3] == 'f');
    assert(known[4] == 'h' && known[5] == 'w' && known[6] == 's' && known[7] == '/');
}

/// A drag begins where the pointer is.
pub proof fn drag_begins<D, I>(
    app: &mut App<D, I>,
    point: Point,
    tasks: Vec<Task>,
)
    requires
        call_ensures(App::<D, I>::update, (app, Message::MiddleDragStart(point)), tasks),
    ensures
        final(app)@ == (AppState { middle_drag_pos: Some(point), ..old(app)@ }),
        tasks@.len() == 0,
{
}

/// A drag ends when the button is released.
pub proof fn drag_ends<D, I>(
    app: &mut App<D, I>,
    tasks: Vec<Task>,
)
    requires
        call_ensures(App::<D, I>::update, (app, Message::MiddleDragRelease), tasks),
    ensures
        final(app)@ == (AppState { middle_drag_pos: None, ..old(app)@ }),
        tasks@.len() == 0,
{
}

/// In a drag the content is scrolled by as much as the pointer has moved since, from the offset to
/// which it is scrolled, or from its start. Out of a drag the pointer does nothing.
pub proof fn drag_scrolls_with_the_pointer<D, I>(
    app: &mut App<D, I>,
    point: Point,
    tasks: Vec<Task>,
)
    requires
        call_ensures(App::<D, I>::update, (app, Message::MiddleDragMove(point)), tasks),
    ensures
        old(app).middle_drag_pos is None ==> final(app)@ == old(app)@ && tasks@.len() == 0,
        old(app).middle_drag_pos matches Some(last) ==> {
            &&& final(app)@ == (AppState { middle_drag_pos: Some(point), ..old(app)@ })
            &&& tasks@.len() == 1
            &&& tasks@[0] matches Task::ScrollContent { offset, from, to }
            &&& from == last
            &&& to == point
            &&& old(app).content_viewport matches Some(viewport) ==> offset == viewport.offset
            &&& old(app).content_viewport is None ==> offset.x.bits == 0 && offset.y.bits == 0
        },
{
}

/// Choosing a page in the list makes it the one that is shown, and changes nothing else.
pub proof fn choosing_a_page_shows_it<D, I>(
    app: &mut App<D, I>,
    entity: Entity,
    tasks: Vec<Task>,
)
    requires
        call_ensures(App::<D, I>::update, (app, Message::NavSelect(entity)), tasks),
    ensures
        final(app)@ == (AppState {
            nav: Items { active: Some(entity), ..old(app)@.nav },
            ..old(app)@
        }),
        tasks@ == seq![Task::RefreshPage],
{
}

/// The images of a page go to that page: the normal one and the inverted one, each to its place.
/// Where the page is gone nothing happens.
pub proof fn images_go_to_their_page<D, I>(
    app: &mut App<D, I>,
    entity: Entity,
    normal: I,
    inverted: I,
    tasks: Vec<Task>,
)
    requires
        call_ensures(
            App::<D, I>::update,
            (app, Message::PageRendered(entity, normal, inverted)),
            tasks,
        ),
    ensures
        tasks@.len() == 0,
        final(app)@ == (AppState {
            nav: Items { items: final(app).nav_model.items@, ..old(app)@.nav },
            ..old(app)@
        }),
        final(app).nav_model.items@.len() == old(app).nav_model.items@.len(),
        forall|i: int|
            #![trigger final(app).nav_model.items@[i]]
            0 <= i < old(app).nav_model.items@.len() ==> final(app).nav_model.items@[i] == if i
                == entity.slot && entity.generation == old(app).nav_model.generation {
                Page {
                    image_handle: Some(normal),
                    inverted_image_handle: Some(inverted),
                    ..old(app).nav_model.items@[i]
                }
            } else {
                old(app).nav_model.items@[i]
            },
{
}

/// The thumbnail of a page goes to that page. Where the page is gone nothing happens.
pub proof fn thumbnail_goes_to_its_page<D, I>(
    app: &mut App<D, I>,
    entity: Entity,
    image: I,
    tasks: Vec<Task>,
)
    requires
        call_ensures(App::<D, I>::update, (app, Message::Thumbnail(entity, image)), tasks),
    ensures
        tasks@.len() == 0,
        final(app)@ == (AppState {
            nav: Items { items: final(app).nav_model.items@, ..old(app)@.nav },
            ..old(app)@
        }),
        final(app).nav_model.items@.len() == old(app).nav_model.items@.len(),
        forall|i: int|
            #![trigger final(app).nav_model.items@[i]]
            0 <= i < old(app).nav_model.items@.len() ==> final(app).nav_model.items@[i] == if i
                == entity.slot && entity.generation == old(app).nav_model.generation {
                Page { icon_handle: Some(image), ..old(app).nav_model.items@[i] }
            } else {
                old(app).nav_model.items@[i]
            },
{
}

/// New pages take the place of all that were there, in their order, and the first of them is
/// shown. Nothing else changes.
pub proof fn new_pages_replace_the_old_ones<D, I>(
    app: &mut App<D, I>,
    pages: Vec<Page<D, I>>,
    tasks: Vec<Task>,
)
    requires
        call_ensures(App::<D, I>::update, (app, Message::Pages(pages)), tasks),
    ensures
        final(app).nav_model.items@ == pages@,
        final(app).nav_model.generation != old(app).nav_model.generation,
        pages@.len() > 0 ==> final(app).nav_model.active == Some(
            Entity { generation: final(app).nav_model.generation, slot: 0 },
        ),
        pages@.len() == 0 ==> final(app).nav_model.active is None,
        final(app)@ == (AppState { nav: final(app)@.nav, ..old(app)@ }),
        tasks@ == seq![Task::RefreshPage],
{
}

/// The entries of the background menu stand for the system's background, white, light and dark. A
/// choice beyond them is ignored, and nothing else changes.
pub proof fn background_menu_sets_the_background<D, I>(
    app: &mut App<D, I>,
    index: usize,
    tasks: Vec<Task>,
)
    requires
        call_ensures(App::<D, I>::update, (app, Message::PdfBackgroundChange(index)), tasks),
    ensures
        index == 0 ==> final(app)@ == (AppState {
            pdf_background: PdfBackground::SystemTheme,
            ..old(app)@
        }),
        index == 1 ==> final(app)@ == (AppState {
            pdf_background: PdfBackground::White,
            ..old(app)@
        }),
        index == 2 ==> final(app)@ == (AppState {
            pdf_background: PdfBackground::Light,
            ..old(app)@
        }),
        index == 3 ==> final(app)@ == (AppState {
            pdf_background: PdfBackground::Dark,
            ..old(app)@
        }),
        index >= 4 ==> final(app)@ == old(app)@,
        tasks@.len() == 0,
{
}

/// The entries of the zoom menu stand for the three ways to fit a page and then for the multiples
/// of 25 percent up to 500. A choice beyond them is ignored, and nothing else changes.
pub proof fn zoom_menu_sets_the_zoom<D, I>(
    app: &mut App<D, I>,
    index: usize,
    tasks: Vec<Task>,
)
    requires
        call_ensures(App::<D, I>::update, (app, Message::ZoomDropdown(index)), tasks),
    ensures
        index == 0 ==> final(app)@ == (AppState { zoom: Zoom::FitBoth, ..old(app)@ }),
        index == 1 ==> final(app)@ == (AppState { zoom: Zoom::FitHeight, ..old(app)@ }),
        index == 2 ==> final(app)@ == (AppState { zoom: Zoom::FitWidth, ..old(app)@ }),
        3 <= index < 23 ==> final(app)@ == (AppState {
            zoom: Zoom::Percent((25 * (index - 2)) as i16),
            ..old(app)@
        }),
        index >= 23 ==> final(app)@ == old(app)@,
        tasks@.len() == 0,
{
}

/// Each step of the wheel zooms by 25 percent, up to 500 and down to 25. A page that is fitted
/// counts as one at 100 percent. Nothing else changes.
pub proof fn wheel_zooms_by_quarters<D, I>(
    app: &mut App<D, I>,
    steps: i32,
    tasks: Vec<Task>,
)
    requires
        call_ensures(App::<D, I>::update, (app, Message::ZoomScroll(steps)), tasks),
    ensures
        final(app)@ == (AppState { zoom: final(app).zoom, ..old(app)@ }),
        final(app).zoom is Percent,
        ({
            let from: int = match old(app).zoom {
                Zoom::Percent(percent) => percent as int,
                _ => 100,
            };
            let far = from + 25 * steps;
            let percent = final(app).zoom->Percent_0;
            &&& 25 <= far <= 500 ==> percent == far
            &&& far < 25 ==> percent == 25
            &&& far > 500 ==> percent == 500
        }),
        tasks@.len() == 0,
{
}

/// The properties pane is opened or closed.
pub proof fn properties_open_and_close<D, I>(
    app: &mut App<D, I>,
    tasks: Vec<Task>,
)
    requires
        call_ensures(App::<D, I>::update, (app, Message::PropertiesToggle), tasks),
    ensures
        old(app).properties_open ==> final(app)@ == (AppState {
            properties_open: false,
            ..old(app)@
        }),
        !old(app).properties_open ==> final(app)@ == (AppState {
            properties_open: true,
            ..old(app)@
        }),
        tasks@.len() == 0,
{
}

/// The direction of the wheel is turned round.
pub proof fn wheel_direction_is_turned<D, I>(
    app: &mut App<D, I>,
    tasks: Vec<Task>,
)
    requires
        call_ensures(App::<D, I>::update, (app, Message::NaturalScrollToggle), tasks),
    ensures
        old(app).natural_scroll ==> final(app)@ == (AppState {
            natural_scroll: false,
            ..old(app)@
        }),
        !old(app).natural_scroll ==> final(app)@ == (AppState {
            natural_scroll: true,
            ..old(app)@
        }),
        tasks@.len() == 0,
{
}

/// The search field is shown, whatever was typed before, and the input is led there.
pub proof fn search_is_shown<D, I>(
    app: &mut App<D, I>,
    tasks: Vec<Task>,
)
    requires
        call_ensures(App::<D, I>::update, (app, Message::SearchActivate), tasks),
    ensures
        final(app)@ == (AppState { search_active: true, ..old(app)@ }),
        tasks@ == seq![Task::FocusSearch],
{
}

/// The search field is hidden, and what was typed is kept.
pub proof fn search_is_hidden<D, I>(
    app: &mut App<D, I>,
    tasks: Vec<Task>,
)
    requires
        call_ensures(App::<D, I>::update, (app, Message::SearchClear), tasks),
    ensures
        final(app)@ == (AppState { search_active: false, ..old(app)@ }),
        tasks@.len() == 0,
{
}

/// What is typed into the search field becomes the term, to the letter.
pub proof fn typed_text_is_the_term<D, I>(
    app: &mut App<D, I>,
    term: String,
    tasks: Vec<Task>,
)
    requires
        call_ensures(App::<D, I>::update, (app, Message::SearchInput(term)), tasks),
    ensures
        final(app)@ == (AppState { search_term: term@, ..old(app)@ }),
        tasks@.len() == 0,
{
}

/// Where a term was found changes nothing.
pub proof fn hits_change_nothing<D, I>(
    app: &mut App<D, I>,
    entity: Entity,
    quads: Vec<Quad>,
    tasks: Vec<Task>,
)
    requires
        call_ensures(App::<D, I>::update, (app, Message::SearchResults(entity, quads)), tasks),
    ensures
        final(app)@ == old(app)@,
        tasks@.len() == 0,
{
}

/// A wheel turned on by whole steps leads to the following page, if there is one, and one step
/// less is owed from there on.
pub proof fn wheel_leads_to_the_following_page<D, I>(
    app: &mut App<D, I>,
    steps: i32,
    slot: usize,
    tasks: Vec<Task>,
)
    requires
        call_ensures(App::<D, I>::update, (app, Message::PageScroll(steps)), tasks),
        steps >= 1,
        old(app).nav_model.active == Some(
            Entity { generation: old(app).nav_model.generation, slot },
        ),
        slot < old(app).nav_model.items@.len(),
    ensures
        tasks@ == seq![Task::RefreshPage],
        final(app)@ == (AppState {
            page_scroll: (steps - 1) as i32,
            nav: Items {
                active: Some(
                    Entity {
                        generation: old(app).nav_model.generation,
                        slot: if slot + 1 < old(app).nav_model.items@.len() {
                            (slot + 1) as usize
                        } else {
                            slot
                        },
                    },
                ),
                ..old(app)@.nav
            },
            ..old(app)@
        }),
{
    assert(old(app).nav_model.items.len() <= usize::MAX);
}

/// A wheel turned back by whole steps leads to the page before, and one step less is owed from
/// there on.
pub proof fn wheel_leads_to_the_page_before<D, I>(
    app: &mut App<D, I>,
    steps: i32,
    slot: usize,
    tasks: Vec<Task>,
)
    requires
        call_ensures(App::<D, I>::update, (app, Message::PageScroll(steps)), tasks),
        steps <= -1,
        old(app).nav_model.active == Some(
            Entity { generation: old(app).nav_model.generation, slot },
        ),
        0 < slot < old(app).nav_model.items@.len(),
    ensures
        tasks@ == seq![Task::RefreshPage],
        final(app)@ == (AppState {
            page_scroll: (steps + 1) as i32,
            nav: Items {
                active: Some(
                    Entity {
                        generation: old(app).nav_model.generation,
                        slot: (slot - 1) as usize,
                    },
                ),
                ..old(app)@.nav
            },
            ..old(app)@
        }),
{
}

/// A wheel turned back at the first page, or by no whole step, does nothing, and nothing is owed.
pub proof fn wheel_stops_at_the_first_page<D, I>(
    app: &mut App<D, I>,
    steps: i32,
    tasks: Vec<Task>,
)
    requires
        call_ensures(App::<D, I>::update, (app, Message::PageScroll(steps)), tasks),
        steps == 0 || steps <= -1 && (old(app).nav_model.active matches Some(e) ==> e.slot == 0
            || e.generation != old(app).nav_model.generation || e.slot
            >= old(app).nav_model.items@.len()),
    ensures
        final(app)@ == (AppState { page_scroll: 0, ..old(app)@ }),
        tasks@.len() == 0,
{
}

/// Where no page is shown, a wheel that is turned on leads to the second page, if there is one.
pub proof fn wheel_without_a_page<D, I>(
    app: &mut App<D, I>,
    steps: i32,
    tasks: Vec<Task>,
)
    requires
        call_ensures(App::<D, I>::update, (app, Message::PageScroll(steps)), tasks),
        steps >= 1,
        old(app).nav_model.active matches Some(e) ==> e.generation
            != old(app).nav_model.generation || e.slot >= old(app).nav_model.items@.len(),
    ensures
        tasks@ == seq![Task::RefreshPage],
        final(app)@ == (AppState {
            page_scroll: (steps - 1) as i32,
            nav: Items {
                active: if old(app).nav_model.items@.len() > 1 {
                    Some(Entity { generation: old(app).nav_model.generation, slot: 1 })
                } else {
                    old(app).nav_model.active
                },
                ..old(app)@.nav
            },
            ..old(app)@
        }),
{
}

} // verus!
