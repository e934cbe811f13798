//! What holds of the viewer across messages.

use crate::background::PdfBackground;
use crate::coord::Point;
use crate::document::Page;
use crate::message::{heard, Input, Key, Message, Modifiers, Notice, Stroke};
use crate::nav::{Entity, Items};
use crate::screen::{fitting_image, recorded, PageTask, Subscriptions, ThumbnailEdges};
use crate::viewer::{App, AppState, Task};
use crate::zoom::{Zoom, MAX_PERCENT, MIN_PERCENT, STEP_PERCENT};
use vstd::prelude::*;

verus! {

/// Going into full screen and out again changes nothing.
pub proof fn fullscreen_twice_cancels<D, I>(state: AppState<D, I>)
    requires
        state.wf(),
    ensures
        state.after(Notice::Fullscreen).after(Notice::Fullscreen) == state,
{
}

/// The enter key does what a double click on the page does.
pub proof fn enter_toggles_fullscreen<D, I>(state: AppState<D, I>, modifiers: Modifiers)
    ensures
        state.after(Notice::Key(modifiers, Stroke::Enter)) == state.after(Notice::Fullscreen),
        state.tasks(Notice::Key(modifiers, Stroke::Enter)) == state.tasks(Notice::Fullscreen),
{
}

/// Opening the properties pane and closing it again changes nothing, nor does turning the
/// wheel's direction twice.
pub proof fn toggles_cancel<D, I>(state: AppState<D, I>)
    ensures
        state.after(Notice::PropertiesToggle).after(Notice::PropertiesToggle) == state,
        state.after(Notice::NaturalScrollToggle).after(Notice::NaturalScrollToggle) == state,
{
}

/// A result for a page that is no longer there changes nothing.
pub proof fn stale_results_are_dropped<D, I>(
    state: AppState<D, I>,
    entity: Entity,
    normal: I,
    inverted: I,
)
    requires
        !state.nav.contains(entity),
    ensures
        state.after(Notice::PageRendered(entity, normal, inverted)) == state,
        state.after(Notice::Thumbnail(entity, normal)) == state,
{
}

/// A result for a page of the document before changes nothing, whether another document is
/// being loaded, has its pages already, or has failed.
pub proof fn late_results_are_dropped<D, I>(
    state: AppState<D, I>,
    replaced: Notice<D, I>,
    entity: Entity,
    normal: I,
    inverted: I,
)
    requires
        state.nav.contains(entity),
        replaced is FileLoad || replaced is Pages || replaced is LoadError,
    ensures
        ({
            let next = state.after(replaced);
            &&& next.after(Notice::PageRendered(entity, normal, inverted)) == next
            &&& next.after(Notice::Thumbnail(entity, normal)) == next
        }),
{
}

/// The record of a page that the document does not have changes nothing and asks for nothing.
pub proof fn unknown_page_is_ignored<D, I>(state: AppState<D, I>, index: i32, list: D)
    requires
        forall|i: int| 0 <= i < state.nav.items.len() ==> (#[trigger] state.nav.items[i]).index
            != index,
    ensures
        state.after(Notice::DisplayList(index, list)) == state,
        state.tasks(Notice::DisplayList(index, list)) == Seq::<Task>::empty(),
{
    lemma_no_place(state.nav.items, index, 0);
}

proof fn lemma_no_place<D, I>(pages: Seq<Page<D, I>>, index: i32, start: int)
    requires
        0 <= start,
        forall|i: int| 0 <= i < pages.len() ==> (#[trigger] pages[i]).index != index,
    ensures
        crate::viewer::place_from(pages, index, start) is None,
    decreases pages.len() - start,
{
    if start < pages.len() {
        lemma_no_place(pages, index, start + 1);
    }
}

/// The images of a page change that page alone, and nothing of it but its images.
pub proof fn images_touch_their_page_only<D, I>(
    state: AppState<D, I>,
    entity: Entity,
    normal: I,
    inverted: I,
    other: int,
)
    requires
        state.nav.contains(entity),
        0 <= other < state.nav.items.len(),
        other != entity.slot,
    ensures
        ({
            let next = state.after(Notice::PageRendered(entity, normal, inverted));
            let page = state.nav.get(entity)->0;
            &&& next.nav.items[other] == state.nav.items[other]
            &&& next.nav.get(entity) == Some(
                Page {
                    image_handle: Some(normal),
                    inverted_image_handle: Some(inverted),
                    ..page
                },
            )
            &&& next.nav.items.len() == state.nav.items.len()
            &&& next.nav.active == state.nav.active
        }),
{
}

/// What is chosen in a menu is then shown as chosen, and a choice that the menu does not
/// offer is ignored.
pub proof fn menu_shows_the_choice<D, I>(state: AppState<D, I>, index: usize)
    ensures
        index < Zoom::offered().len() ==> state.after(Notice::ZoomDropdown(index)).zoom.place()
            == Some(index as int),
        index >= Zoom::offered().len() ==> state.after(Notice::ZoomDropdown(index)) == state,
        index < PdfBackground::offered().len() ==> state.after(
            Notice::PdfBackgroundChange(index),
        ).pdf_background.place() == index,
        index >= PdfBackground::offered().len() ==> state.after(
            Notice::PdfBackgroundChange(index),
        ) == state,
{
}

/// A key that turns to the next page and one that turns back cancel, unless the page was the
/// last one.
pub proof fn page_keys_cancel<D, I>(state: AppState<D, I>, modifiers: Modifiers)
    requires
        state.nav.active_item() is Some,
        state.nav.active_position() + 1 < state.nav.items.len() <= usize::MAX,
    ensures
        state.after(Notice::Key(modifiers, Stroke::PageDown)).after(
            Notice::Key(modifiers, Stroke::PageUp),
        ) == state,
        state.after(Notice::Key(modifiers, Stroke::ArrowRight)).after(
            Notice::Key(modifiers, Stroke::ArrowLeft),
        ) == state,
        state.after(Notice::Key(modifiers, Stroke::ArrowDown)).after(
            Notice::Key(modifiers, Stroke::ArrowUp),
        ) == state,
{
    crate::nav::forward_and_backward_cancel(state.nav);
}

/// No key leads past the last page or before the first one.
pub proof fn page_keys_stop_at_the_ends<D, I>(state: AppState<D, I>, modifiers: Modifiers)
    ensures
        state.nav.active_position() + 1 >= state.nav.items.len() ==> state.after(
            Notice::Key(modifiers, Stroke::PageDown),
        ) == state,
        state.nav.active_position() == 0 ==> state.after(Notice::Key(modifiers, Stroke::PageUp))
            == state,
{
}

/// Choosing an entry of the list of pages shows its page.
pub proof fn chosen_page_is_shown<D, I>(state: AppState<D, I>, position: int)
    requires
        0 <= position < state.nav.items.len() <= usize::MAX,
    ensures
        state.after(Notice::NavSelect(state.nav.entity_at(position))).nav.active_item() == Some(
            state.nav.items[position],
        ),
{
}

/// While a page is shown, its entry in the list is selected and no other one.
pub proof fn shown_page_is_selected<D, I>(state: AppState<D, I>, position: int)
    requires
        state.nav.active_item() is Some,
        0 <= position < state.nav.items.len() <= usize::MAX,
    ensures
        state.entries()[position].selected <==> position == state.nav.active_position(),
{
}

/// A message of the wheel turns at most one page.
pub proof fn wheel_turns_one_page_at_most<D, I>(state: AppState<D, I>, steps: i32)
    requires
        state.nav.active_item() is Some,
        state.nav.items.len() <= usize::MAX,
    ensures
        ({
            let before = state.nav.active_position();
            let next = state.after(Notice::PageScroll(steps)).nav.active_position();
            &&& before - 1 <= next <= before + 1
            &&& next > before ==> steps > 0
            &&& next < before ==> steps < 0
        }),
{
}

/// At the first page nothing stays owed to a wheel that is turned back.
pub proof fn wheel_owes_nothing_at_the_start<D, I>(state: AppState<D, I>, steps: i32)
    requires
        state.nav.active_position() == 0,
        steps <= 0,
    ensures
        state.after(Notice::PageScroll(steps)) == (AppState { page_scroll: 0, ..state }),
        state.tasks(Notice::PageScroll(steps)) == Seq::<Task>::empty(),
{
}

/// The state after the wheel's message, repeated until nothing is owed.
pub open spec fn wheeled_out<D, I>(state: AppState<D, I>, steps: nat) -> AppState<D, I>
    decreases steps,
{
    if steps == 0 {
        state
    } else {
        wheeled_out(state.after(Notice::PageScroll(steps as i32)), (steps - 1) as nat)
    }
}

/// Steps that are owed are turned one after the other, up to the last page.
pub proof fn owed_steps_are_turned<D, I>(state: AppState<D, I>, steps: nat)
    requires
        state.nav.active_item() is Some,
        state.nav.items.len() <= usize::MAX,
        steps <= i32::MAX,
    ensures
        ({
            let last = state.nav.items.len() - 1;
            let far = state.nav.active_position() + steps;
            let end = wheeled_out(state, steps);
            &&& end.nav.active_position() == if far < last {
                far
            } else {
                last
            }
            &&& end.nav.items == state.nav.items
            &&& steps > 0 ==> end.page_scroll == 0
        }),
    decreases steps,
{
    if steps > 0 {
        let next = state.after(Notice::PageScroll(steps as i32));
        crate::nav::turning_keeps_an_item_active(state.nav);
        owed_steps_are_turned(next, (steps - 1) as nat);
        if steps == 1 {
            assert(wheeled_out(state, 1) == wheeled_out(next, 0));
        }
    }
}

/// The pointer scrolls the content only between the start of a drag and its end.
pub proof fn pointer_scrolls_only_in_a_drag<D, I>(state: AppState<D, I>, point: Point)
    ensures
        state.middle_drag_pos is None ==> state.after(Notice::MiddleDragMove(point)) == state
            && state.tasks(Notice::MiddleDragMove(point)) == Seq::<Task>::empty(),
        state.after(Notice::MiddleDragRelease).tasks(Notice::MiddleDragMove(point)) == Seq::<
            Task,
        >::empty(),
        state.after(Notice::MiddleDragStart(point)).middle_drag_pos == Some(point),
{
}

/// Each move of a drag is measured from the point that the move before led to.
pub proof fn drag_continues_where_it_was<D, I>(
    state: AppState<D, I>,
    first: Point,
    second: Point,
)
    requires
        state.middle_drag_pos is Some,
    ensures
        state.after(Notice::MiddleDragMove(first)).tasks(Notice::MiddleDragMove(second)) == seq![
            Task::ScrollContent { offset: state.content_offset(), from: first, to: second },
        ],
{
}

/// Leaving the search keeps the term, so that taking the search up again finds it.
pub proof fn search_term_is_kept<D, I>(state: AppState<D, I>, modifiers: Modifiers)
    requires
        state.search_active,
    ensures
        state.after(Notice::SearchClear).after(Notice::SearchActivate) == state,
        state.after(Notice::Key(modifiers, Stroke::Escape)).after(Notice::SearchActivate)
            == state,
        !state.after(Notice::SearchClear).searches(),
{
}

/// A search goes through the pages that are recorded and no others.
pub proof fn search_covers_the_recorded_pages<D, I>(state: AppState<D, I>, position: int)
    requires
        0 <= position < state.nav.items.len() <= usize::MAX,
    ensures
        state.searched().contains(state.nav.entity_at(position))
            <==> state.nav.items[position].display_list is Some,
{
    lemma_recorded(state.nav, state.nav.items.len(), position);
}

proof fn lemma_recorded<D, I>(nav: Items<Page<D, I>>, count: nat, position: int)
    requires
        count <= nav.items.len() <= usize::MAX,
        0 <= position < nav.items.len(),
    ensures
        recorded(nav, count).contains(nav.entity_at(position)) <==> position < count
            && nav.items[position].display_list is Some,
    decreases count,
{
    if count > 0 {
        let before = recorded(nav, (count - 1) as nat);
        lemma_recorded(nav, (count - 1) as nat, position);
        let wanted = nav.entity_at(position);
        let new = nav.entity_at(count - 1);
        if nav.items[count - 1].display_list is Some {
            let all = before.push(new);
            assert(all[before.len() as int] == new);
            if before.contains(wanted) {
                let k = choose|k: int| 0 <= k < before.len() && before[k] == wanted;
                assert(all[k] == wanted);
            }
            if all.contains(wanted) {
                let k = choose|k: int| 0 <= k < all.len() && all[k] == wanted;
                if k < before.len() {
                    assert(before[k] == wanted);
                } else {
                    assert(wanted.slot == new.slot);
                }
            }
        }
    }
}

/// A page is asked to be rendered as soon as it is both shown and recorded, and not again
/// once it has been rendered.
pub proof fn shown_page_is_rendered_once<D, I>(
    state: AppState<D, I>,
    edges: Option<ThumbnailEdges>,
    normal: I,
    inverted: I,
)
    requires
        state.nav.active_item() is Some,
    ensures
        ({
            let entity = state.nav.active->0;
            let page = state.nav.active_item()->0;
            let next = state.after(Notice::PageRendered(entity, normal, inverted));
            &&& state.page_tasks(edges).contains(PageTask::RenderPage(entity))
                <==> page.display_list is Some && page.image_handle is None
            &&& !next.page_tasks(edges).contains(PageTask::RenderPage(entity))
        }),
{
    let entity = state.nav.active->0;
    let page = state.nav.active_item()->0;
    let render = PageTask::RenderPage(entity);
    let scroll = state.thumbnail_scroll(edges);
    let tasks = state.page_tasks(edges);
    assert(!scroll.contains(render));
    if page.display_list is Some && page.image_handle is None {
        assert(tasks =~= scroll + seq![render]);
        assert(tasks[scroll.len() as int] == render);
    } else {
        assert(tasks =~= scroll);
    }
    let next = state.after(Notice::PageRendered(entity, normal, inverted));
    assert(next.thumbnail_scroll(edges) == scroll);
    assert(next.page_tasks(edges) =~= scroll);
}

/// The image shown for a rendered page is the inverted one exactly on a dark background.
pub proof fn rendered_page_fits_its_background<D, I>(
    state: AppState<D, I>,
    normal: I,
    inverted: I,
    is_dark: bool,
)
    requires
        state.nav.active_item() is Some,
    ensures
        ({
            let next = state.after(
                Notice::PageRendered(state.nav.active->0, normal, inverted),
            );
            let dark = next.pdf_background.is_dark_mode(is_dark);
            &&& next.nav.active_item() is Some
            &&& fitting_image(next.nav.active_item()->0, dark) == Some(
                if dark {
                    inverted
                } else {
                    normal
                },
            )
        }),
{
}

/// Opening another document forgets the one before, its error included, and closes the
/// properties pane.
pub proof fn new_document_starts_afresh<D, I>(state: AppState<D, I>, url: Seq<char>)
    ensures
        ({
            let next = state.after(Notice::FileLoad(url));
            &&& next.url == Some(url)
            &&& next.nav.items.len() == 0
            &&& next.nav.active_item() is None
            &&& next.document_meta is None
            &&& next.load_error is None
            &&& !next.properties_open
        }),
{
}

/// Loading leaves the settings of the viewer alone.
pub proof fn settings_survive_loading<D, I>(state: AppState<D, I>, notice: Notice<D, I>)
    requires
        notice is FileLoad || notice is DocumentMeta || notice is Pages || notice is DisplayList
            || notice is LoadError,
    ensures
        ({
            let next = state.after(notice);
            &&& next.zoom == state.zoom
            &&& next.pdf_background == state.pdf_background
            &&& next.natural_scroll == state.natural_scroll
            &&& next.fullscreen == state.fullscreen
            &&& next.search_active == state.search_active
            &&& next.search_term == state.search_term
        }),
{
}

/// The keys for zooming in and out cancel, away from the limits.
pub proof fn zoom_keys_cancel<D, I>(
    state: AppState<D, I>,
    modifiers: Modifiers,
    percent: i16,
    closer: Seq<char>,
    away: Seq<char>,
)
    requires
        state.zoom == Zoom::Percent(percent),
        MIN_PERCENT + STEP_PERCENT <= percent <= MAX_PERCENT - STEP_PERCENT,
        closer == seq!['='],
        away == seq!['-'],
    ensures
        state.after(Notice::Key(modifiers, Stroke::Character(closer))).after(
            Notice::Key(modifiers, Stroke::Character(away)),
        ) == state,
        state.after(Notice::Key(modifiers, Stroke::Character(away))).after(
            Notice::Key(modifiers, Stroke::Character(closer)),
        ) == state,
{
}

/// A zoom key does what one step of the wheel does.
pub proof fn zoom_key_is_one_wheel_step<D, I>(state: AppState<D, I>, modifiers: Modifiers)
    ensures
        state.after(Notice::Key(modifiers, Stroke::Character(seq!['=']))) == state.after(
            Notice::ZoomScroll(1),
        ),
        state.after(Notice::Key(modifiers, Stroke::Character(seq!['-']))) == state.after(
            Notice::ZoomScroll(-1i32),
        ),
{
}

/// A key that a widget has captured, such as one typed into the search field, is not heard.
pub proof fn captured_keys_are_not_heard<D, I>(modifiers: Modifiers, key: Key)
    ensures
        heard::<D, I>(Input::KeyPressed(modifiers, key), true) is None,
        heard::<D, I>(Input::KeyPressed(modifiers, key), false) == Some(
            Notice::<D, I>::Key(modifiers, key@),
        ),
{
}

/// The state after the message of a wheel that is turned back, repeated until nothing is owed.
pub open spec fn wheeled_back_out<D, I>(state: AppState<D, I>, steps: nat) -> AppState<D, I>
    decreases steps,
{
    if steps == 0 {
        state
    } else {
        wheeled_back_out(state.after(Notice::PageScroll((-steps) as i32)), (steps - 1) as nat)
    }
}

/// Steps back that are owed are turned one after the other, down to the first page.
pub proof fn owed_steps_back_are_turned<D, I>(state: AppState<D, I>, slot: usize, steps: nat)
    requires
        state.nav.active == Some(Entity { generation: state.nav.generation, slot }),
        slot < state.nav.items.len(),
        steps <= i32::MAX,
    ensures
        ({
            let end = wheeled_back_out(state, steps);
            let last: int = if slot > steps {
                slot - steps
            } else {
                0
            };
            &&& end == (AppState {
                page_scroll: end.page_scroll,
                nav: Items {
                    active: Some(
                        Entity { generation: state.nav.generation, slot: last as usize },
                    ),
                    ..state.nav
                },
                ..state
            })
            &&& steps > 0 ==> end.page_scroll == 0
        }),
    decreases steps,
{
    if steps > 0 {
        let next = state.after(Notice::PageScroll((-steps) as i32));
        let place: usize = if slot > 0 {
            (slot - 1) as usize
        } else {
            0
        };
        assert(next.nav.active == Some(
            Entity { generation: state.nav.generation, slot: place },
        ));
        owed_steps_back_are_turned(next, place, (steps - 1) as nat);
        if steps == 1 {
            assert(wheeled_back_out(state, 1) == wheeled_back_out(next, 0));
        }
    }
}

/// A step on and a step back, or a step back and a step on, show the same page again, away from
/// the ends.
pub proof fn wheel_steps_cancel<D, I>(state: AppState<D, I>, slot: usize)
    requires
        state.nav.active == Some(Entity { generation: state.nav.generation, slot }),
        slot < state.nav.items.len() <= usize::MAX,
        state.page_scroll == 0,
    ensures
        slot + 1 < state.nav.items.len() ==> state.after(Notice::PageScroll(1)).after(
            Notice::PageScroll(-1i32),
        ) == state,
        slot > 0 ==> state.after(Notice::PageScroll(-1i32)).after(Notice::PageScroll(1)) == state,
{
}

/// What is typed while the search field is shown is searched for, however short it is.
pub proof fn typed_term_is_searched<D, I>(
    state: AppState<D, I>,
    term: Seq<char>,
    app: &App<D, I>,
    subscriptions: Subscriptions<'_>,
)
    requires
        term.len() >= 1,
        app@ == state.after(Notice::SearchActivate).after(Notice::SearchInput(term)),
        call_ensures(App::<D, I>::subscription, (app,), subscriptions),
    ensures
        subscriptions.search matches Some(search) && search.term@ == term,
{
}

/// Of what is typed only the last text counts.
pub proof fn last_term_counts<D, I>(state: AppState<D, I>, first: Seq<char>, second: Seq<char>)
    ensures
        state.after(Notice::SearchInput(first)).after(Notice::SearchInput(second)) == state.after(
            Notice::SearchInput(second),
        ),
        state.after(Notice::SearchInput(second)).search_term == second,
{
}

/// The keys and the menu that set the zoom forget the zoom before.
pub proof fn set_zoom_forgets_the_zoom_before<D, I>(
    state: AppState<D, I>,
    other: Zoom,
    modifiers: Modifiers,
    key: char,
)
    requires
        key == 'f' || key == 'h' || key == 'w' || key == '0',
    ensures
        ({
            let press = Notice::Key(modifiers, Stroke::Character(seq![key]));
            &&& (AppState { zoom: other, ..state }).after(press) == state.after(press)
            &&& state.after(press).after(press) == state.after(press)
            &&& key == 'f' ==> state.after(press).zoom == Zoom::FitBoth
            &&& key == 'h' ==> state.after(press).zoom == Zoom::FitHeight
            &&& key == 'w' ==> state.after(press).zoom == Zoom::FitWidth
            &&& key == '0' ==> state.after(press).zoom == Zoom::Percent(100)
        }),
{
}

/// Every message can be taken, except a turn of the wheel by so many zoom steps that the
/// percentage could not be counted.
pub proof fn messages_can_be_taken<D, I>(app: &App<D, I>, message: &Message<D, I>, can: bool)
    requires
        call_ensures(App::<D, I>::can_take, (app, message), can),
    ensures
        !(message is ZoomScroll) ==> can,
        *message matches Message::ZoomScroll(steps) ==> {
            let from: int = match app.zoom {
                Zoom::Percent(percent) => percent as int,
                _ => 100,
            };
            can <==> -32768 <= from + 25 * steps <= 32767
        },
{
}

/// The page found for a number is the first one that has it, and where none is found no page
/// has it.
pub proof fn page_is_found_by_its_number<D, I>(
    app: &App<D, I>,
    index: i32,
    entity: Option<Entity>,
    i: int,
)
    requires
        call_ensures(App::<D, I>::entity_by_index, (app, index), entity),
        0 <= i < app.nav_model.items@.len(),
    ensures
        entity matches Some(e) ==> {
            &&& e.generation == app.nav_model.generation
            &&& e.slot < app.nav_model.items@.len()
            &&& app.nav_model.items@[e.slot as int].index == index
            &&& i < e.slot ==> app.nav_model.items@[i].index != index
        },
        entity is None ==> app.nav_model.items@[i].index != index,
{
    lemma_first_of_its_number(app.nav_model.items@, index, 0);
}

proof fn lemma_first_of_its_number<D, I>(pages: Seq<Page<D, I>>, index: i32, start: int)
    requires
        0 <= start,
    ensures
        crate::viewer::place_from(pages, index, start) matches Some(place) ==> {
            &&& start <= place < pages.len()
            &&& pages[place].index == index
            &&& forall|j: int| start <= j < place ==> (#[trigger] pages[j]).index != index
        },
    decreases pages.len() - start,
{
    if start < pages.len() {
        lemma_first_of_its_number(pages, index, start + 1);
    }
}

/// Choosing a page outside of a message shows it too, and changes nothing else.
pub proof fn selected_page_is_shown<D, I>(
    app: &mut App<D, I>,
    entity: Entity,
    tasks: Vec<Task>,
)
    requires
        call_ensures(App::<D, I>::on_nav_select, (app, entity), tasks),
    ensures
        final(app)@ == (AppState {
            nav: Items { active: Some(entity), ..old(app)@.nav },
            ..old(app)@
        }),
        tasks@ == seq![Task::RefreshPage],
{
}

/// In a sound state the header bar is hidden exactly in full screen, a percentage is a multiple
/// of 25 from 25 to 500, and the menus name everything that they offer.
pub proof fn sound_states<D, I>(state: AppState<D, I>)
    requires
        state.wf(),
    ensures
        state.show_headerbar == !state.fullscreen,
        state.zoom matches Zoom::Percent(percent) ==> 25 <= percent <= 500 && percent % 25 == 0,
        state.zoom_names.len() == 23,
        state.pdf_background_names.len() == 4,
{
}

} // verus!
