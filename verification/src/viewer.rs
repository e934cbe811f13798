//! The state of the viewer, and what each message makes of it.

use crate::background::PdfBackground;
use crate::coord::{Point, Viewport};
use crate::document::{DocumentInfo, DocumentMeta, Page};
use crate::message::{Key, Message, Modifiers, Notice, Stroke};
use crate::nav::{Entity, Items, Model};
use crate::text::{only_char, optional_text, single_char, texts};
use crate::zoom::Zoom;
use vstd::prelude::*;

verus! {

/// How the window is shown.
#[derive(Clone, Copy, Debug, PartialEq, Eq, Structural)]
pub enum WindowMode {
    Windowed,
    Fullscreen,
}

/// Something that is to be done outside after a message.
#[derive(Clone, Copy, Debug, PartialEq, Eq, Structural)]
pub enum Task {
    /// Do what [`App::update_page`] asks for.
    RefreshPage,
    /// Render the thumbnail of a page.
    RenderThumbnail(Entity),
    /// Let the user choose a file.
    OpenFile,
    /// Show the main window, if there is one, in another way.
    SetWindowMode(WindowMode),
    /// Scroll the content from `offset` by as much as the pointer has moved.
    ScrollContent { offset: Point, from: Point, to: Point },
    /// Move the input focus to the search field.
    FocusSearch,
}

/// The state of the viewer. `D` is a recorded page and `I` is an image.
pub struct App<D, I> {
    pub content_viewport: Option<Viewport>,
    pub url: Option<String>,
    pub fullscreen: bool,
    pub show_headerbar: bool,
    pub load_error: Option<String>,
    pub middle_drag_pos: Option<Point>,
    pub modifiers: Modifiers,
    pub natural_scroll: bool,
    pub nav_model: Model<Page<D, I>>,
    pub nav_viewport: Option<Viewport>,
    pub page_scroll: i32,
    pub pdf_background: PdfBackground,
    pub pdf_background_names: Vec<String>,
    pub properties_open: bool,
    pub document_meta: Option<DocumentMeta>,
    pub search_active: bool,
    pub search_term: String,
    pub zoom: Zoom,
    pub zoom_names: Vec<String>,
}

/// What an [`App`] holds.
pub struct AppState<D, I> {
    pub content_viewport: Option<Viewport>,
    pub url: Option<Seq<char>>,
    pub fullscreen: bool,
    pub show_headerbar: bool,
    pub load_error: Option<Seq<char>>,
    pub middle_drag_pos: Option<Point>,
    pub modifiers: Modifiers,
    pub natural_scroll: bool,
    pub nav: Items<Page<D, I>>,
    pub nav_viewport: Option<Viewport>,
    pub page_scroll: i32,
    pub pdf_background: PdfBackground,
    pub pdf_background_names: Seq<Seq<char>>,
    pub properties_open: bool,
    pub document_meta: Option<DocumentInfo>,
    pub search_active: bool,
    pub search_term: Seq<char>,
    pub zoom: Zoom,
    pub zoom_names: Seq<Seq<char>>,
}

/// The view of an optional description.
pub open spec fn optional_info(meta: Option<DocumentMeta>) -> Option<DocumentInfo> {
    match meta {
        Some(m) => Some(m@),
        None => None,
    }
}

impl<D, I> View for App<D, I> {
    type V = AppState<D, I>;

    open spec fn view(&self) -> AppState<D, I> {
        AppState {
            content_viewport: self.content_viewport,
            url: optional_text(self.url),
            fullscreen: self.fullscreen,
            show_headerbar: self.show_headerbar,
            load_error: optional_text(self.load_error),
            middle_drag_pos: self.middle_drag_pos,
            modifiers: self.modifiers,
            natural_scroll: self.natural_scroll,
            nav: self.nav_model@,
            nav_viewport: self.nav_viewport,
            page_scroll: self.page_scroll,
            pdf_background: self.pdf_background,
            pdf_background_names: texts(self.pdf_background_names@),
            properties_open: self.properties_open,
            document_meta: optional_info(self.document_meta),
            search_active: self.search_active,
            search_term: self.search_term@,
            zoom: self.zoom,
            zoom_names: texts(self.zoom_names@),
        }
    }
}

/// The place of the first page with the number `index`, from `start` on.
pub open spec fn place_from<D, I>(pages: Seq<Page<D, I>>, index: i32, start: int) -> Option<int>
    decreases pages.len() - start,
{
    if start >= pages.len() {
        None
    } else if pages[start].index == index {
        Some(start)
    } else {
        place_from(pages, index, start + 1)
    }
}

impl<D, I> AppState<D, I> {
    /// The state that the viewer starts in.
    pub open spec fn initial(url: Option<Seq<char>>) -> Self {
        AppState {
            content_viewport: None,
            url,
            fullscreen: false,
            show_headerbar: true,
            load_error: None,
            middle_drag_pos: None,
            modifiers: Modifiers { control: false },
            natural_scroll: true,
            nav: Items::none(),
            nav_viewport: None,
            page_scroll: 0,
            pdf_background: PdfBackground::SystemTheme,
            pdf_background_names: PdfBackground::offered_names(),
            properties_open: false,
            document_meta: None,
            search_active: false,
            search_term: Seq::empty(),
            zoom: Zoom::FitBoth,
            zoom_names: Zoom::offered_names(),
        }
    }

    /// What every reachable state has in common: the zoom is one of those offered, the header
    /// bar is hidden exactly in full screen, and the menus name what is offered.
    pub open spec fn wf(self) -> bool {
        &&& self.zoom.place() is Some
        &&& self.show_headerbar == !self.fullscreen
        &&& self.pdf_background_names == PdfBackground::offered_names()
        &&& self.zoom_names == Zoom::offered_names()
    }

    /// Whether a message can be taken. Only a turn of the wheel so far that the percentage
    /// could not be counted is left out.
    pub open spec fn accepts(self, notice: Notice<D, I>) -> bool {
        notice matches Notice::ZoomScroll(steps) ==> self.zoom.steps_fit(steps as int)
    }

    /// The entity of the first page with the number `index`.
    pub open spec fn entity_of(self, index: i32) -> Option<Entity> {
        match place_from(self.nav.items, index, 0) {
            Some(place) => Some(self.nav.entity_at(place)),
            None => None,
        }
    }

    /// The offset to which the content is scrolled.
    pub open spec fn content_offset(self) -> Point {
        match self.content_viewport {
            Some(viewport) => viewport.offset,
            None => Point::at_origin(),
        }
    }

    /// The state in or out of full screen.
    pub open spec fn fullscreen_toggled(self) -> Self {
        AppState { fullscreen: !self.fullscreen, show_headerbar: self.fullscreen, ..self }
    }

    /// The state after `steps` whole steps of the wheel are owed. A step forward turns one
    /// page, and what is left stays owed. So does a step backward, except at the first page,
    /// where everything owed is dropped.
    pub open spec fn wheeled(self, steps: i32) -> Self {
        if steps >= 1 {
            AppState { page_scroll: (steps - 1) as i32, nav: self.nav.forward(), ..self }
        } else if steps <= -1 && self.nav.active_position() > 0 {
            AppState { page_scroll: (steps + 1) as i32, nav: self.nav.backward(), ..self }
        } else {
            AppState { page_scroll: 0, ..self }
        }
    }

    /// The state with `page` in place of the page that `entity` names.
    pub open spec fn with_page(self, entity: Entity, page: Page<D, I>) -> Self {
        AppState { nav: self.nav.with(entity, page), ..self }
    }

    /// The state after a key.
    pub open spec fn after_key(self, stroke: Stroke) -> Self {
        match stroke {
            Stroke::ArrowUp | Stroke::ArrowLeft | Stroke::PageUp => AppState {
                nav: self.nav.backward(),
                ..self
            },
            Stroke::ArrowDown | Stroke::ArrowRight | Stroke::PageDown => AppState {
                nav: self.nav.forward(),
                ..self
            },
            Stroke::Enter => self.fullscreen_toggled(),
            Stroke::Escape => AppState { search_active: false, ..self },
            Stroke::Character(text) => match only_char(text) {
                Some('0') => AppState { zoom: Zoom::Percent(100), ..self },
                Some('-') => AppState { zoom: self.zoom.moved(-1), ..self },
                Some('=') => AppState { zoom: self.zoom.moved(1), ..self },
                Some('f') => AppState { zoom: Zoom::FitBoth, ..self },
                Some('h') => AppState { zoom: Zoom::FitHeight, ..self },
                Some('w') => AppState { zoom: Zoom::FitWidth, ..self },
                Some('s') | Some('/') => AppState { search_active: true, ..self },
                _ => self,
            },
            Stroke::Other => self,
        }
    }

    /// What is to be done after a key.
    pub open spec fn key_tasks(self, stroke: Stroke) -> Seq<Task> {
        match stroke {
            Stroke::ArrowUp
            | Stroke::ArrowLeft
            | Stroke::PageUp
            | Stroke::ArrowDown
            | Stroke::ArrowRight
            | Stroke::PageDown => seq![Task::RefreshPage],
            Stroke::Enter => seq![Task::SetWindowMode(self.other_mode())],
            Stroke::Character(text) => match only_char(text) {
                Some('s') | Some('/') => seq![Task::FocusSearch],
                _ => seq![],
            },
            _ => seq![],
        }
    }

    /// The window mode that a toggle leads to.
    pub open spec fn other_mode(self) -> WindowMode {
        if self.fullscreen {
            WindowMode::Windowed
        } else {
            WindowMode::Fullscreen
        }
    }

    /// The state after a message.
    pub open spec fn after(self, notice: Notice<D, I>) -> Self {
        match notice {
            Notice::ContentScroll(viewport) => AppState {
                content_viewport: Some(viewport),
                ..self
            },
            Notice::DisplayList(index, list) => match self.entity_of(index) {
                Some(entity) => self.with_page(
                    entity,
                    Page { display_list: Some(list), ..self.nav.get(entity)->0 },
                ),
                None => self,
            },
            Notice::DocumentMeta(meta) => AppState { document_meta: Some(meta), ..self },
            Notice::FileLoad(url) => AppState {
                nav: self.nav.cleared(),
                url: Some(url),
                document_meta: None,
                load_error: None,
                properties_open: false,
                ..self
            },
            Notice::FileOpen => self,
            Notice::Fullscreen => self.fullscreen_toggled(),
            Notice::Key(_, stroke) => self.after_key(stroke),
            Notice::LoadError(text) => AppState {
                load_error: Some(text),
                document_meta: None,
                nav: self.nav.cleared(),
                ..self
            },
            Notice::MiddleDragRelease => AppState { middle_drag_pos: None, ..self },
            Notice::MiddleDragStart(point) => AppState { middle_drag_pos: Some(point), ..self },
            Notice::MiddleDragMove(point) => match self.middle_drag_pos {
                Some(_) => AppState { middle_drag_pos: Some(point), ..self },
                None => self,
            },
            Notice::ModifiersChanged(modifiers) => AppState { modifiers, ..self },
            Notice::NavScroll(viewport) => AppState { nav_viewport: Some(viewport), ..self },
            Notice::NavSelect(entity) => AppState { nav: self.nav.activated(entity), ..self },
            Notice::NaturalScrollToggle => AppState {
                natural_scroll: !self.natural_scroll,
                ..self
            },
            Notice::PageRendered(entity, normal, inverted) => match self.nav.get(entity) {
                Some(page) => self.with_page(
                    entity,
                    Page {
                        image_handle: Some(normal),
                        inverted_image_handle: Some(inverted),
                        ..page
                    },
                ),
                None => self,
            },
            Notice::PageScroll(steps) => self.wheeled(steps),
            Notice::Pages(pages) => AppState {
                nav: (Items { items: pages, ..self.nav.cleared() }).activated_at(0),
                ..self
            },
            Notice::PdfBackgroundChange(index) => if index < PdfBackground::offered().len() {
                AppState { pdf_background: PdfBackground::offered()[index as int], ..self }
            } else {
                self
            },
            Notice::PropertiesToggle => AppState {
                properties_open: !self.properties_open,
                ..self
            },
            Notice::SearchActivate => AppState { search_active: true, ..self },
            Notice::SearchClear => AppState { search_active: false, ..self },
            Notice::SearchInput(term) => AppState { search_term: term, ..self },
            Notice::SearchResults(_, _) => self,
            Notice::Thumbnail(entity, image) => match self.nav.get(entity) {
                Some(page) => self.with_page(entity, Page { icon_handle: Some(image), ..page }),
                None => self,
            },
            Notice::ZoomDropdown(index) => if index < Zoom::offered().len() {
                AppState { zoom: Zoom::offered()[index as int], ..self }
            } else {
                self
            },
            Notice::ZoomScroll(steps) => AppState { zoom: self.zoom.moved(steps as int), ..self },
        }
    }

    /// What is to be done after a message.
    pub open spec fn tasks(self, notice: Notice<D, I>) -> Seq<Task> {
        match notice {
            Notice::DisplayList(index, _) => match self.entity_of(index) {
                Some(entity) => if self.nav.active == Some(entity) {
                    seq![Task::RefreshPage, Task::RenderThumbnail(entity)]
                } else {
                    seq![Task::RenderThumbnail(entity)]
                },
                None => seq![],
            },
            Notice::FileOpen => seq![Task::OpenFile],
            Notice::Fullscreen => seq![Task::SetWindowMode(self.other_mode())],
            Notice::Key(_, stroke) => self.key_tasks(stroke),
            Notice::MiddleDragMove(point) => match self.middle_drag_pos {
                Some(last) => seq![
                    Task::ScrollContent { offset: self.content_offset(), from: last, to: point },
                ],
                None => seq![],
            },
            Notice::NavSelect(_) | Notice::Pages(_) => seq![Task::RefreshPage],
            Notice::PageScroll(steps) => if steps >= 1 || steps <= -1
                && self.nav.active_position() > 0 {
                seq![Task::RefreshPage]
            } else {
                seq![]
            },
            Notice::SearchActivate => seq![Task::FocusSearch],
            _ => seq![],
        }
    }
}

/// Puts one task in a list.
fn only(task: Task) -> (tasks: Vec<Task>)
    ensures
        tasks@ == seq![task],
{
    let tasks = vec![task];
    assert(tasks@ =~= seq![task]);
    tasks
}

/// An empty list of tasks.
fn nothing() -> (tasks: Vec<Task>)
    ensures
        tasks@ == Seq::<Task>::empty(),
{
    Vec::new()
}

impl<D, I> App<D, I> {
    /// Finds the first page with the number `index`.
    pub fn entity_by_index(&self, index: i32) -> (entity: Option<Entity>)
        ensures
            entity == self@.entity_of(index),
            entity matches Some(e) ==> self@.nav.contains(e) && self@.nav.get(e)->0.index == index,
            entity is None ==> forall|i: int|
                0 <= i < self@.nav.items.len() ==> (#[trigger] self@.nav.items[i]).index != index,
    {
        let mut i: usize = 0;
        while i < self.nav_model.items.len()
            invariant
                i <= self.nav_model.items.len(),
                place_from(self.nav_model.items@, index, 0) == place_from(
                    self.nav_model.items@,
                    index,
                    i as int,
                ),
                forall|j: int|
                    0 <= j < i ==> (#[trigger] self.nav_model.items@[j]).index != index,
            decreases self.nav_model.items.len() - i,
        {
            if self.nav_model.items[i].index == index {
                return Some(Entity { generation: self.nav_model.generation, slot: i });
            }
            i += 1;
        }
        None
    }

    fn toggle_fullscreen(&mut self) -> (tasks: Vec<Task>)
        ensures
            final(self)@ == old(self)@.fullscreen_toggled(),
            tasks@ == seq![Task::SetWindowMode(old(self)@.other_mode())],
    {
        self.fullscreen = !self.fullscreen;
        self.show_headerbar = !self.fullscreen;
        only(
            Task::SetWindowMode(
                if self.fullscreen {
                    WindowMode::Fullscreen
                } else {
                    WindowMode::Windowed
                },
            ),
        )
    }

    fn press(&mut self, key: Key) -> (tasks: Vec<Task>)
        requires
            old(self)@.wf(),
        ensures
            final(self)@ == old(self)@.after_key(key@),
            tasks@ == old(self)@.key_tasks(key@),
    {
        match key {
            Key::ArrowUp | Key::ArrowLeft | Key::PageUp => {
                self.nav_model.previous();
                only(Task::RefreshPage)
            },
            Key::ArrowDown | Key::ArrowRight | Key::PageDown => {
                self.nav_model.next();
                only(Task::RefreshPage)
            },
            Key::Enter => self.toggle_fullscreen(),
            Key::Escape => {
                self.search_active = false;
                nothing()
            },
            Key::Character(text) => match single_char(text.as_str()) {
                Some('0') => {
                    self.zoom = Zoom::Percent(100);
                    nothing()
                },
                Some('-') => {
                    self.zoom = self.zoom.step(-1);
                    nothing()
                },
                Some('=') => {
                    self.zoom = self.zoom.step(1);
                    nothing()
                },
                Some('f') => {
                    self.zoom = Zoom::FitBoth;
                    nothing()
                },
                Some('h') => {
                    self.zoom = Zoom::FitHeight;
                    nothing()
                },
                Some('w') => {
                    self.zoom = Zoom::FitWidth;
                    nothing()
                },
                Some('s') | Some('/') => {
                    self.search_active = true;
                    only(Task::FocusSearch)
                },
                _ => nothing(),
            },
            Key::Other => nothing(),
        }
    }

    fn take_display_list(&mut self, index: i32, display_list: D) -> (tasks: Vec<Task>)
        ensures
            final(self)@ == old(self)@.after(Notice::DisplayList(index, display_list)),
            tasks@ == old(self)@.tasks(Notice::DisplayList(index, display_list)),
    {
        let mut tasks: Vec<Task> = Vec::new();
        if let Some(entity) = self.entity_by_index(index) {
            if let Some(page) = self.nav_model.data_mut(entity) {
                page.display_list = Some(display_list);
            }
            if let Some(active) = self.nav_model.active() {
                if active == entity {
                    tasks.push(Task::RefreshPage);
                }
            }
            tasks.push(Task::RenderThumbnail(entity));
        }
        assert(tasks@ =~= old(self)@.tasks(Notice::DisplayList(index, display_list)));
        tasks
    }

    fn take_images(&mut self, entity: Entity, normal: I, inverted: I)
        ensures
            final(self)@ == old(self)@.after(Notice::PageRendered(entity, normal, inverted)),
    {
        if let Some(page) = self.nav_model.data_mut(entity) {
            page.image_handle = Some(normal);
            page.inverted_image_handle = Some(inverted);
        }
    }

    fn take_thumbnail(&mut self, entity: Entity, image: I)
        ensures
            final(self)@ == old(self)@.after(Notice::Thumbnail(entity, image)),
    {
        if let Some(page) = self.nav_model.data_mut(entity) {
            page.icon_handle = Some(image);
        }
    }

    fn turn_wheel(&mut self, steps: i32) -> (tasks: Vec<Task>)
        ensures
            final(self)@ == old(self)@.wheeled(steps),
            tasks@ == old(self)@.tasks(Notice::PageScroll(steps)),
    {
        self.page_scroll = steps;
        if self.page_scroll >= 1 {
            self.page_scroll = self.page_scroll - 1;
            self.nav_model.next();
            return only(Task::RefreshPage);
        }
        while self.page_scroll <= -1
            invariant
                self@ == (AppState { page_scroll: self.page_scroll, ..old(self)@ }),
                self.page_scroll == steps || self.page_scroll <= 0 && steps <= -1
                    && old(self)@.nav.active_position() == 0,
                self.page_scroll <= 0,
            decreases -self.page_scroll,
        {
            self.page_scroll = self.page_scroll + 1;
            if self.nav_model.previous() {
                return only(Task::RefreshPage);
            }
        }
        nothing()
    }

    fn choose_background(&mut self, index: usize)
        ensures
            final(self)@ == old(self)@.after(Notice::PdfBackgroundChange(index)),
    {
        let all = PdfBackground::all();
        if index < all.len() {
            self.pdf_background = all[index];
        }
    }

    fn choose_zoom(&mut self, index: usize)
        ensures
            final(self)@ == old(self)@.after(Notice::ZoomDropdown(index)),
    {
        let all = Zoom::all();
        if index < all.len() {
            self.zoom = all[index];
        }
    }

    /// Tells whether a message can be taken.
    pub fn can_take(&self, message: &Message<D, I>) -> (can: bool)
        ensures
            can == self@.accepts(message@),
    {
        match message {
            Message::ZoomScroll(steps) => self.zoom.can_step(*steps),
            _ => true,
        }
    }

    /// Takes a message and says what is to be done outside.
    #[verifier::rlimit(40)]
    pub fn update(&mut self, message: Message<D, I>) -> (tasks: Vec<Task>)
        requires
            old(self)@.wf(),
            old(self)@.accepts(message@),
        ensures
            final(self)@ == old(self)@.after(message@),
            tasks@ == old(self)@.tasks(message@),
            final(self)@.wf(),
    {
        proof {
            messages_keep_the_state_sound(old(self)@, message@);
        }
        match message {
            Message::ContentScroll(viewport) => {
                self.content_viewport = Some(viewport);
                nothing()
            },
            Message::DisplayList(index, display_list) => {
                self.take_display_list(index, display_list)
            },
            Message::DocumentMeta(meta) => {
                self.document_meta = Some(meta);
                nothing()
            },
            Message::FileLoad(url) => {
                self.nav_model.clear();
                self.url = Some(url);
                self.document_meta = None;
                self.load_error = None;
                self.properties_open = false;
                nothing()
            },
            Message::FileOpen => only(Task::OpenFile),
            Message::Fullscreen => self.toggle_fullscreen(),
            Message::MiddleDragStart(point) => {
                self.middle_drag_pos = Some(point);
                nothing()
            },
            Message::MiddleDragMove(point) => {
                if let Some(last) = self.middle_drag_pos {
                    let offset = match self.content_viewport {
                        Some(viewport) => viewport.offset,
                        None => Point::origin(),
                    };
                    self.middle_drag_pos = Some(point);
                    only(Task::ScrollContent { offset, from: last, to: point })
                } else {
                    nothing()
                }
            },
            Message::MiddleDragRelease => {
                self.middle_drag_pos = None;
                nothing()
            },
            Message::LoadError(text) => {
                self.load_error = Some(text);
                self.document_meta = None;
                self.nav_model.clear();
                nothing()
            },
            Message::Key(_modifiers, key) => self.press(key),
            Message::ModifiersChanged(modifiers) => {
                self.modifiers = modifiers;
                nothing()
            },
            Message::NavScroll(viewport) => {
                self.nav_viewport = Some(viewport);
                nothing()
            },
            Message::NavSelect(entity) => self.on_nav_select(entity),
            Message::Pages(pages) => {
                self.nav_model.refill(pages);
                self.nav_model.activate_position(0);
                only(Task::RefreshPage)
            },
            Message::PropertiesToggle => {
                self.properties_open = !self.properties_open;
                nothing()
            },
            Message::SearchActivate => {
                self.search_active = true;
                only(Task::FocusSearch)
            },
            Message::SearchClear => {
                self.search_active = false;
                nothing()
            },
            Message::SearchInput(term) => {
                self.search_term = term;
                nothing()
            },
            Message::SearchResults(_entity, _quads) => nothing(),
            Message::PageRendered(entity, normal, inverted) => {
                self.take_images(entity, normal, inverted);
                nothing()
            },
            Message::Thumbnail(entity, image) => {
                self.take_thumbnail(entity, image);
                nothing()
            },
            Message::PdfBackgroundChange(index) => {
                self.choose_background(index);
                nothing()
            },
            Message::ZoomDropdown(index) => {
                self.choose_zoom(index);
                nothing()
            },
            Message::ZoomScroll(steps) => {
                self.zoom = self.zoom.step(steps);
                nothing()
            },
            Message::NaturalScrollToggle => {
                self.natural_scroll = !self.natural_scroll;
                nothing()
            },
            Message::PageScroll(steps) => self.turn_wheel(steps),
        }
    }

    /// Shows the page that was chosen in the list of pages.
    pub fn on_nav_select(&mut self, entity: Entity) -> (tasks: Vec<Task>)
        ensures
            final(self)@ == (AppState { nav: old(self)@.nav.activated(entity), ..old(self)@ }),
            tasks@ == seq![Task::RefreshPage],
    {
        self.nav_model.activate(entity);
        only(Task::RefreshPage)
    }
}

/// A message keeps what every reachable state has in common.
pub proof fn messages_keep_the_state_sound<D, I>(state: AppState<D, I>, notice: Notice<D, I>)
    requires
        state.wf(),
    ensures
        state.after(notice).wf(),
{
}

} // verus!
