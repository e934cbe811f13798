//! What the viewer shows, and what runs beside it, for a given state.

use crate::background::{Color, PdfBackground};
use crate::coord::{Coord, Point};
use crate::document::Page;
use crate::message::{optional_notice, Message, Modifiers, Notice, Quad};
use crate::nav::{Entity, Items, Model};
use crate::properties::{pane, properties, section_texts, Section};
use crate::viewer::{App, AppState, Task};
use crate::zoom::Zoom;
use vstd::prelude::*;

verus! {

/// The width of a thumbnail.
pub const THUMBNAIL_WIDTH: u16 = 128;

/// The widest that the list of pages gets where there is room.
pub const NAV_MAX_WIDTH: u16 = 280;

/// How many places a search finds on a page at most.
pub const SEARCH_LIMIT: u32 = 100;

/// How much larger than its nominal size a page is rendered.
pub const RENDER_SCALE: u8 = 3;

/// Something that is to be done outside for the page that is shown.
#[derive(Clone, Copy, Debug, PartialEq, Eq, Structural)]
pub enum PageTask {
    /// Scroll the list of pages down to an offset.
    ScrollNav(Coord),
    /// Render a page.
    RenderPage(Entity),
}

/// Where the thumbnail of the page that is shown stands in the list of pages.
#[derive(Clone, Copy, Debug, PartialEq, Eq, Structural)]
pub struct ThumbnailEdges {
    /// Its upper edge.
    pub top: Coord,
    /// Its lower edge.
    pub bottom: Coord,
    /// The lower edge of what can be seen of the list.
    pub view_bottom: Coord,
    /// The offset at which the two lower edges meet.
    pub aligned: Coord,
}

/// The image of a page that goes with the background.
pub open spec fn fitting_image<D, I>(page: Page<D, I>, inverted: bool) -> Option<I> {
    if inverted {
        page.inverted_image_handle
    } else {
        page.image_handle
    }
}

/// What the wheel does over a page.
#[derive(Clone, Copy, Debug, PartialEq, Eq, Structural)]
pub enum Wheel {
    Zooms,
    TurnsPages,
}

/// A page as it is shown.
pub struct Shown<'a, D, I> {
    pub page: &'a Page<D, I>,
    pub image: Option<&'a I>,
    pub zoom: Zoom,
    pub color: Color,
    pub wheel: Wheel,
}

/// What fills the window.
pub enum Screen<'a, D, I> {
    /// The properties pane.
    Properties(Vec<Section>),
    /// A page.
    Page(Shown<'a, D, I>),
    /// The invitation to open a file.
    OpenPrompt,
    /// Nothing yet.
    Blank,
}

/// An entry of the list of pages.
pub struct NavEntry<'a, D, I> {
    pub entity: Entity,
    pub page: &'a Page<D, I>,
    pub gap_before: bool,
    pub selected: bool,
}

/// What a [`NavEntry`] holds.
pub struct EntryInfo<D, I> {
    pub entity: Entity,
    pub page: Page<D, I>,
    pub gap_before: bool,
    pub selected: bool,
}

impl<'a, D, I> View for NavEntry<'a, D, I> {
    type V = EntryInfo<D, I>;

    open spec fn view(&self) -> EntryInfo<D, I> {
        EntryInfo {
            entity: self.entity,
            page: *self.page,
            gap_before: self.gap_before,
            selected: self.selected,
        }
    }
}

/// The views of a list of entries.
pub open spec fn entry_infos<D, I>(entries: Seq<NavEntry<'_, D, I>>) -> Seq<EntryInfo<D, I>> {
    entries.map_values(|entry: NavEntry<'_, D, I>| entry@)
}

/// The list of pages as it is shown.
pub struct NavBar<'a, D, I> {
    pub entries: Vec<NavEntry<'a, D, I>>,
    pub width: u32,
    pub max_width: Option<u16>,
}

/// What stands at the start of the header bar.
pub enum HeaderStart<'a> {
    SearchInput(&'a String),
    SearchButton,
}

/// What is chosen in the two menus of the header bar.
#[derive(Clone, Copy, Debug, PartialEq, Eq, Structural)]
pub struct HeaderEnd {
    pub background: Option<usize>,
    pub zoom: Option<usize>,
}

/// A search through the pages.
pub struct Search<'a> {
    pub term: &'a String,
    pub pages: Vec<Entity>,
}

/// What runs beside the viewer.
pub struct Subscriptions<'a> {
    /// The load of the document at a URL.
    pub load: Option<&'a String>,
    /// The search for a term.
    pub search: Option<Search<'a>>,
}

/// The names of the first `count` pages, as far as these are recorded.
pub open spec fn recorded<D, I>(nav: Items<Page<D, I>>, count: nat) -> Seq<Entity>
    decreases count,
{
    if count == 0 {
        Seq::empty()
    } else {
        let before = recorded(nav, (count - 1) as nat);
        if nav.items[count - 1].display_list is Some {
            before.push(nav.entity_at(count - 1))
        } else {
            before
        }
    }
}

impl<D, I> AppState<D, I> {
    /// The scrolling that brings the thumbnail of the page that is shown into sight.
    pub open spec fn thumbnail_scroll(self, edges: Option<ThumbnailEdges>) -> Seq<PageTask> {
        match (self.nav_viewport, edges) {
            (Some(viewport), Some(e)) => if e.top.below(viewport.offset.y) {
                seq![PageTask::ScrollNav(e.top)]
            } else if e.view_bottom.below(e.bottom) {
                seq![PageTask::ScrollNav(e.aligned)]
            } else {
                seq![]
            },
            _ => seq![],
        }
    }

    /// What is to be done for the page that is shown: bring its thumbnail into sight, and
    /// render it if it is recorded and has not been rendered.
    pub open spec fn page_tasks(self, edges: Option<ThumbnailEdges>) -> Seq<PageTask> {
        match self.nav.active_item() {
            Some(page) => self.thumbnail_scroll(edges) + if page.image_handle is None
                && page.display_list is Some {
                seq![PageTask::RenderPage(self.nav.active->0)]
            } else {
                seq![]
            },
            None => seq![],
        }
    }

    /// The entries of the list of pages.
    pub open spec fn entries(self) -> Seq<EntryInfo<D, I>> {
        Seq::new(
            self.nav.items.len(),
            |i: int|
                EntryInfo {
                    entity: self.nav.entity_at(i),
                    page: self.nav.items[i],
                    gap_before: i > 0,
                    selected: self.nav.active == Some(self.nav.entity_at(i)),
                },
        )
    }

    /// The pages that a search goes through.
    pub open spec fn searched(self) -> Seq<Entity> {
        recorded(self.nav, self.nav.items.len())
    }

    /// Whether a search runs.
    pub open spec fn searches(self) -> bool {
        self.search_active && self.search_term.len() > 0
    }
}

impl<D, I> App<D, I> {
    /// Starts the viewer, on the document at a URL if there is one.
    pub fn init(url: Option<String>) -> (start: (Self, Vec<PageTask>))
        ensures
            start.0@ == AppState::<D, I>::initial(crate::text::optional_text(url)),
            start.0@.wf(),
            start.1@ == Seq::<PageTask>::empty(),
    {
        let app = App {
            content_viewport: None,
            url,
            fullscreen: false,
            show_headerbar: true,
            load_error: None,
            middle_drag_pos: None,
            modifiers: Modifiers { control: false },
            natural_scroll: true,
            nav_model: Model::new(),
            nav_viewport: None,
            page_scroll: 0,
            pdf_background: PdfBackground::SystemTheme,
            pdf_background_names: PdfBackground::names(),
            properties_open: false,
            document_meta: None,
            search_active: false,
            search_term: String::new(),
            zoom: Zoom::FitBoth,
            zoom_names: Zoom::names(),
        };
        let tasks = app.update_page(None);
        (app, tasks)
    }

    /// Says what is to be done for the page that is shown. `edges` tells where its thumbnail
    /// stands, as far as that is known.
    pub fn update_page(&self, edges: Option<ThumbnailEdges>) -> (tasks: Vec<PageTask>)
        ensures
            tasks@ == self@.page_tasks(edges),
    {
        let mut tasks: Vec<PageTask> = Vec::new();
        if let Some(entity) = self.nav_model.active() {
            if let Some(page) = self.nav_model.data(entity) {
                if let Some(viewport) = self.nav_viewport {
                    if let Some(e) = edges {
                        if e.top.less_than(viewport.offset.y) {
                            // Scroll up if necessary
                            tasks.push(PageTask::ScrollNav(e.top));
                        } else if e.view_bottom.less_than(e.bottom) {
                            // Scroll down if necessary
                            tasks.push(PageTask::ScrollNav(e.aligned));
                        }
                    }
                }
                if page.image_handle.is_none() && page.display_list.is_some() {
                    tasks.push(PageTask::RenderPage(entity));
                }
            }
        }
        assert(tasks@ =~= self@.page_tasks(edges));
        tasks
    }

    /// Takes note that the system's theme has changed.
    pub fn system_theme_mode_update(&self) -> (tasks: Vec<Task>)
        ensures
            tasks@ == if self@.pdf_background == PdfBackground::SystemTheme {
                seq![Task::RefreshPage]
            } else {
                seq![]
            },
    {
        let mut tasks: Vec<Task> = Vec::new();
        if self.pdf_background == PdfBackground::SystemTheme {
            tasks.push(Task::RefreshPage);
        }
        assert(tasks@ =~= if self@.pdf_background == PdfBackground::SystemTheme {
            seq![Task::RefreshPage]
        } else {
            seq![]
        });
        tasks
    }

    /// What stands at the start of the header bar: the search field, or the button for it.
    pub fn header_start(&self) -> (start: HeaderStart<'_>)
        ensures
            match start {
                HeaderStart::SearchInput(term) => self@.search_active && term@
                    == self@.search_term,
                HeaderStart::SearchButton => !self@.search_active,
            },
    {
        if self.search_active {
            HeaderStart::SearchInput(&self.search_term)
        } else {
            HeaderStart::SearchButton
        }
    }

    /// What is chosen in the menus of the header bar.
    pub fn header_end(&self) -> (end: HeaderEnd)
        ensures
            end.background is Some,
            end.background->0 == self@.pdf_background.place(),
            end.zoom matches Some(i) ==> self@.zoom.place() == Some(i as int),
            end.zoom is None ==> self@.zoom.place() is None,
            self@.wf() ==> end.zoom is Some,
    {
        HeaderEnd { background: self.pdf_background.position(), zoom: self.zoom.position() }
    }

    /// The list of pages, unless it is switched off or the window is in full screen. `space`
    /// is the distance between entries, and beside them.
    pub fn nav_bar(&self, active: bool, condensed: bool, space: u16) -> (bar: Option<
        NavBar<'_, D, I>,
    >)
        ensures
            bar is Some <==> active && !self@.fullscreen,
            bar matches Some(b) ==> {
                &&& entry_infos(b.entries@) == self@.entries()
                &&& b.width == THUMBNAIL_WIDTH + 2 * space
                &&& b.max_width == if condensed {
                    None
                } else {
                    Some(NAV_MAX_WIDTH)
                }
            },
    {
        if !active || self.fullscreen {
            return None;
        }
        let mut entries: Vec<NavEntry<'_, D, I>> = Vec::new();
        let mut i: usize = 0;
        while i < self.nav_model.len()
            invariant
                i <= self@.nav.items.len(),
                entries.len() == i,
                forall|j: int| 0 <= j < i ==> (#[trigger] entries@[j])@ == self@.entries()[j],
            decreases self@.nav.items.len() - i,
        {
            let entity = Entity { generation: self.nav_model.generation, slot: i };
            let selected = match self.nav_model.active() {
                Some(active) => active == entity,
                None => false,
            };
            let page = &self.nav_model.items[i];
            entries.push(NavEntry { entity, page, gap_before: i > 0, selected });
            i += 1;
        }
        assert(entry_infos(entries@) =~= self@.entries());
        Some(
            NavBar {
                entries,
                width: THUMBNAIL_WIDTH as u32 + 2 * (space as u32),
                max_width: if condensed {
                    None
                } else {
                    Some(NAV_MAX_WIDTH)
                },
            },
        )
    }

    /// What fills the window.
    pub fn screen(&self, is_dark: bool) -> (screen: Screen<'_, D, I>)
        ensures
            match screen {
                Screen::Properties(sections) => {
                    &&& self@.properties_open
                    &&& section_texts(sections@) == pane(
                        self@.document_meta,
                        self@.natural_scroll,
                    )
                },
                Screen::Page(shown) => {
                    &&& !self@.properties_open
                    &&& self@.nav.active_item() == Some(*shown.page)
                    &&& fitting_image(*shown.page, self@.pdf_background.is_dark_mode(is_dark))
                        == match shown.image {
                        Some(image) => Some(*image),
                        None => None,
                    }
                    &&& shown.zoom == self@.zoom
                    &&& shown.color == self@.pdf_background.color(is_dark)
                    &&& shown.wheel == if self@.modifiers.control {
                        Wheel::Zooms
                    } else {
                        Wheel::TurnsPages
                    }
                },
                Screen::OpenPrompt => {
                    &&& !self@.properties_open
                    &&& self@.nav.active_item() is None
                    &&& self@.url is None
                },
                Screen::Blank => {
                    &&& !self@.properties_open
                    &&& self@.nav.active_item() is None
                    &&& self@.url is Some
                },
            },
    {
        if self.properties_open {
            return Screen::Properties(properties(&self.document_meta, self.natural_scroll));
        }
        if let Some(entity) = self.nav_model.active() {
            if let Some(page) = self.nav_model.data(entity) {
                let image = if self.pdf_background.inverts_content(is_dark) {
                    page.inverted_image_handle.as_ref()
                } else {
                    page.image_handle.as_ref()
                };
                return Screen::Page(
                    Shown {
                        page,
                        image,
                        zoom: self.zoom,
                        color: self.pdf_background.to_color(is_dark),
                        wheel: if self.modifiers.control {
                            Wheel::Zooms
                        } else {
                            Wheel::TurnsPages
                        },
                    },
                );
            }
        }
        if self.url.is_none() {
            Screen::OpenPrompt
        } else {
            Screen::Blank
        }
    }

    /// What runs beside the viewer: the load of its document, and the search for a term that
    /// is not empty while the search field is shown.
    pub fn subscription(&self) -> (subscriptions: Subscriptions<'_>)
        ensures
            self@.url == match subscriptions.load {
                Some(url) => Some(url@),
                None => None,
            },
            subscriptions.search is Some <==> self@.searches(),
            subscriptions.search matches Some(search) ==> search.term@ == self@.search_term
                && search.pages@ == self@.searched(),
    {
        let search = if self.search_active && !self.search_term.as_str().is_empty() {
            let mut pages: Vec<Entity> = Vec::new();
            let mut i: usize = 0;
            while i < self.nav_model.items.len()
                invariant
                    i <= self.nav_model.items.len(),
                    pages@ == recorded(self@.nav, i as nat),
                decreases self.nav_model.items.len() - i,
            {
                if self.nav_model.items[i].display_list.is_some() {
                    pages.push(Entity { generation: self.nav_model.generation, slot: i });
                }
                i += 1;
            }
            Some(Search { term: &self.search_term, pages })
        } else {
            None
        };
        Subscriptions { load: self.url.as_ref(), search }
    }

    /// The sign with which a turn of the wheel counts towards turning pages.
    pub fn wheel_sign(&self) -> (sign: i8)
        ensures
            sign == if self@.natural_scroll {
                -1int
            } else {
                1int
            },
    {
        if self.natural_scroll {
            -1
        } else {
            1
        }
    }
}

/// How a turn of the wheel is measured.
#[derive(Clone, Copy, Debug, PartialEq, Eq, Structural)]
pub enum WheelUnit {
    Lines,
    Pixels,
}

impl WheelUnit {
    /// How many units turn one page.
    pub fn per_page(self) -> (units: u8)
        ensures
            self == WheelUnit::Lines ==> units == 3,
            self == WheelUnit::Pixels ==> units == 60,
    {
        match self {
            WheelUnit::Lines => 3,
            WheelUnit::Pixels => 60,
        }
    }

    /// How many units make one zoom step.
    pub fn per_zoom_step(self) -> (units: u8)
        ensures
            self == WheelUnit::Lines ==> units == 1,
            self == WheelUnit::Pixels ==> units == 20,
    {
        match self {
            WheelUnit::Lines => 1,
            WheelUnit::Pixels => 20,
        }
    }
}

/// The offset that a drag scrolls to: never one before the start of the content.
pub fn drag_target(moved: Point) -> (target: Point)
    ensures
        target.x == moved.x.or_zero(),
        target.y == moved.y.or_zero(),
{
    Point { x: moved.x.at_least_zero(), y: moved.y.at_least_zero() }
}

/// What the viewer is told of a page that was searched: where the term was found, or nothing
/// where it was not.
pub fn search_report<D, I>(entity: Entity, quads: Vec<Quad>) -> (message: Option<Message<D, I>>)
    ensures
        optional_notice(message) == if quads@.len() == 0 {
            None
        } else {
            Some(Notice::<D, I>::SearchResults(entity, quads@))
        },
{
    if quads.len() == 0 {
        None
    } else {
        Some(Message::SearchResults(entity, quads))
    }
}

} // verus!
