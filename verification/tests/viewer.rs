use cosmic_reader::background::PdfBackground;
use cosmic_reader::coord::{Coord, Point, Rectangle, Viewport};
use cosmic_reader::document::{DocumentMeta, Page, PageBounds};
use cosmic_reader::message::{Key, Message, Modifiers, Quad};
use cosmic_reader::nav::Entity;
use cosmic_reader::viewer::{App, Task, WindowMode};
use cosmic_reader::zoom::Zoom;

type Viewer = App<u32, &'static str>;

const PLAIN: Modifiers = Modifiers { control: false };

fn c(value: f32) -> Coord {
    Coord { bits: value.to_bits() }
}

fn point(x: f32, y: f32) -> Point {
    Point { x: c(x), y: c(y) }
}

fn viewport(x: f32, y: f32) -> Viewport {
    Viewport {
        bounds: Rectangle { x: c(0.0), y: c(0.0), width: c(100.0), height: c(50.0) },
        offset: point(x, y),
    }
}

fn bounds() -> PageBounds {
    PageBounds { x0: c(0.0), y0: c(0.0), x1: c(612.0), y1: c(792.0) }
}

fn meta() -> DocumentMeta {
    DocumentMeta {
        title: None,
        author: None,
        subject: None,
        creator: None,
        producer: None,
        page_count: 3,
        file_path: b"/a.pdf".to_vec(),
        file_size: 1,
    }
}

fn viewer(pages: i32) -> Viewer {
    let mut app = App::init(Some("file:///a.pdf".to_string())).0;
    app.update(Message::Pages((0..pages).map(|i| Page::new(i, bounds())).collect()));
    app
}

fn entity(app: &Viewer, slot: usize) -> Entity {
    Entity { generation: app.nav_model.generation, slot }
}

fn press(app: &mut Viewer, text: &str) -> Vec<Task> {
    app.update(Message::Key(PLAIN, Key::Character(text.to_string())))
}

fn place(app: &Viewer) -> usize {
    app.nav_model.current_position()
}

#[test]
fn a_new_viewer_has_its_defaults() {
    let (app, tasks): (Viewer, _) = App::init(None);
    assert!(tasks.is_empty());
    assert_eq!(app.url, None);
    assert_eq!(app.zoom, Zoom::FitBoth);
    assert_eq!(app.pdf_background, PdfBackground::SystemTheme);
    assert!(app.natural_scroll);
    assert!(app.show_headerbar);
    assert!(!app.fullscreen && !app.properties_open && !app.search_active);
    assert_eq!(app.page_scroll, 0);
    assert_eq!(app.zoom_names, Zoom::names());
    assert_eq!(app.pdf_background_names, PdfBackground::names());
    assert_eq!(app.nav_model.len(), 0);
}

#[test]
fn pages_fill_the_list_and_show_the_first() {
    let mut app = viewer(3);
    assert_eq!(app.nav_model.len(), 3);
    assert_eq!(app.nav_model.active(), Some(entity(&app, 0)));
    let old = entity(&app, 0);
    let tasks = app.update(Message::Pages(vec![Page::new(0, bounds())]));
    assert_eq!(tasks, vec![Task::RefreshPage]);
    assert_eq!(app.nav_model.len(), 1);
    assert_ne!(app.nav_model.active(), Some(old));
    app.update(Message::Pages(vec![]));
    assert_eq!(app.nav_model.active(), None);
}

#[test]
fn a_record_goes_to_the_page_with_its_number() {
    let mut app = viewer(3);
    let (first, third) = (entity(&app, 0), entity(&app, 2));
    assert_eq!(app.entity_by_index(2), Some(third));
    assert_eq!(app.entity_by_index(3), None);
    assert_eq!(app.update(Message::DisplayList(2, 22)), vec![Task::RenderThumbnail(third)]);
    assert_eq!(
        app.update(Message::DisplayList(0, 20)),
        vec![Task::RefreshPage, Task::RenderThumbnail(first)]
    );
    assert_eq!(app.update(Message::DisplayList(3, 23)), vec![]);
    assert_eq!(app.update(Message::DisplayList(-1, 23)), vec![]);
    let lists: Vec<_> = app.nav_model.items.iter().map(|p| p.display_list).collect();
    assert_eq!(lists, vec![Some(20), None, Some(22)]);
}

#[test]
fn the_first_of_equal_numbers_is_found() {
    let mut app = viewer(0);
    app.update(Message::Pages(vec![
        Page::new(4, bounds()),
        Page::new(7, bounds()),
        Page::new(7, bounds()),
    ]));
    assert_eq!(app.entity_by_index(7), Some(entity(&app, 1)));
}

#[test]
fn images_go_to_their_page() {
    let mut app = viewer(2);
    let second = entity(&app, 1);
    assert!(app.update(Message::PageRendered(second, "normal", "inverted")).is_empty());
    assert!(app.update(Message::Thumbnail(second, "icon")).is_empty());
    let page = app.nav_model.data(second).unwrap();
    assert_eq!(page.image_handle, Some("normal"));
    assert_eq!(page.inverted_image_handle, Some("inverted"));
    assert_eq!(page.icon_handle, Some("icon"));
    assert_eq!(app.nav_model.items[0].image_handle, None);
    assert_eq!(app.nav_model.items[0].icon_handle, None);
}

#[test]
fn late_images_are_dropped() {
    for message in [
        Message::FileLoad("file:///b.pdf".to_string()),
        Message::LoadError("gone".to_string()),
        Message::Pages(vec![Page::new(0, bounds()), Page::new(1, bounds())]),
    ] {
        let mut app = viewer(2);
        let old = entity(&app, 1);
        app.update(message);
        app.update(Message::PageRendered(old, "normal", "inverted"));
        app.update(Message::Thumbnail(old, "icon"));
        assert!(app.nav_model.items.iter().all(|p| p.image_handle.is_none()));
        assert!(app.nav_model.items.iter().all(|p| p.icon_handle.is_none()));
    }
}

#[test]
fn another_file_starts_afresh() {
    let mut app = viewer(2);
    app.update(Message::DocumentMeta(meta()));
    app.update(Message::PropertiesToggle);
    app.update(Message::ZoomDropdown(4));
    app.load_error = Some("old".to_string());
    assert!(app.update(Message::FileLoad("file:///b.pdf".to_string())).is_empty());
    assert_eq!(app.url.as_deref(), Some("file:///b.pdf"));
    assert_eq!(app.nav_model.len(), 0);
    assert!(app.document_meta.is_none());
    assert_eq!(app.load_error, None);
    assert!(!app.properties_open);
    assert_eq!(app.zoom, Zoom::Percent(50));
}

#[test]
fn an_error_empties_the_viewer() {
    let mut app = viewer(2);
    app.update(Message::DocumentMeta(meta()));
    assert!(app.document_meta.is_some());
    assert!(app.update(Message::LoadError("broken".to_string())).is_empty());
    assert_eq!(app.load_error.as_deref(), Some("broken"));
    assert!(app.document_meta.is_none());
    assert_eq!(app.nav_model.len(), 0);
    assert_eq!(app.url.as_deref(), Some("file:///a.pdf"));
}

#[test]
fn fullscreen_hides_the_header_bar() {
    let mut app = viewer(1);
    assert_eq!(
        app.update(Message::Fullscreen),
        vec![Task::SetWindowMode(WindowMode::Fullscreen)]
    );
    assert!(app.fullscreen && !app.show_headerbar);
    assert_eq!(
        app.update(Message::Key(PLAIN, Key::Enter)),
        vec![Task::SetWindowMode(WindowMode::Windowed)]
    );
    assert!(!app.fullscreen && app.show_headerbar);
}

#[test]
fn files_are_opened_by_a_dialog() {
    let mut app = viewer(1);
    assert_eq!(app.update(Message::FileOpen), vec![Task::OpenFile]);
}

#[test]
fn keys_turn_pages() {
    for (forward, back) in [
        (Key::ArrowDown, Key::ArrowUp),
        (Key::ArrowRight, Key::ArrowLeft),
        (Key::PageDown, Key::PageUp),
    ] {
        let mut app = viewer(2);
        assert_eq!(app.update(Message::Key(PLAIN, back.clone())), vec![Task::RefreshPage]);
        assert_eq!(place(&app), 0);
        assert_eq!(app.update(Message::Key(PLAIN, forward.clone())), vec![Task::RefreshPage]);
        assert_eq!(place(&app), 1);
        app.update(Message::Key(PLAIN, forward));
        assert_eq!(place(&app), 1);
        app.update(Message::Key(PLAIN, back));
        assert_eq!(place(&app), 0);
    }
}

#[test]
fn keys_zoom() {
    let mut app = viewer(1);
    assert!(press(&mut app, "-").is_empty());
    assert_eq!(app.zoom, Zoom::Percent(75));
    press(&mut app, "=");
    press(&mut app, "=");
    assert_eq!(app.zoom, Zoom::Percent(125));
    press(&mut app, "0");
    assert_eq!(app.zoom, Zoom::Percent(100));
    press(&mut app, "f");
    assert_eq!(app.zoom, Zoom::FitBoth);
    press(&mut app, "h");
    assert_eq!(app.zoom, Zoom::FitHeight);
    press(&mut app, "w");
    assert_eq!(app.zoom, Zoom::FitWidth);
    press(&mut app, "=");
    assert_eq!(app.zoom, Zoom::Percent(125));
    for _ in 0..30 {
        press(&mut app, "=");
    }
    assert_eq!(app.zoom, Zoom::Percent(500));
    for _ in 0..30 {
        press(&mut app, "-");
    }
    assert_eq!(app.zoom, Zoom::Percent(25));
}

#[test]
fn other_keys_do_nothing() {
    let mut app = viewer(2);
    for text in ["x", "F", "", "==", "00", "é"] {
        assert!(press(&mut app, text).is_empty());
    }
    assert!(app.update(Message::Key(PLAIN, Key::Other)).is_empty());
    assert_eq!(app.zoom, Zoom::FitBoth);
    assert!(!app.search_active);
    assert_eq!(place(&app), 0);
}

#[test]
fn the_search_field_comes_and_goes() {
    let mut app = viewer(1);
    assert_eq!(press(&mut app, "s"), vec![Task::FocusSearch]);
    assert!(app.search_active);
    app.update(Message::SearchInput("term".to_string()));
    assert!(app.update(Message::SearchClear).is_empty());
    assert!(!app.search_active);
    assert_eq!(app.search_term, "term");
    assert_eq!(press(&mut app, "/"), vec![Task::FocusSearch]);
    assert!(app.search_active);
    app.update(Message::Key(PLAIN, Key::Escape));
    assert!(!app.search_active);
    assert_eq!(app.update(Message::SearchActivate), vec![Task::FocusSearch]);
    assert!(app.search_active);
    assert_eq!(app.search_term, "term");
}

#[test]
fn search_results_change_nothing_yet() {
    let mut app = viewer(1);
    let quad = Quad {
        upper_left: point(0.0, 0.0),
        upper_right: point(1.0, 0.0),
        lower_left: point(0.0, 1.0),
        lower_right: point(1.0, 1.0),
    };
    let first = entity(&app, 0);
    assert!(app.update(Message::SearchResults(first, vec![quad])).is_empty());
}

#[test]
fn the_wheel_turns_one_page_and_owes_the_rest() {
    let mut app = viewer(5);
    assert_eq!(app.update(Message::PageScroll(3)), vec![Task::RefreshPage]);
    assert_eq!((place(&app), app.page_scroll), (1, 2));
    assert_eq!(app.update(Message::PageScroll(2)), vec![Task::RefreshPage]);
    assert_eq!((place(&app), app.page_scroll), (2, 1));
    assert_eq!(app.update(Message::PageScroll(-2)), vec![Task::RefreshPage]);
    assert_eq!((place(&app), app.page_scroll), (1, -1));
    assert_eq!(app.update(Message::PageScroll(0)), vec![]);
    assert_eq!((place(&app), app.page_scroll), (1, 0));
}

#[test]
fn owed_steps_end_at_the_last_page() {
    let mut app = viewer(3);
    for steps in (1..=5).rev() {
        app.update(Message::PageScroll(steps));
    }
    assert_eq!((place(&app), app.page_scroll), (2, 0));
}

#[test]
fn at_the_first_page_nothing_is_owed() {
    let mut app = viewer(3);
    assert_eq!(app.update(Message::PageScroll(-4)), vec![]);
    assert_eq!((place(&app), app.page_scroll), (0, 0));
    app.update(Message::PageScroll(i32::MAX));
    assert_eq!((place(&app), app.page_scroll), (1, i32::MAX - 1));
}

#[test]
fn the_wheel_zooms_by_steps() {
    let mut app = viewer(1);
    assert!(app.update(Message::ZoomScroll(0)).is_empty());
    assert_eq!(app.zoom, Zoom::Percent(100));
    app.update(Message::ZoomScroll(3));
    assert_eq!(app.zoom, Zoom::Percent(175));
    app.update(Message::ZoomScroll(-100));
    assert_eq!(app.zoom, Zoom::Percent(25));
    assert!(app.can_take(&Message::ZoomScroll(1000)));
    assert!(!app.can_take(&Message::ZoomScroll(i32::MAX)));
    assert!(app.can_take(&Message::PageScroll(i32::MAX)));
}

#[test]
fn menus_choose_what_they_offer() {
    let mut app = viewer(1);
    app.update(Message::ZoomDropdown(22));
    assert_eq!(app.zoom, Zoom::Percent(500));
    app.update(Message::ZoomDropdown(23));
    assert_eq!(app.zoom, Zoom::Percent(500));
    app.update(Message::PdfBackgroundChange(3));
    assert_eq!(app.pdf_background, PdfBackground::Dark);
    app.update(Message::PdfBackgroundChange(4));
    assert_eq!(app.pdf_background, PdfBackground::Dark);
}

#[test]
fn dragging_scrolls_from_where_the_content_is() {
    let mut app = viewer(1);
    assert!(app.update(Message::MiddleDragMove(point(5.0, 5.0))).is_empty());
    app.update(Message::MiddleDragStart(point(0.0, 0.0)));
    assert_eq!(
        app.update(Message::MiddleDragMove(point(5.0, 6.0))),
        vec![Task::ScrollContent {
            offset: point(0.0, 0.0),
            from: point(0.0, 0.0),
            to: point(5.0, 6.0)
        }]
    );
    app.update(Message::ContentScroll(viewport(30.0, 40.0)));
    assert_eq!(
        app.update(Message::MiddleDragMove(point(4.0, 4.0))),
        vec![Task::ScrollContent {
            offset: point(30.0, 40.0),
            from: point(5.0, 6.0),
            to: point(4.0, 4.0)
        }]
    );
    app.update(Message::MiddleDragRelease);
    assert!(app.update(Message::MiddleDragMove(point(9.0, 9.0))).is_empty());
    assert_eq!(app.middle_drag_pos, None);
}

#[test]
fn small_messages_are_kept() {
    let mut app = viewer(2);
    app.update(Message::NavScroll(viewport(0.0, 7.0)));
    assert_eq!(app.nav_viewport, Some(viewport(0.0, 7.0)));
    app.update(Message::ModifiersChanged(Modifiers { control: true }));
    assert!(app.modifiers.control);
    app.update(Message::NaturalScrollToggle);
    assert!(!app.natural_scroll);
    app.update(Message::NaturalScrollToggle);
    assert!(app.natural_scroll);
    app.update(Message::PropertiesToggle);
    assert!(app.properties_open);
    app.update(Message::PropertiesToggle);
    assert!(!app.properties_open);
    let second = entity(&app, 1);
    assert_eq!(app.update(Message::NavSelect(second)), vec![Task::RefreshPage]);
    assert_eq!(app.nav_model.active(), Some(second));
}
