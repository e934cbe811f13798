use cosmic_reader::background::{Color, PdfBackground};
use cosmic_reader::coord::{Coord, Point, Rectangle, Viewport};
use cosmic_reader::document::{DocumentMeta, Page, PageBounds};
use cosmic_reader::message::{listen, Input, Key, Message, Modifiers, Quad};
use cosmic_reader::nav::Entity;
use cosmic_reader::properties::{properties, Section, Value};
use cosmic_reader::screen::{
    search_report, HeaderEnd, HeaderStart, PageTask, Screen, ThumbnailEdges, Wheel,
    WheelUnit, THUMBNAIL_WIDTH,
};
use cosmic_reader::viewer::{App, Task};
use cosmic_reader::zoom::Zoom;

type Viewer = App<u32, &'static str>;

fn c(value: f32) -> Coord {
    Coord { bits: value.to_bits() }
}

fn bounds() -> PageBounds {
    PageBounds { x0: c(0.0), y0: c(0.0), x1: c(612.0), y1: c(792.0) }
}

fn viewer(pages: i32) -> Viewer {
    let mut app = App::init(Some("file:///a.pdf".to_string())).0;
    app.update(Message::Pages((0..pages).map(|i| Page::new(i, bounds())).collect()));
    app
}

fn entity(app: &Viewer, slot: usize) -> Entity {
    Entity { generation: app.nav_model.generation, slot }
}

fn scrolled(app: &mut Viewer, y: f32) {
    app.update(Message::NavScroll(Viewport {
        bounds: Rectangle { x: c(0.0), y: c(0.0), width: c(144.0), height: c(300.0) },
        offset: Point { x: c(0.0), y: c(y) },
    }));
}

/// The edges of a thumbnail in a list of which 300 units can be seen from `offset` on.
fn edges(offset: f32, top: f32, height: f32) -> Option<ThumbnailEdges> {
    Some(ThumbnailEdges {
        top: c(top),
        bottom: c(top + height),
        view_bottom: c(offset + 300.0),
        aligned: c(top + height - 300.0),
    })
}

#[test]
fn a_thumbnail_out_of_sight_is_scrolled_to() {
    let mut app = viewer(1);
    assert_eq!(app.update_page(edges(0.0, 500.0, 100.0)), vec![]);
    scrolled(&mut app, 200.0);
    assert_eq!(app.update_page(None), vec![]);
    assert_eq!(app.update_page(edges(200.0, 150.0, 100.0)), vec![PageTask::ScrollNav(c(150.0))]);
    assert_eq!(app.update_page(edges(200.0, 450.0, 100.0)), vec![PageTask::ScrollNav(c(250.0))]);
    assert_eq!(app.update_page(edges(200.0, 200.0, 300.0)), vec![]);
    assert_eq!(app.update_page(edges(200.0, 250.0, 100.0)), vec![]);
    // Taller than what can be seen: the upper edge comes first.
    assert_eq!(app.update_page(edges(200.0, 100.0, 900.0)), vec![PageTask::ScrollNav(c(100.0))]);
}

#[test]
fn the_page_shown_is_rendered_once() {
    let mut app = viewer(2);
    assert_eq!(app.update_page(None), vec![]);
    app.update(Message::DisplayList(1, 11));
    assert_eq!(app.update_page(None), vec![]);
    app.update(Message::DisplayList(0, 10));
    let first = entity(&app, 0);
    assert_eq!(app.update_page(None), vec![PageTask::RenderPage(first)]);
    scrolled(&mut app, 200.0);
    assert_eq!(
        app.update_page(edges(200.0, 0.0, 10.0)),
        vec![PageTask::ScrollNav(c(0.0)), PageTask::RenderPage(first)]
    );
    app.update(Message::PageRendered(first, "normal", "inverted"));
    assert_eq!(app.update_page(None), vec![]);
}

#[test]
fn without_a_page_there_is_nothing_to_do() {
    let mut app = viewer(0);
    scrolled(&mut app, 200.0);
    assert_eq!(app.update_page(edges(200.0, 0.0, 10.0)), vec![]);
}

#[test]
fn only_the_system_mode_follows_the_theme() {
    let mut app = viewer(1);
    assert_eq!(app.system_theme_mode_update(), vec![Task::RefreshPage]);
    for index in 1..4 {
        app.update(Message::PdfBackgroundChange(index));
        assert_eq!(app.system_theme_mode_update(), vec![]);
    }
}

#[test]
fn the_header_shows_what_is_chosen() {
    let mut app = viewer(1);
    assert!(matches!(app.header_start(), HeaderStart::SearchButton));
    app.update(Message::SearchInput("needle".to_string()));
    app.update(Message::SearchActivate);
    assert!(matches!(app.header_start(), HeaderStart::SearchInput(term) if term == "needle"));
    assert_eq!(app.header_end(), HeaderEnd { background: Some(0), zoom: Some(0) });
    app.update(Message::PdfBackgroundChange(2));
    app.update(Message::ZoomDropdown(6));
    assert_eq!(app.header_end(), HeaderEnd { background: Some(2), zoom: Some(6) });
    app.zoom = Zoom::Percent(33);
    assert_eq!(app.header_end(), HeaderEnd { background: Some(2), zoom: None });
}

#[test]
fn the_zoom_menu_always_shows_a_choice() {
    let mut app = viewer(1);
    for i in 0..app.zoom_names.len() {
        app.update(Message::ZoomDropdown(i));
        assert_eq!(app.header_end().zoom, Some(i));
    }
    for steps in [-1, -100, 1, 2, 100, -3] {
        app.update(Message::ZoomScroll(steps));
        assert!(app.header_end().zoom.is_some());
    }
}

#[test]
fn the_page_list_has_an_entry_for_each_page() {
    let mut app = viewer(3);
    let second = entity(&app, 1);
    app.update(Message::NavSelect(second));
    app.update(Message::Thumbnail(second, "icon"));
    let bar = app.nav_bar(true, false, 8).unwrap();
    assert_eq!(bar.width, 128 + 16);
    assert_eq!(THUMBNAIL_WIDTH, 128);
    assert_eq!(bar.max_width, Some(280));
    assert_eq!(bar.entries.len(), 3);
    for (slot, entry) in bar.entries.iter().enumerate() {
        assert_eq!(entry.entity, entity(&app, slot));
        assert_eq!(entry.page.index, slot as i32);
        assert_eq!(entry.page.icon_handle, if slot == 1 { Some("icon") } else { None });
        assert_eq!(entry.gap_before, slot > 0);
        assert_eq!(entry.selected, slot == 1);
    }
    assert_eq!(app.nav_bar(true, true, u16::MAX).unwrap().max_width, None);
    assert_eq!(app.nav_bar(true, true, u16::MAX).unwrap().width, 131198);
}

#[test]
fn the_page_list_can_be_hidden() {
    let mut app = viewer(3);
    assert!(app.nav_bar(false, false, 8).is_none());
    app.update(Message::Fullscreen);
    assert!(app.nav_bar(true, false, 8).is_none());
}

#[test]
fn without_a_document_a_file_is_asked_for() {
    let (mut app, _): (Viewer, _) = App::init(None);
    assert!(matches!(app.screen(false), Screen::OpenPrompt));
    app.update(Message::FileLoad("file:///b.pdf".to_string()));
    assert!(matches!(app.screen(false), Screen::Blank));
    app.update(Message::PropertiesToggle);
    assert!(matches!(app.screen(false), Screen::Properties(_)));
}

#[test]
fn a_page_is_shown_as_its_background_wants() {
    let mut app = viewer(1);
    let first = entity(&app, 0);
    match app.screen(true) {
        Screen::Page(shown) => {
            assert_eq!(shown.page.index, 0);
            assert_eq!(shown.image, None);
            assert_eq!(shown.zoom, Zoom::FitBoth);
            assert_eq!(shown.wheel, Wheel::TurnsPages);
            assert_eq!(shown.color, Color { red: 1, green: 1, blue: 1 });
        }
        _ => panic!("no page"),
    }
    app.update(Message::PageRendered(first, "normal", "inverted"));
    app.update(Message::ModifiersChanged(Modifiers { control: true }));
    for (index, is_dark, image) in [
        (0, true, "inverted"),
        (0, false, "normal"),
        (1, true, "normal"),
        (2, true, "normal"),
        (3, false, "inverted"),
    ] {
        app.update(Message::PdfBackgroundChange(index));
        match app.screen(is_dark) {
            Screen::Page(shown) => {
                assert_eq!(shown.image, Some(&image));
                assert_eq!(shown.wheel, Wheel::Zooms);
                assert_eq!(shown.color, PdfBackground::all()[index].to_color(is_dark));
            }
            _ => panic!("no page"),
        }
    }
}

#[test]
fn an_unrendered_inversion_is_not_replaced_by_the_page() {
    let mut app = viewer(1);
    app.nav_model.items[0].image_handle = Some("normal");
    app.update(Message::PdfBackgroundChange(3));
    match app.screen(false) {
        Screen::Page(shown) => assert_eq!(shown.image, None),
        _ => panic!("no page"),
    }
}

#[test]
fn the_load_and_the_search_run_beside() {
    let mut app = viewer(3);
    app.update(Message::DisplayList(0, 10));
    app.update(Message::DisplayList(2, 12));
    assert_eq!(app.subscription().load.unwrap(), "file:///a.pdf");
    assert!(app.subscription().search.is_none());
    app.update(Message::SearchActivate);
    assert!(app.subscription().search.is_none());
    app.update(Message::SearchInput("needle".to_string()));
    let subscriptions = app.subscription();
    let search = subscriptions.search.unwrap();
    assert_eq!(search.term, "needle");
    assert_eq!(search.pages, vec![entity(&app, 0), entity(&app, 2)]);
    app.update(Message::SearchClear);
    assert!(app.subscription().search.is_none());
    let (empty, _): (Viewer, _) = App::init(None);
    assert!(empty.subscription().load.is_none());
}

#[test]
fn only_hits_are_reported() {
    let at = Point { x: c(1.0), y: c(2.0) };
    let quad = Quad { upper_left: at, upper_right: at, lower_left: at, lower_right: at };
    let name = Entity { generation: 1, slot: 2 };
    let none: Option<Message<u32, u32>> = search_report(name, vec![]);
    assert!(none.is_none());
    match search_report::<u32, u32>(name, vec![quad]) {
        Some(Message::SearchResults(entity, quads)) => {
            assert_eq!(entity, name);
            assert_eq!(quads, vec![quad]);
        }
        _ => panic!("no report"),
    }
}

#[test]
fn the_wheel_is_measured_in_lines_or_pixels() {
    assert_eq!(WheelUnit::Lines.per_page(), 3);
    assert_eq!(WheelUnit::Pixels.per_page(), 60);
    assert_eq!(WheelUnit::Lines.per_zoom_step(), 1);
    assert_eq!(WheelUnit::Pixels.per_zoom_step(), 20);
    let mut app = viewer(1);
    assert_eq!(app.wheel_sign(), -1);
    app.update(Message::NaturalScrollToggle);
    assert_eq!(app.wheel_sign(), 1);
}

#[test]
fn events_become_messages() {
    let held = Modifiers { control: true };
    let at = Point { x: c(3.0), y: c(4.0) };
    let hear = |input: Input, captured: bool| listen::<u32, u32>(input, captured);
    assert!(matches!(
        hear(Input::KeyPressed(held, Key::Enter), false),
        Some(Message::Key(m, Key::Enter)) if m == held
    ));
    assert!(hear(Input::KeyPressed(held, Key::Enter), true).is_none());
    assert!(matches!(
        hear(Input::ModifiersChanged(held), true),
        Some(Message::ModifiersChanged(m)) if m == held
    ));
    assert!(matches!(
        hear(Input::MiddlePressed, true),
        Some(Message::MiddleDragStart(p)) if p == Point::origin()
    ));
    assert!(matches!(hear(Input::MiddleReleased, false), Some(Message::MiddleDragRelease)));
    assert!(matches!(
        hear(Input::CursorMoved(at), false),
        Some(Message::MiddleDragMove(p)) if p == at
    ));
    assert!(hear(Input::Other, false).is_none());
}

fn lines(section: &Section) -> Vec<(String, String)> {
    section
        .rows
        .iter()
        .map(|row| {
            let value = match &row.value {
                Value::Text(text) => text.clone(),
                Value::Toggle(on) => format!("<{}>", on),
            };
            (row.label.clone(), value)
        })
        .collect()
}

fn pair(label: &str, value: &str) -> (String, String) {
    (label.to_string(), value.to_string())
}

#[test]
fn the_pane_without_a_document_has_the_settings() {
    let sections = properties(&None, true);
    assert_eq!(sections.len(), 1);
    assert_eq!(sections[0].title, "Settings");
    assert_eq!(lines(&sections[0]), vec![pair("Natural scrolling", "<true>")]);
}

#[test]
fn the_pane_describes_the_document() {
    let meta = DocumentMeta {
        title: Some("A title".to_string()),
        author: None,
        subject: Some("A subject".to_string()),
        creator: None,
        producer: Some("A producer".to_string()),
        page_count: 12,
        file_path: "/tmp/Größe.pdf".as_bytes().to_vec(),
        file_size: 2048,
    };
    let sections = properties(&Some(meta), false);
    assert_eq!(sections.len(), 3);
    assert_eq!(sections[0].title, "File");
    assert_eq!(lines(&sections[0]), vec![pair("Path", "/tmp/Größe.pdf"), pair("Size", "2.0 KB")]);
    assert_eq!(sections[1].title, "Document");
    assert_eq!(
        lines(&sections[1]),
        vec![
            pair("Pages", "12"),
            pair("Title", "A title"),
            pair("Subject", "A subject"),
            pair("Producer", "A producer"),
        ]
    );
    assert_eq!(lines(&sections[2]), vec![pair("Natural scrolling", "<false>")]);
}

#[test]
fn a_path_that_is_not_utf8_is_shown_with_replacements() {
    let meta = DocumentMeta {
        title: None,
        author: Some("An author".to_string()),
        subject: None,
        creator: Some("A creator".to_string()),
        producer: None,
        page_count: -1,
        file_path: vec![b'/', 0xff, b'x'],
        file_size: 0,
    };
    let sections = properties(&Some(meta), false);
    assert_eq!(lines(&sections[0]), vec![pair("Path", "/\u{fffd}x"), pair("Size", "0 B")]);
    assert_eq!(
        lines(&sections[1]),
        vec![pair("Pages", "-1"), pair("Author", "An author"), pair("Creator", "A creator")]
    );
}
