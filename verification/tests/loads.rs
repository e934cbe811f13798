use cosmic_reader::coord::Coord;
use cosmic_reader::document::{MetaReply, PageBounds};
use cosmic_reader::loader::{Loader, Reply, Request};
use cosmic_reader::message::Message;
use cosmic_reader::viewer::App;

type Load = Loader<u32, &'static str>;
type Ask = Request<u32, &'static str>;

fn bounds(width: u32) -> PageBounds {
    let zero = Coord { bits: 0 };
    PageBounds { x0: zero, y0: zero, x1: Coord { bits: width }, y1: Coord { bits: 2 * width } }
}

fn meta() -> MetaReply {
    MetaReply {
        title: Some("Title".to_string()),
        author: Some(String::new()),
        subject: None,
        creator: Some("Creator".to_string()),
        producer: None,
        file_size: Some(99),
    }
}

fn start() -> Load {
    let (load, request) = Load::start("file:///tmp/a%20b.pdf");
    assert!(matches!(request, Request::Open(path) if path == b"/tmp/a b.pdf"));
    load
}

fn opened(pages: i32) -> Load {
    let mut load = start();
    assert!(matches!(load.step(Reply::Opened(pages)), Request::Describe));
    load
}

fn described(pages: i32) -> Load {
    let mut load = opened(pages);
    assert!(matches!(
        load.step(Reply::Described(meta())),
        Request::Send(Message::DocumentMeta(_))
    ));
    load
}

fn error(request: Ask) -> String {
    match request {
        Request::Send(Message::LoadError(text)) => text,
        other => panic!("no error but {:?}", other),
    }
}

fn over(load: &mut Load) {
    assert!(matches!(load.step(Reply::Sent), Request::Finish));
    assert!(matches!(load.step(Reply::Opened(3)), Request::Finish));
}

#[test]
fn a_url_stands_for_its_decoded_path() {
    let (_, request) = Load::start("file:///etc/passwd");
    assert!(matches!(request, Request::Open(path) if path == b"/etc/passwd"));
    let (_, request) = Load::start("file://localhost/x%2Fy%FF");
    assert!(matches!(request, Request::Open(path) if path == b"/x/y\xff"));
}

#[test]
fn paths_are_those_of_the_url_crate() {
    for text in ["file:///a/b", "file:///%C3%A4.pdf", "https://localhost/q", "file:///c:"] {
        let url = url::Url::parse(text).unwrap();
        let expected = url.to_file_path().unwrap().into_os_string().into_encoded_bytes();
        let (_, request) = Load::start(text);
        assert!(matches!(request, Request::Open(path) if path == expected));
    }
}

#[test]
fn a_url_without_a_path_is_reported() {
    for text in ["https://example.com/a.pdf", "data:text/plain,x", "mailto:someone"] {
        let (mut load, request) = Load::start(text);
        assert_eq!(error(request), format!("Invalid URL path: {:?}", ()));
        over(&mut load);
    }
    let (mut load, request) = Load::start_at(None);
    assert_eq!(error(request), "Invalid URL path: ()");
    over(&mut load);
}

#[test]
fn a_document_that_does_not_open_is_reported() {
    let mut load = start();
    let text = error(load.step(Reply::NoDocument("no such file".to_string())));
    assert_eq!(text, "Failed to open document: no such file");
    over(&mut load);
    let mut load = start();
    let text = error(load.step(Reply::NoPageCount("broken".to_string())));
    assert_eq!(text, "Failed to get page count: broken");
    over(&mut load);
}

#[test]
fn empty_texts_are_left_out_of_the_description() {
    let mut load = opened(4);
    match load.step(Reply::Described(meta())) {
        Request::Send(Message::DocumentMeta(found)) => {
            assert_eq!(found.title.as_deref(), Some("Title"));
            assert_eq!(found.author, None);
            assert_eq!(found.subject, None);
            assert_eq!(found.creator.as_deref(), Some("Creator"));
            assert_eq!(found.producer, None);
            assert_eq!(found.page_count, 4);
            assert_eq!(found.file_path, b"/tmp/a b.pdf");
            assert_eq!(found.file_size, 99);
        }
        other => panic!("no description but {:?}", other),
    }
    let mut load = opened(4);
    let unsized_meta = MetaReply { file_size: None, ..meta() };
    match load.step(Reply::Described(unsized_meta)) {
        Request::Send(Message::DocumentMeta(found)) => assert_eq!(found.file_size, 0),
        other => panic!("no description but {:?}", other),
    }
}

#[test]
fn a_negative_page_count_is_reported_after_the_description() {
    let mut load = described(-1);
    let why = usize::try_from(-1i32).unwrap_err();
    assert_eq!(error(load.step(Reply::Sent)), format!("Invalid page count: {}", why));
    over(&mut load);
}

#[test]
fn pages_that_fail_are_reported_with_their_number() {
    let mut load = described(2);
    assert!(matches!(load.step(Reply::Sent), Request::Measure(0)));
    let text = error(load.step(Reply::NoPage("torn".to_string())));
    assert_eq!(text, "Failed to load page 0: torn");
    over(&mut load);

    let mut load = described(2);
    load.step(Reply::Sent);
    assert!(matches!(load.step(Reply::Measured(bounds(1))), Request::Measure(1)));
    let text = error(load.step(Reply::NoBounds("endless".to_string())));
    assert_eq!(text, "Failed to get bounds for page 1: endless");
    over(&mut load);

    let mut load = described(1);
    load.step(Reply::Sent);
    load.step(Reply::Measured(bounds(1)));
    assert!(matches!(load.step(Reply::Sent), Request::List(0)));
    let text = error(load.step(Reply::NoList("mute".to_string())));
    assert_eq!(text, "Failed to create display list for page 0: mute");
    over(&mut load);

    let mut load = described(1);
    load.step(Reply::Sent);
    load.step(Reply::Measured(bounds(1)));
    load.step(Reply::Sent);
    let text = error(load.step(Reply::NoPage("torn".to_string())));
    assert_eq!(text, "Failed to load page 0: torn");
    over(&mut load);
}

#[test]
fn an_empty_document_has_no_pages() {
    let mut load = described(0);
    assert!(matches!(
        load.step(Reply::Sent),
        Request::Send(Message::Pages(pages)) if pages.is_empty()
    ));
    assert!(matches!(load.step(Reply::Sent), Request::Finish));
    over(&mut load);
}

#[test]
fn a_viewer_that_is_gone_ends_the_load() {
    let mut load = described(2);
    assert!(matches!(load.step(Reply::Closed), Request::Finish));
    over(&mut load);

    let mut load = described(1);
    load.step(Reply::Sent);
    load.step(Reply::Measured(bounds(1)));
    assert!(matches!(load.step(Reply::Closed), Request::Finish));
    over(&mut load);

    let mut load = described(2);
    load.step(Reply::Sent);
    load.step(Reply::Measured(bounds(1)));
    load.step(Reply::Measured(bounds(2)));
    load.step(Reply::Sent);
    load.step(Reply::Listed(5));
    assert!(matches!(load.step(Reply::Closed), Request::Finish));
    over(&mut load);
}

#[test]
fn a_reply_to_another_request_ends_the_load() {
    let mut load = start();
    assert!(matches!(load.step(Reply::Listed(1)), Request::Finish));
    over(&mut load);
}

/// Runs a load of a document with pages of the given widths, and feeds a viewer.
fn run(widths: &[u32]) -> (App<u32, &'static str>, Vec<String>) {
    let mut app = App::init(Some("file:///tmp/a.pdf".to_string())).0;
    let mut told = Vec::new();
    let (mut load, mut request) = Load::start("file:///tmp/a.pdf");
    loop {
        let reply = match request {
            Request::Open(_) => Reply::Opened(widths.len() as i32),
            Request::Describe => Reply::Described(meta()),
            Request::Measure(index) => Reply::Measured(bounds(widths[index as usize])),
            Request::List(index) => Reply::Listed(1000 + index as u32),
            Request::Send(message) => {
                told.push(match &message {
                    Message::DocumentMeta(_) => "meta".to_string(),
                    Message::Pages(pages) => format!("pages {}", pages.len()),
                    Message::DisplayList(index, list) => format!("list {} {}", index, list),
                    other => format!("{:?}", other),
                });
                app.update(message);
                Reply::Sent
            }
            Request::Finish => return (app, told),
        };
        request = load.step(reply);
    }
}

#[test]
fn a_smooth_load_tells_everything_in_order() {
    let (_, told) = run(&[10, 20, 30]);
    assert_eq!(told, vec!["meta", "pages 3", "list 0 1000", "list 1 1001", "list 2 1002"]);
}

#[test]
fn a_smooth_load_fills_the_viewer() {
    let (app, _) = run(&[10, 20, 30]);
    assert_eq!(app.nav_model.len(), 3);
    assert_eq!(app.nav_model.current_position(), 0);
    assert!(app.nav_model.active().is_some());
    assert_eq!(app.document_meta.as_ref().unwrap().page_count, 3);
    for (i, page) in app.nav_model.items.iter().enumerate() {
        assert_eq!(page.index, i as i32);
        assert_eq!(page.bounds, bounds([10, 20, 30][i]));
        assert_eq!(page.display_list, Some(1000 + i as u32));
        assert!(page.image_handle.is_none() && page.icon_handle.is_none());
    }
}

/// Answers a load with `replies`, and whatever is sent with `Sent`; what was told.
fn told_by(replies: Vec<Reply<u32>>) -> Vec<String> {
    let mut told = Vec::new();
    let mut replies = replies.into_iter();
    let (mut load, mut request) = Load::start("file:///tmp/a.pdf");
    loop {
        let reply = match request {
            Request::Send(message) => {
                told.push(match message {
                    Message::DocumentMeta(_) => "meta".to_string(),
                    Message::Pages(pages) => format!("pages {}", pages.len()),
                    Message::DisplayList(index, list) => format!("list {} {}", index, list),
                    Message::LoadError(text) => text,
                    other => format!("{:?}", other),
                });
                Reply::Sent
            }
            Request::Finish => return told,
            _ => replies.next().expect("a request without a reply"),
        };
        request = load.step(reply);
    }
}

#[test]
fn nothing_is_told_before_a_failure_to_open() {
    let why = || "torn".to_string();
    assert_eq!(told_by(vec![Reply::NoDocument(why())]), vec!["Failed to open document: torn"]);
    assert_eq!(told_by(vec![Reply::NoPageCount(why())]), vec!["Failed to get page count: torn"]);
}

#[test]
fn only_the_description_is_told_before_a_bad_page_count() {
    assert_eq!(
        told_by(vec![Reply::Opened(-7), Reply::Described(meta())]),
        vec!["meta", "Invalid page count: out of range integral type conversion attempted"]
    );
}

#[test]
fn only_the_description_is_told_before_a_failure_to_measure() {
    let why = || "torn".to_string();
    let before = || vec![Reply::Opened(3), Reply::Described(meta()), Reply::Measured(bounds(10))];
    let mut replies = before();
    replies.push(Reply::NoPage(why()));
    assert_eq!(told_by(replies), vec!["meta", "Failed to load page 1: torn"]);
    let mut replies = before();
    replies.push(Reply::NoBounds(why()));
    assert_eq!(told_by(replies), vec!["meta", "Failed to get bounds for page 1: torn"]);
}

#[test]
fn the_earlier_records_are_told_before_a_failure_to_record() {
    let why = || "torn".to_string();
    let before = || {
        vec![
            Reply::Opened(3),
            Reply::Described(meta()),
            Reply::Measured(bounds(10)),
            Reply::Measured(bounds(20)),
            Reply::Measured(bounds(30)),
            Reply::Listed(70),
            Reply::Listed(71),
        ]
    };
    let mut replies = before();
    replies.push(Reply::NoPage(why()));
    assert_eq!(
        told_by(replies),
        vec!["meta", "pages 3", "list 0 70", "list 1 71", "Failed to load page 2: torn"]
    );
    let mut replies = before();
    replies.push(Reply::NoList(why()));
    assert_eq!(
        told_by(replies),
        vec![
            "meta",
            "pages 3",
            "list 0 70",
            "list 1 71",
            "Failed to create display list for page 2: torn"
        ]
    );
}
