use cosmic_reader::launch::{launch, thumbnail_status, Detached, Launch};

#[test]
fn a_thumbnail_needs_a_document() {
    assert!(matches!(launch(Some("out"), Some("in")),
        Launch::Thumbnail { input: "in", output: "out" }));
    assert!(matches!(launch::<&str, &str>(Some("out"), None), Launch::MissingInput));
}

#[test]
fn otherwise_the_viewer_is_shown() {
    assert!(matches!(launch::<&str, &str>(None, Some("in")), Launch::Viewer { url: Some("in") }));
    assert!(matches!(launch::<&str, &str>(None, None), Launch::Viewer { url: None }));
}

#[test]
fn processes_end_with_their_status() {
    assert_eq!(Detached::Child.exit_status(), None);
    assert_eq!(Detached::Parent.exit_status(), Some(0));
    assert_eq!(Detached::Failed.exit_status(), Some(1));
    assert_eq!(thumbnail_status(true), 0);
    assert_eq!(thumbnail_status(false), 1);
}
