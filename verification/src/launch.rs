//! What the program does when it is started.

use vstd::prelude::*;

verus! {

/// What a command line asks for. `U` is a URL and `O` is a place for a thumbnail.
#[derive(Clone, Debug)]
pub enum Launch<U, O> {
    /// Write the thumbnail of a document.
    Thumbnail { input: U, output: O },
    /// A thumbnail was asked for, but of no document.
    MissingInput,
    /// Show the viewer.
    Viewer { url: Option<U> },
}

/// Decides what a command line asks for.
pub fn launch<U, O>(thumbnail: Option<O>, url: Option<U>) -> (launch: Launch<U, O>)
    ensures
        launch == match (thumbnail, url) {
            (Some(output), Some(input)) => Launch::Thumbnail { input, output },
            (Some(_), None) => Launch::MissingInput,
            (None, _) => Launch::Viewer { url },
        },
{
    match thumbnail {
        Some(output) => match url {
            Some(input) => Launch::Thumbnail { input, output },
            None => Launch::MissingInput,
        },
        None => Launch::Viewer { url },
    }
}

/// What became of the attempt to go into the background.
#[derive(Clone, Copy, Debug, PartialEq, Eq, Structural)]
pub enum Detached {
    /// This is the process that goes on.
    Child,
    /// This is the process that was left.
    Parent,
    /// The attempt failed.
    Failed,
}

impl Detached {
    /// The status with which the process is to end, if it is not to go on.
    pub fn exit_status(self) -> (status: Option<i32>)
        ensures
            status == match self {
                Detached::Child => None::<i32>,
                Detached::Parent => Some(0),
                Detached::Failed => Some(1),
            },
    {
        match self {
            Detached::Child => None,
            Detached::Parent => Some(0),
            Detached::Failed => Some(1),
        }
    }
}

/// The status with which a thumbnailer ends.
pub fn thumbnail_status(written: bool) -> (status: i32)
    ensures
        written ==> status == 0,
        !written ==> status == 1,
{
    if written {
        0
    } else {
        1
    }
}

/// A thumbnail is written where one is asked for, which takes a document. Otherwise the viewer
/// is shown, with or without a document.
pub proof fn thumbnail_takes_a_document<U, O>(
    thumbnail: Option<O>,
    url: Option<U>,
    asked: Launch<U, O>,
)
    requires
        call_ensures(launch::<U, O>, (thumbnail, url), asked),
    ensures
        asked is Thumbnail <==> thumbnail is Some && url is Some,
        asked is MissingInput <==> thumbnail is Some && url is None,
        asked is Viewer <==> thumbnail is None,
        asked matches Launch::Thumbnail { input, output } ==> url == Some(input) && thumbnail
            == Some(output),
        asked matches Launch::Viewer { url: shown } ==> shown == url,
{
}

/// Only the process in the background goes on. The one that was left has succeeded, and a
/// failure is told by the status.
pub proof fn only_the_child_goes_on(detached: Detached, status: Option<i32>)
    requires
        call_ensures(Detached::exit_status, (detached,), status),
    ensures
        status is None <==> detached == Detached::Child,
        detached == Detached::Parent ==> status == Some(0i32),
        detached == Detached::Failed ==> status == Some(1i32),
{
}

/// The thumbnailer succeeds exactly where it has written the thumbnail.
pub proof fn status_tells_of_the_thumbnail(written: bool, status: i32)
    requires
        call_ensures(thumbnail_status, (written,), status),
    ensures
        status == 0 <==> written,
        status == 0 || status == 1,
{
}

} // verus!
