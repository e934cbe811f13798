//! What the viewer is told.

use crate::coord::{Point, Viewport};
use crate::document::{DocumentInfo, DocumentMeta, Page};
use crate::nav::Entity;
use vstd::prelude::*;

verus! {

/// The modifier keys that are held down, as far as they matter.
#[derive(Clone, Copy, Debug, PartialEq, Eq, Structural)]
pub struct Modifiers {
    pub control: bool,
}

/// A key, as far as keys are told apart.
#[derive(Clone, Debug)]
pub enum Key {
    ArrowUp,
    ArrowLeft,
    PageUp,
    ArrowDown,
    ArrowRight,
    PageDown,
    Enter,
    Escape,
    Character(String),
    Other,
}

/// What a [`Key`] holds.
pub enum Stroke {
    ArrowUp,
    ArrowLeft,
    PageUp,
    ArrowDown,
    ArrowRight,
    PageDown,
    Enter,
    Escape,
    Character(Seq<char>),
    Other,
}

impl View for Key {
    type V = Stroke;

    open spec fn view(&self) -> Stroke {
        match self {
            Key::ArrowUp => Stroke::ArrowUp,
            Key::ArrowLeft => Stroke::ArrowLeft,
            Key::PageUp => Stroke::PageUp,
            Key::ArrowDown => Stroke::ArrowDown,
            Key::ArrowRight => Stroke::ArrowRight,
            Key::PageDown => Stroke::PageDown,
            Key::Enter => Stroke::Enter,
            Key::Escape => Stroke::Escape,
            Key::Character(text) => Stroke::Character(text@),
            Key::Other => Stroke::Other,
        }
    }
}

/// Where a search term was found on a page, by its four corners.
#[derive(Clone, Copy, Debug, PartialEq, Eq, Structural)]
pub struct Quad {
    pub upper_left: Point,
    pub upper_right: Point,
    pub lower_left: Point,
    pub lower_right: Point,
}

/// What the viewer is told. `D` is a recorded page and `I` is an image.
///
/// A turn of the wheel comes as whole steps: the ones still owed together with the new ones
/// for pages, the new ones for zooming. Fractions of a step stay with the sender.
#[derive(Clone, Debug)]
pub enum Message<D, I> {
    ContentScroll(Viewport),
    DisplayList(i32, D),
    DocumentMeta(DocumentMeta),
    FileLoad(String),
    FileOpen,
    Fullscreen,
    Key(Modifiers, Key),
    LoadError(String),
    MiddleDragRelease,
    MiddleDragStart(Point),
    MiddleDragMove(Point),
    ModifiersChanged(Modifiers),
    NavScroll(Viewport),
    NavSelect(Entity),
    NaturalScrollToggle,
    PageRendered(Entity, I, I),
    PageScroll(i32),
    Pages(Vec<Page<D, I>>),
    PdfBackgroundChange(usize),
    PropertiesToggle,
    SearchActivate,
    SearchClear,
    SearchInput(String),
    SearchResults(Entity, Vec<Quad>),
    Thumbnail(Entity, I),
    ZoomDropdown(usize),
    ZoomScroll(i32),
}

/// What a [`Message`] says.
pub enum Notice<D, I> {
    ContentScroll(Viewport),
    DisplayList(i32, D),
    DocumentMeta(DocumentInfo),
    FileLoad(Seq<char>),
    FileOpen,
    Fullscreen,
    Key(Modifiers, Stroke),
    LoadError(Seq<char>),
    MiddleDragRelease,
    MiddleDragStart(Point),
    MiddleDragMove(Point),
    ModifiersChanged(Modifiers),
    NavScroll(Viewport),
    NavSelect(Entity),
    NaturalScrollToggle,
    PageRendered(Entity, I, I),
    PageScroll(i32),
    Pages(Seq<Page<D, I>>),
    PdfBackgroundChange(usize),
    PropertiesToggle,
    SearchActivate,
    SearchClear,
    SearchInput(Seq<char>),
    SearchResults(Entity, Seq<Quad>),
    Thumbnail(Entity, I),
    ZoomDropdown(usize),
    ZoomScroll(i32),
}

impl<D, I> View for Message<D, I> {
    type V = Notice<D, I>;

    open spec fn view(&self) -> Notice<D, I> {
        match *self {
            Message::ContentScroll(viewport) => Notice::ContentScroll(viewport),
            Message::DisplayList(index, list) => Notice::DisplayList(index, list),
            Message::DocumentMeta(meta) => Notice::DocumentMeta(meta@),
            Message::FileLoad(url) => Notice::FileLoad(url@),
            Message::FileOpen => Notice::FileOpen,
            Message::Fullscreen => Notice::Fullscreen,
            Message::Key(modifiers, key) => Notice::Key(modifiers, key@),
            Message::LoadError(text) => Notice::LoadError(text@),
            Message::MiddleDragRelease => Notice::MiddleDragRelease,
            Message::MiddleDragStart(point) => Notice::MiddleDragStart(point),
            Message::MiddleDragMove(point) => Notice::MiddleDragMove(point),
            Message::ModifiersChanged(modifiers) => Notice::ModifiersChanged(modifiers),
            Message::NavScroll(viewport) => Notice::NavScroll(viewport),
            Message::NavSelect(entity) => Notice::NavSelect(entity),
            Message::NaturalScrollToggle => Notice::NaturalScrollToggle,
            Message::PageRendered(entity, normal, inverted) => Notice::PageRendered(
                entity,
                normal,
                inverted,
            ),
            Message::PageScroll(steps) => Notice::PageScroll(steps),
            Message::Pages(pages) => Notice::Pages(pages@),
            Message::PdfBackgroundChange(index) => Notice::PdfBackgroundChange(index),
            Message::PropertiesToggle => Notice::PropertiesToggle,
            Message::SearchActivate => Notice::SearchActivate,
            Message::SearchClear => Notice::SearchClear,
            Message::SearchInput(term) => Notice::SearchInput(term@),
            Message::SearchResults(entity, quads) => Notice::SearchResults(entity, quads@),
            Message::Thumbnail(entity, image) => Notice::Thumbnail(entity, image),
            Message::ZoomDropdown(index) => Notice::ZoomDropdown(index),
            Message::ZoomScroll(steps) => Notice::ZoomScroll(steps),
        }
    }
}

/// Something that happened at the window.
#[derive(Clone, Debug)]
pub enum Input {
    KeyPressed(Modifiers, Key),
    ModifiersChanged(Modifiers),
    MiddlePressed,
    MiddleReleased,
    CursorMoved(Point),
    Other,
}

/// What the viewer is told of an event, given whether a widget has captured it.
pub open spec fn heard<D, I>(input: Input, captured: bool) -> Option<Notice<D, I>> {
    match input {
        Input::KeyPressed(modifiers, key) => if captured {
            None
        } else {
            Some(Notice::Key(modifiers, key@))
        },
        Input::ModifiersChanged(modifiers) => Some(Notice::ModifiersChanged(modifiers)),
        Input::MiddlePressed => Some(Notice::MiddleDragStart(Point::at_origin())),
        Input::MiddleReleased => Some(Notice::MiddleDragRelease),
        Input::CursorMoved(point) => Some(Notice::MiddleDragMove(point)),
        Input::Other => None,
    }
}

/// The view of an optional message.
pub open spec fn optional_notice<D, I>(message: Option<Message<D, I>>) -> Option<Notice<D, I>> {
    match message {
        Some(m) => Some(m@),
        None => None,
    }
}

/// The message that an event gives rise to. A key that a widget has captured gives none.
pub fn listen<D, I>(input: Input, captured: bool) -> (message: Option<Message<D, I>>)
    ensures
        optional_notice(message) == heard::<D, I>(input, captured),
{
    match input {
        Input::KeyPressed(modifiers, key) => {
            if captured {
                None
            } else {
                Some(Message::Key(modifiers, key))
            }
        },
        Input::ModifiersChanged(modifiers) => Some(Message::ModifiersChanged(modifiers)),
        Input::MiddlePressed => Some(Message::MiddleDragStart(Point::origin())),
        Input::MiddleReleased => Some(Message::MiddleDragRelease),
        Input::CursorMoved(point) => Some(Message::MiddleDragMove(point)),
        Input::Other => None,
    }
}

/// A key is heard as it was pressed, with its modifiers, unless a widget has captured it.
pub proof fn keys_are_heard<D, I>(
    modifiers: Modifiers,
    key: Key,
    captured: bool,
    message: Option<Message<D, I>>,
)
    requires
        call_ensures(listen::<D, I>, (Input::KeyPressed(modifiers, key), captured), message),
    ensures
        captured ==> message is None,
        !captured ==> (message matches Some(Message::Key(held, pressed)) && held == modifiers
            && pressed@ == key@),
{
}

/// The modifiers, the middle button and the pointer are heard even if a widget has captured
/// them, and other events are not heard. A drag begins at the origin.
pub proof fn other_events_are_heard<D, I>(
    input: Input,
    captured: bool,
    message: Option<Message<D, I>>,
)
    requires
        call_ensures(listen::<D, I>, (input, captured), message),
    ensures
        input matches Input::ModifiersChanged(modifiers) ==> (message matches Some(
            Message::ModifiersChanged(heard),
        ) && heard == modifiers),
        input is MiddlePressed ==> (message matches Some(Message::MiddleDragStart(point))
            && point.x.bits == 0 && point.y.bits == 0),
        input is MiddleReleased ==> (message matches Some(heard) && heard is MiddleDragRelease),
        input matches Input::CursorMoved(point) ==> (message matches Some(
            Message::MiddleDragMove(heard),
        ) && heard == point),
        input is Other ==> message is None,
{
}

} // verus!
