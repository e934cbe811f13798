//! The logic of a document reader: the state of the viewer and what each message makes of
//! it, the course of a load, what is shown, and the texts and images that go with it.
//!
//! A recorded page and an image that can be shown are type parameters throughout: the library
//! stores them and hands them out, and never looks inside. Coordinates are carried by their
//! bit patterns.

pub mod background;
pub mod coord;
pub mod document;
pub mod launch;
pub mod loader;
pub mod loading_laws;
pub mod message;
pub mod message_laws;
pub mod nav;
pub mod outside;
pub mod properties;
pub mod raster;
pub mod screen;
pub mod screen_laws;
pub mod size;
pub mod step_laws;
pub mod text;
pub mod view_laws;
pub mod viewer;
pub mod viewer_laws;
pub mod zoom;
