# COSMIC Reader

A document reader for the COSMIC desktop. Its logic is a library, verified with Verus; the
window around it is ordinary Rust.

## Layout

- `src/` is the library.
  - `viewer`: the state of the viewer, and what each message makes of it.
  - `screen`: what is shown and what runs beside the viewer, for a given state.
  - `loader`: the course of a load, as requests and replies.
  - `nav`: the list of pages, with the page that is shown.
  - `message`, `document`, `coord`: what the viewer is told, what is known of a document, and
    positions on the screen.
  - `properties`, `size`, `text`: the properties pane and its texts.
  - `background`, `zoom`: the two menus.
  - `raster`: the inversion of rendered pages for dark reading.
  - `launch`: what the program does when it is started.
  - `outside`: the two functions from elsewhere that the library relies on.
  - `viewer_laws`, `loading_laws`: what holds across messages and of whole loads.
- `tests/` runs the library on examples.
- `app/` is the program: the window, rendering, files, threads, and arithmetic on
  single-precision extents.

## How the parts meet

The window turns events into messages, hands each to `App::update`, and does what the tasks it
returns ask for. A load runs on a thread of its own: `Loader::step` says what to do next, the
thread does it and hands back what came of it.
