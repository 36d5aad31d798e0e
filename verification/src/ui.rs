//! The state of the reusable front-end components: the text box a query is
//! typed into, the wave loading animation, and the root-level key decisions.
//! Rendering and event plumbing live outside the library and drive these
//! through plain values.

pub mod control;
pub mod loading;
pub mod textbox;
