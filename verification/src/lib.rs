//! A typed client core for a paginated HTTP JSON API.
//!
//! The crate covers the parameter encoders for each endpoint, the paginated
//! response envelope, and the page-stream state machine that turns a sequence
//! of page fetches into one ordered item sequence. Network transport, JSON
//! decoding and the terminal front end live outside the library and drive it
//! through plain values.

pub mod api;
pub mod text;
pub mod ui;
