//! The core of a terminal dashboard for the statistics of an online game:
//! how requests are keyed, cached, limited and retried; how the results of
//! background work change the state behind the screen; what a key does; and
//! the bytes that draw a picture in a terminal. Nothing in this crate waits,
//! sends, reads a file or writes to the terminal: it decides, and says what
//! is to be done.

pub mod api;
pub mod app;
pub mod config;
pub mod i18n;
pub mod image;
pub mod input;
pub mod models;
pub mod order;
pub mod recency;
pub mod text;
pub mod text_set;
pub mod ui;
