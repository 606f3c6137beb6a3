//! A library for browsing GitHub repositories from a terminal: the text
//! fields, the application state and its key handling, search history,
//! request building and response decoding, markdown layout, and what the
//! screen shows.
pub mod text;
pub mod path;
pub mod input;
pub mod types;
pub mod config;
pub mod auth;
pub mod api;
pub mod app;
pub mod events;
pub mod git;
pub mod markdown;
pub mod view;
