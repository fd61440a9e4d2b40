//! Session controller of a terminal client for a music-streaming service.

pub mod app;
pub mod callback;
pub mod error;
pub mod keys;
pub mod laws;
pub mod pkce;
pub mod request;
pub mod selection;
pub mod session;
pub mod spotify;
pub mod text;
pub mod ui;
