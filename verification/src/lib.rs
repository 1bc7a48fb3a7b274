//! Verified core of a terminal anime and manga browser and of the small
//! HTTP service that looks up anime streams for it.

pub mod text;
pub mod allanime;
pub mod anime_api;
pub mod api;
pub mod app;
pub mod ui;
pub mod server;
