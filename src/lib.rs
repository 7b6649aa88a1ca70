//! A personal activity log: resolving command-line intents and computing the
//! local-day windows that stored entries are filtered by.

pub mod time;
pub mod models;
pub mod text;
pub mod resolver;
pub mod store;
pub mod dispatch;
