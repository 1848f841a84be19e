//! The verified core of a Rust SDK for Pebble smartwatch apps: geometry,
//! colors, status and message result codes, app message dictionaries, the
//! bookkeeping of windows, layers, click handlers and effects, and the rules
//! of the watch services. Calls into the watch firmware are made around this
//! library, which decides what to pass to them and what their results mean.
pub mod app_message_result;
pub mod callback;
pub mod color;
pub mod dictionary;
pub mod effect;
pub mod geometry;
pub mod graphics;
pub mod input;
pub mod layer;
pub mod package;
pub mod registry;
pub mod service;
pub mod status_code;
pub mod time;
pub mod timer;
pub mod window;
