//! Résumés: one canonical document, read from three foreign formats, held
//! against its rules, and turned into the source that drives a typesetting
//! engine.
//!
//! - `schema` is the document, its defaults, its rules and its JSON.
//! - `parser` holds the adapters for the standard JSON format, for its
//!   predecessor format and for a social-network export.
//! - `utils` makes rich text safe and turns it into the engine's markup,
//!   and answers small questions about strings, colours, dates and layouts.
//! - `render` writes the driver for the engine and words its failures.
//! - `service`, `handlers`, `thumbnail` and `storage` hold what the command
//!   line and the service decide.
//!
//! The modules `text`, `search` and `numeral` are the vocabulary in which
//! the contracts speak of text.

pub mod handlers;
pub mod json;
pub mod json_text;
pub mod numeral;
pub mod parser;
pub mod pattern;
pub mod render;
pub mod schema;
pub mod search;
pub mod service;
pub mod storage;
pub mod text;
pub mod thumbnail;
pub mod utils;
