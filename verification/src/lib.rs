//! Sans-IO core of an image publishing pipeline: a picture is described by
//! a vision model and then published, with that description, to a
//! WordPress media library.
//!
//! Nothing here performs I/O. Each exchange with the outside world is a
//! state machine: it hands out an [`http::Action`] to perform and is advanced
//! by the [`http::Event`] that answers it.

pub mod text;
pub mod codec;
pub mod error;
pub mod http;
pub mod models;
pub mod commands;
