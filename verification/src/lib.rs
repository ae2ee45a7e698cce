//! Protocol layer of an end-to-end encrypted messenger: the typed messages that
//! travel inside a sealed record, the frame of the first request, the published
//! handle, and the rules on signatures. Key agreement, the ratchet and the
//! sealing of records are the caller's part; this crate decides what goes into a
//! record and what comes out of one.
//!
//! A sender calls `gen_init_request`, `accept_init_request` or `send_msg` for
//! the plaintext of a record and has it sealed. A receiver has a record opened,
//! reads the plaintext into a `Message`, and hands both to `parse_init_request`,
//! `parse_init_response` or `parse_msg`, which decide what the record is worth.

pub mod base64code;
pub mod content;
pub mod content_type;
pub mod decimal;
pub mod error;
pub mod frame;
pub mod handle;
pub mod handshake;
pub mod hexcode;
pub mod json;
pub mod lines;
pub mod message;
pub mod text;

pub use crate::content::{check_signature, compose_msg, parse_msg, read_msg, send_msg, Opened, Warning};
pub use crate::error::{Error, ErrorKind};
pub use crate::frame::{frame_init_request, split_init_request};
pub use crate::handle::{gen_handle, parse_handle};
pub use crate::handshake::{
    accept_init_request, gen_init_request, parse_init_request, parse_init_response, InitRequestParts,
};
pub use crate::message::Message;
