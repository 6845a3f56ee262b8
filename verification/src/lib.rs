//! A minimal guestbook core: an append-only store of signed messages,
//! a schema bootstrap for it, and the rendering of stored entries into
//! HTML fragments. The HTTP surface around it is deliberately left out;
//! it calls into this crate and emits the rendered text verbatim.

pub mod entry;
pub mod error;
pub mod render;
pub mod store;
