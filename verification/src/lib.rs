//! Verified core of a terminal HTTP client: text editing buffers with a
//! character cursor, header and body editors, screen navigation, popup
//! contents, key handling and screen layout.
pub mod chars;
pub mod text_buffer;
pub mod styled;
pub mod body;
pub mod headers;
pub mod app_state;
pub mod popup;
pub mod layout;
pub mod events;
pub mod laws;
