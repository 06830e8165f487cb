//! What the desktop client asks of the gateway, and how it shows replies.
pub mod api;
pub mod laws;
pub mod md;
