//! Core logic of a small web site: request routing, template rendering and
//! static-asset responses, stated and proved over plain byte sequences.
//!
//! The surrounding binary owns the sockets and the file system; this crate
//! decides, for every request, exactly which response goes back.

pub mod response;
pub mod server;
pub mod router;
pub mod template;
pub mod text;
