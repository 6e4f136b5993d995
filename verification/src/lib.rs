//! Upload processing for an image gallery: the request size guard, content-type
//! validation, identity allocation, the storage layout, preview derivation and
//! the per-request state machine that sequences them, together with the
//! rendering of the gallery listing.

pub mod error;
pub mod format;
pub mod guard;
pub mod identity;
pub mod layout;
pub mod listing;
pub mod preview;
pub mod upload;
