//! Guest-side ownership of host-issued `error-context` handles.
//!
//! The host owns the resource; the guest holds a move-only `ErrorContext`
//! that names it by a 32-bit handle. The decisions around the two boundary
//! calls (`error-context-new` and `error-context-drop`) are stated and proved
//! here; performing the calls themselves is left to the embedding code.
pub mod error_support;
pub mod laws;

pub use error_support::{checked_message_len, ErrorContext};
