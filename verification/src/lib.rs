//! Server-side state and partial rendering for a page made of named blocks.
//!
//! The stores own the shared state (a counter and a list of contacts), the
//! request builders say which block of which template is rendered with which
//! context, and the handlers put the two together into replies.

pub mod contact;
pub mod context;
pub mod counter;
pub mod form;
pub mod handlers;
pub mod render;
pub mod shape;
pub mod store;
