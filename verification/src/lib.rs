//! Core of an interactive builder for conventional commit messages:
//! catalogs of commit types and footer kinds, a cursor over their entries,
//! a draft of the fields chosen so far, the screen state machine that
//! routes confirmed input into the draft, and the finalizer that renders
//! the canonical message text.

pub mod app;
pub mod catalog;
pub mod commit;
pub mod draft;
pub mod errors;
pub mod select;
