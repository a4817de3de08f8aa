//! Core interaction engine shared by a family of terminal browsing tools.
//!
//! Every tool in the family presents a filterable list of entries, keeps a
//! preview of the selected entry, and lets the user page, select and act.
//! This crate holds that shared engine: the selectable, paginated list state
//! machine, the filtering engine (in-memory substring filtering and the
//! live external-search planner), the preview dispatcher that renders
//! arbitrary files without crashing the interface, the bounded ASCII-art
//! image renderer, and the outcome rules for timeout-bounded external
//! process invocations.  Terminal setup, drawing, argument parsing and all
//! other I/O live outside the library and hand it plain values.

pub mod bridge;
pub mod cli;
pub mod entries;
pub mod explore;
pub mod filter;
pub mod find;
pub mod git;
pub mod image_preview;
pub mod preview;
pub mod search;
pub mod selection;
pub mod session;
pub mod text;
