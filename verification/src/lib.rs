//! Backend logic for a drafts-taking desktop application.
//!
//! The library keeps a collection of drafts as a single JSON array in one
//! file under the application's data directory.  [`store`] holds the
//! persistence rules: where the file lives, what may be written to it, and
//! what a read yields.  [`json`] gives the JSON parsing and serialization
//! that the store relies on.  [`menu`] maps the application's native menu
//! events to the actions the shell must perform.
//!
//! The library itself touches no file: the surrounding shell reads and
//! writes the bytes and hands the text in and out as plain strings.

pub mod json;
pub mod menu;
pub mod store;
