//! Progress clocks: the state and the decisions behind a page of clocks that
//! are added, renamed, resized, ticked, removed, exported and imported.
//!
//! The page itself (canvas drawing, DOM elements, JSON and browser storage)
//! lives in the application crate; this library holds everything it decides.

pub mod clock;
pub mod render;
pub mod storage;
pub mod laws;
