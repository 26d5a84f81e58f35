//! Verified core of an interactive terminal directory browser.
//!
//! The library holds the pieces with real invariants: a double-buffered
//! virtual terminal that tracks per-cell state and emits only the cells that
//! changed since the last flush (`terminal`), the viewport-windowing policy
//! that decides which slice of a child list is visible around the current
//! selection (`windowing`), the navigation state machine driven by keyboard
//! commands (`nav`), and the render pass that ties them together (`render`).
//! Argument parsing, filesystem enumeration and the event loop are thin I/O
//! shells around these and live outside the library.

pub mod cli;
pub mod nav;
pub mod render;
pub mod terminal;
pub mod types;
pub mod windowing;
