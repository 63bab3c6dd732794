//! A terminal browser for a paginated list of conversation records.
//!
//! The crate is organised around a small navigation state machine: a
//! selection index, a page number, and two scroll offsets, driven by
//! keyboard input. `records` supplies pages of conversation records,
//! `nav` defines the state machine and its transition laws, `session`
//! ties the two together with the event loop's decision logic and the
//! teardown bookkeeping, and `render` computes the plain data each
//! frame is drawn from. Everything here is verified; the terminal
//! itself (raw mode, the alternate screen, the actual drawing) is
//! driven by an unverified front end that consumes these functions.

pub mod nav;
pub mod records;
pub mod render;
pub mod session;
