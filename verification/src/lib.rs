//! A small desktop-shell library: it plans where an always-on-top overlay
//! window sits on the primary display, and formats the one greeting string
//! that the shell's command layer exposes.
//!
//! The surrounding application runtime (creating windows, registering
//! commands, routing URLs) lives outside this crate; the library holds the
//! computations, each with a proved contract.

pub mod greeting;
pub mod layout;
