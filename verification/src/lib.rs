//! Verified core of a fuzzy project finder: a depth-bounded filesystem
//! traversal that streams deduplicated path candidates through a channel to
//! an interactive selector, and the pure resolution of the user's choice
//! into a working directory and a list of targets.

pub mod args;
pub mod channel;
pub mod color;
pub mod filter;
pub mod resolve;
pub mod select;
pub mod text;
pub mod traverse;
pub mod types;
