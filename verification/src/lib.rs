//! Scoped, traversal-safe access to the `AGENTS.md` file at the root of a
//! workspace directory.
//!
//! The heart of the crate is the containment check: a candidate target path is
//! accepted only when its fully resolved form still lies beneath the fully
//! resolved workspace root, so neither `..` components nor symbolic links can
//! lead an operation outside the workspace. Around that check sit the two
//! operations, reading and writing the file, split into verified resolution
//! and decision steps; the raw byte transfer itself is left to the caller.

use vstd::prelude::*;

pub mod ops;
pub mod outcome;
pub mod paths;

verus! {

pub use outcome::AgentMdError;
pub use outcome::AgentMdResponse;

} // verus!
