//! Decision logic for a tool that proposes a commit message for the staged
//! diff and commits with it once the user agrees.
//!
//! The library performs no process launch, network call or console read of
//! its own. It says which outside step comes next, and what follows from the
//! result of each.

pub mod text;
pub mod confirm;
pub mod tool;
pub mod chat;
pub mod flow;
pub mod theorems;
