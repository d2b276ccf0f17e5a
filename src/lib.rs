//! Font discovery, naming and install/uninstall decisions.
//!
//! The library holds the logic of a desktop font manager: it corrects the
//! weight of a face, resolves a display name from the name table, builds a
//! stable identifier, groups faces into sorted families and decides each
//! step of installing and removing a font file. Reading the disk, the
//! registry and the system font service is left to the caller.
use vstd::prelude::*;

pub mod text;
pub mod weight;
pub mod naming;
pub mod identity;
pub mod paths;
pub mod fonts;
pub mod order;
pub mod family;
pub mod install;
pub mod registry;
pub mod uninstall;
pub mod preview;

verus! {

} // verus!
