//! Runtime bridge for driving a host application's embedded scripting
//! capability from an outside controller.
//!
//! The library models the discovery-and-bridge core: symbol-driven layout
//! resolution, inline-hook transactions, virtual-table shimming, marshaling
//! of work onto the host's single message-loop thread, and the
//! request/response state machine that ties them together.

use vstd::prelude::*;

pub mod config;
pub mod detour;
pub mod marshal;
pub mod reply;
pub mod script;
pub mod shim;
pub mod symbols;

verus! {

/// Fallback network port used when no configured value is available.
pub const DEFAULT_PORT: u16 = 11116;

} // verus!
