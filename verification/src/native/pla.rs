//! What the lookup of a provider by its name can report.
//!
//! The lookup itself walks the collection of providers registered with the
//! system and is made outside this crate; its failures are described here so
//! that they can be handed on.

use vstd::prelude::*;

verus! {

/// Why a lookup by name gave no identifier.
#[derive(Debug, Clone, Copy, PartialEq, Eq, Structural)]
pub enum PlaError {
    /// No registered provider goes by the name.
    NotFound,
    /// The collection of providers could not be read; the value is the
    /// result code of the failed call.
    ComHResultError(i32),
}

} // verus!
