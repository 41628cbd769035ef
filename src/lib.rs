//! Host side of a contract extension that lets contracts make bounded HTTP
//! requests in query mode, and extraction of the side effects that contract
//! execution leaves in the ledger's event log.
use vstd::prelude::*;

pub mod args;
pub mod codec;
pub mod extension;
pub mod limited_writer;
pub mod mock_types;
pub mod side_effects;

verus! {

} // verus!
