//! Core of a synthetic EVM precompile that moves balance between two accounts
//! through the hosting node's administrative JSON-RPC interface.
//!
//! The library holds everything that can be stated and proved: the calldata
//! decoder, the hex parsing of balance replies, the 256-bit word arithmetic,
//! the read-validate-write transfer protocol (as an explicit state machine,
//! since the precompile itself must return before the protocol finishes), the
//! entry point's fixed synchronous result, and the registry mapping. The HTTP
//! transport and the task that drives the protocol live outside the library.

pub mod calldata;
pub mod precompile;
pub mod protocol;
pub mod rpc;
pub mod uint256;
