//! Deterministic test-fixture generator for a modular ledger runtime.
//!
//! The crate builds two ordered batches of binary-encoded transactions that
//! exercise an election module and a value-setter module, together with the
//! standalone query payloads for both modules.  Every byte of the output is
//! pinned down by the specifications: the wire format of a transaction
//! envelope, the dispatch framing of a module call, and the exact content of
//! the generated batches.

pub mod codec;
pub mod errors;
pub mod identity;
pub mod election;
pub mod value_setter;
pub mod dispatch;
pub mod tx;
pub mod decode;
pub mod fixture;
