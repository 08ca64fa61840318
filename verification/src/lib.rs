//! A deterministic test harness for an account-based, contract-execution
//! virtual machine: it builds a genesis world state pre-populated with the
//! fixed system contracts, funds test accounts directly in storage, derives
//! deployment addresses and bytecode hashes, encodes deployment and call
//! transactions against a contract's interface, and sequences them into
//! single-transaction or batched execution rounds.
//!
//! The instruction-execution engine itself, the source-to-bytecode compiler
//! and all file handling are external collaborators: they live outside this
//! library and exchange plain values with it.

pub mod abi;
pub mod account;
pub mod artifact;
pub mod constants;
pub mod env;
pub mod genesis;
pub mod hash;
pub mod storage;
pub mod tx;
pub mod types;
pub mod vm;

use vstd::prelude::*;

verus! {

/// A construction-time failure. Every variant is deterministic for the
/// inputs that produced it: none of these is retried.
#[derive(Clone, Copy, Debug, PartialEq, Eq, Structural)]
pub enum HarnessError {
    /// A requested function name does not exist in a resolved interface.
    ArtifactNotFound,
    /// Argument count or type does not match a function's declared parameters.
    Encoding,
    /// Bytecode whose length is not a whole, odd number of 32-byte words,
    /// or that exceeds the largest hashable size.
    InvalidBytecodeShape,
    /// An artifact's bytecode field does not start with the `0x` marker.
    MissingHexPrefix,
    /// An artifact's bytecode field is not a well-formed hexadecimal string.
    InvalidHex,
    /// An address is referenced for execution but its code hash has no
    /// registered bytecode: a genesis-construction bug.
    StorageConsistency,
}

} // verus!
