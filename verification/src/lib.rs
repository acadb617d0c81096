//! Proposal verification for a BFT block pipeline: classify each transaction
//! of a proposed block, validate it against the local read-only state, and
//! fold the per-transaction outcomes into one accept/reject verdict.

pub mod codec;
pub mod codes;
pub mod decode;
pub mod laws;
pub mod power;
pub mod roundtrip;
pub mod shell;
pub mod storage;
pub mod vote_ext;
pub mod tx;
