//! Per-transaction result codes and their recoverable/unrecoverable split.

use vstd::prelude::*;
use vstd::string::StringExecFns;

verus! {

/// The stable numeric outcome of checking one transaction. The numeric
/// values must be identical on every validator, or consensus breaks.
#[derive(Clone, Copy, PartialEq, Eq, Structural, Debug)]
pub enum ErrorCodes {
    Okay,
    InvalidTx,
    InvalidSig,
    WasmRuntimeError,
    InvalidOrder,
    ExtraTxs,
    Undecryptable,
    InvalidVoteExtension,
}

/// The stable wire value of each code.
pub open spec fn spec_code_u32(c: ErrorCodes) -> u32 {
    match c {
        ErrorCodes::Okay => 0,
        ErrorCodes::InvalidTx => 1,
        ErrorCodes::InvalidSig => 2,
        ErrorCodes::WasmRuntimeError => 3,
        ErrorCodes::InvalidOrder => 4,
        ErrorCodes::ExtraTxs => 5,
        ErrorCodes::Undecryptable => 6,
        ErrorCodes::InvalidVoteExtension => 7,
    }
}

/// A recoverable code marks a transaction that a later execution stage is
/// expected to screen out; it does not by itself reject the proposal.
/// The unrecoverable codes mark structural protocol violations.
pub open spec fn spec_recoverable(c: ErrorCodes) -> bool {
    match c {
        ErrorCodes::Okay => true,
        ErrorCodes::InvalidTx => true,
        ErrorCodes::InvalidSig => true,
        ErrorCodes::WasmRuntimeError => true,
        ErrorCodes::InvalidOrder => false,
        ErrorCodes::ExtraTxs => false,
        ErrorCodes::Undecryptable => true,
        ErrorCodes::InvalidVoteExtension => false,
    }
}

impl ErrorCodes {
    /// Decode a wire value back into a code; values outside the table
    /// are not coerced into anything.
    pub fn from_u32(v: u32) -> (r: Option<ErrorCodes>)
        ensures
            r == (if v == 0 { Some(ErrorCodes::Okay) }
                else if v == 1 { Some(ErrorCodes::InvalidTx) }
                else if v == 2 { Some(ErrorCodes::InvalidSig) }
                else if v == 3 { Some(ErrorCodes::WasmRuntimeError) }
                else if v == 4 { Some(ErrorCodes::InvalidOrder) }
                else if v == 5 { Some(ErrorCodes::ExtraTxs) }
                else if v == 6 { Some(ErrorCodes::Undecryptable) }
                else if v == 7 { Some(ErrorCodes::InvalidVoteExtension) }
                else { None::<ErrorCodes> }),
    {
        if v == 0 { Some(ErrorCodes::Okay) }
        else if v == 1 { Some(ErrorCodes::InvalidTx) }
        else if v == 2 { Some(ErrorCodes::InvalidSig) }
        else if v == 3 { Some(ErrorCodes::WasmRuntimeError) }
        else if v == 4 { Some(ErrorCodes::InvalidOrder) }
        else if v == 5 { Some(ErrorCodes::ExtraTxs) }
        else if v == 6 { Some(ErrorCodes::Undecryptable) }
        else if v == 7 { Some(ErrorCodes::InvalidVoteExtension) }
        else { None }
    }

    pub fn is_recoverable(&self) -> (r: bool)
        ensures
            r == spec_recoverable(*self),
    {
        match self {
            ErrorCodes::Okay => true,
            ErrorCodes::InvalidTx => true,
            ErrorCodes::InvalidSig => true,
            ErrorCodes::WasmRuntimeError => true,
            ErrorCodes::InvalidOrder => false,
            ErrorCodes::ExtraTxs => false,
            ErrorCodes::Undecryptable => true,
            ErrorCodes::InvalidVoteExtension => false,
        }
    }
}

impl From<ErrorCodes> for u32 {
    fn from(c: ErrorCodes) -> (r: u32) {
        match c {
            ErrorCodes::Okay => 0,
            ErrorCodes::InvalidTx => 1,
            ErrorCodes::InvalidSig => 2,
            ErrorCodes::WasmRuntimeError => 3,
            ErrorCodes::InvalidOrder => 4,
            ErrorCodes::ExtraTxs => 5,
            ErrorCodes::Undecryptable => 6,
            ErrorCodes::InvalidVoteExtension => 7,
        }
    }
}

impl vstd::std_specs::convert::FromSpecImpl<ErrorCodes> for u32 {
    open spec fn obeys_from_spec() -> bool {
        true
    }

    open spec fn from_spec(c: ErrorCodes) -> u32 {
        spec_code_u32(c)
    }
}

/// The outcome of checking one transaction: a code plus a human-readable
/// message. One is produced per transaction of a proposal, in input order.
pub struct TxResult {
    pub code: ErrorCodes,
    pub info: String,
}

impl TxResult {
    /// Build a result from a code and a message literal.
    pub fn new(code: ErrorCodes, info: &str) -> (r: TxResult)
        ensures
            r.code == code,
            r.info@ == info@,
    {
        TxResult { code, info: String::from_str(info) }
    }
}

} // verus!
