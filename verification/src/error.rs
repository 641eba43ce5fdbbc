//! The error taxonomy of the wager protocol.
//!
//! Four errors are raised by this core's own rules; the other three mirror
//! verdicts that the host runtime would surface unchanged. Callers see each
//! as a small integer code, mapped one-to-one.

use vstd::prelude::*;

verus! {

/// Every failure an operation of this core can report.
#[derive(Clone, Copy, Debug, PartialEq, Eq, Structural)]
pub enum LuckySolError {
    /// The instruction buffer is empty, its tag is unknown, or a fixed
    /// field is truncated.
    InvalidInstruction,
    /// The record account does not meet the minimum-balance threshold.
    NotRentExempt,
    /// The bid does not equal the deposit account's balance.
    ExpectedAmountMismatch,
    /// A checked balance addition or subtraction would leave `u64`.
    AmountOverflow,
    /// A required signer fact is missing.
    MissingRequiredSignature,
    /// An account's owner, identity, or stored bytes are not as required.
    InvalidAccountData,
    /// The wager record has already been written by a previous play.
    AccountAlreadyInitialized,
}

impl LuckySolError {
    /// The small integer code surfaced to callers, one per variant.
    pub open spec fn spec_code(self) -> u32 {
        match self {
            LuckySolError::InvalidInstruction => 0,
            LuckySolError::NotRentExempt => 1,
            LuckySolError::ExpectedAmountMismatch => 2,
            LuckySolError::AmountOverflow => 3,
            LuckySolError::MissingRequiredSignature => 4,
            LuckySolError::InvalidAccountData => 5,
            LuckySolError::AccountAlreadyInitialized => 6,
        }
    }

    /// Returns the integer code of this error.
    pub fn code(&self) -> (c: u32)
        ensures
            c == self.spec_code(),
    {
        match self {
            LuckySolError::InvalidInstruction => 0,
            LuckySolError::NotRentExempt => 1,
            LuckySolError::ExpectedAmountMismatch => 2,
            LuckySolError::AmountOverflow => 3,
            LuckySolError::MissingRequiredSignature => 4,
            LuckySolError::InvalidAccountData => 5,
            LuckySolError::AccountAlreadyInitialized => 6,
        }
    }

    /// A short human-readable name for the error.
    pub fn describe(&self) -> (s: &'static str)
    {
        match self {
            LuckySolError::InvalidInstruction => "invalid instruction",
            LuckySolError::NotRentExempt => "not rent exempt",
            LuckySolError::ExpectedAmountMismatch => "expected amount mismatch",
            LuckySolError::AmountOverflow => "amount overflow",
            LuckySolError::MissingRequiredSignature => "missing required signature",
            LuckySolError::InvalidAccountData => "invalid account data",
            LuckySolError::AccountAlreadyInitialized => "account already initialized",
        }
    }
}

} // verus!
