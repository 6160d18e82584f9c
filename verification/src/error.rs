//! Error kinds of the vault.

use vstd::prelude::*;

verus! {

/// What a vault operation can be refused for.
#[derive(Clone, Copy, Debug, PartialEq, Eq, Structural)]
pub enum CustomError {
    NotRentExempt,
    InsufficientFunds,
    InvalidMint,
    MintMismatch,
    OwnerMismatch,
    FixedSupply,
    AlreadyInUse,
    InvalidNumberOfProvidedSigners,
    InvalidNumberOfRequiredSigners,
    UninitializedState,
    NativeNotSupported,
    NonNativeHasBalance,
    InvalidInstruction,
    InvalidState,
    Overflow,
    AuthorityTypeNotSupported,
    MintCannotFreeze,
    AccountFrozen,
    MintDecimalsMismatch,
    NonNativeNotSupported,
}

impl CustomError {
    /// The text shown for each kind.
    pub open spec fn message_text(self) -> Seq<char> {
        match self {
            CustomError::NotRentExempt => "Lamport balance below rent-exempt threshold"@,
            CustomError::InsufficientFunds => "Insufficient funds"@,
            CustomError::InvalidMint => "Invalid Mint"@,
            CustomError::MintMismatch => "Account not associated with this Mint"@,
            CustomError::OwnerMismatch => "Owner does not match"@,
            CustomError::FixedSupply => "Fixed supply"@,
            CustomError::AlreadyInUse => "Account already in use"@,
            CustomError::InvalidNumberOfProvidedSigners => "Invalid number of provided signers"@,
            CustomError::InvalidNumberOfRequiredSigners => "Invalid number of required signers"@,
            CustomError::UninitializedState => "State is uninitialized"@,
            CustomError::NativeNotSupported => "Native tokens not supported"@,
            CustomError::NonNativeHasBalance => "Non-native account has balance"@,
            CustomError::InvalidInstruction => "Invalid instruction"@,
            CustomError::InvalidState => "Invalid state"@,
            CustomError::Overflow => "Overflow"@,
            CustomError::AuthorityTypeNotSupported => "Authority type not supported"@,
            CustomError::MintCannotFreeze => "Mint cannot freeze"@,
            CustomError::AccountFrozen => "Account frozen"@,
            CustomError::MintDecimalsMismatch => "Mint decimals mismatch"@,
            CustomError::NonNativeNotSupported => "Non-native not supported"@,
        }
    }

    /// The position of the kind in the taxonomy, counted from zero.
    pub open spec fn ordinal(self) -> nat {
        match self {
            CustomError::NotRentExempt => 0,
            CustomError::InsufficientFunds => 1,
            CustomError::InvalidMint => 2,
            CustomError::MintMismatch => 3,
            CustomError::OwnerMismatch => 4,
            CustomError::FixedSupply => 5,
            CustomError::AlreadyInUse => 6,
            CustomError::InvalidNumberOfProvidedSigners => 7,
            CustomError::InvalidNumberOfRequiredSigners => 8,
            CustomError::UninitializedState => 9,
            CustomError::NativeNotSupported => 10,
            CustomError::NonNativeHasBalance => 11,
            CustomError::InvalidInstruction => 12,
            CustomError::InvalidState => 13,
            CustomError::Overflow => 14,
            CustomError::AuthorityTypeNotSupported => 15,
            CustomError::MintCannotFreeze => 16,
            CustomError::AccountFrozen => 17,
            CustomError::MintDecimalsMismatch => 18,
            CustomError::NonNativeNotSupported => 19,
        }
    }

    /// The text shown for this kind.
    pub fn message(&self) -> (r: &'static str)
        ensures
            r@ == self.message_text(),
    {
        match self {
            CustomError::NotRentExempt => "Lamport balance below rent-exempt threshold",
            CustomError::InsufficientFunds => "Insufficient funds",
            CustomError::InvalidMint => "Invalid Mint",
            CustomError::MintMismatch => "Account not associated with this Mint",
            CustomError::OwnerMismatch => "Owner does not match",
            CustomError::FixedSupply => "Fixed supply",
            CustomError::AlreadyInUse => "Account already in use",
            CustomError::InvalidNumberOfProvidedSigners => "Invalid number of provided signers",
            CustomError::InvalidNumberOfRequiredSigners => "Invalid number of required signers",
            CustomError::UninitializedState => "State is uninitialized",
            CustomError::NativeNotSupported => "Native tokens not supported",
            CustomError::NonNativeHasBalance => "Non-native account has balance",
            CustomError::InvalidInstruction => "Invalid instruction",
            CustomError::InvalidState => "Invalid state",
            CustomError::Overflow => "Overflow",
            CustomError::AuthorityTypeNotSupported => "Authority type not supported",
            CustomError::MintCannotFreeze => "Mint cannot freeze",
            CustomError::AccountFrozen => "Account frozen",
            CustomError::MintDecimalsMismatch => "Mint decimals mismatch",
            CustomError::NonNativeNotSupported => "Non-native not supported",
        }
    }

    /// The numeric code of this kind: 6000 plus its position.
    pub fn code(&self) -> (r: u32)
        ensures
            r == 6000 + self.ordinal(),
    {
        match self {
            CustomError::NotRentExempt => 6000,
            CustomError::InsufficientFunds => 6001,
            CustomError::InvalidMint => 6002,
            CustomError::MintMismatch => 6003,
            CustomError::OwnerMismatch => 6004,
            CustomError::FixedSupply => 6005,
            CustomError::AlreadyInUse => 6006,
            CustomError::InvalidNumberOfProvidedSigners => 6007,
            CustomError::InvalidNumberOfRequiredSigners => 6008,
            CustomError::UninitializedState => 6009,
            CustomError::NativeNotSupported => 6010,
            CustomError::NonNativeHasBalance => 6011,
            CustomError::InvalidInstruction => 6012,
            CustomError::InvalidState => 6013,
            CustomError::Overflow => 6014,
            CustomError::AuthorityTypeNotSupported => 6015,
            CustomError::MintCannotFreeze => 6016,
            CustomError::AccountFrozen => 6017,
            CustomError::MintDecimalsMismatch => 6018,
            CustomError::NonNativeNotSupported => 6019,
        }
    }
}

/// How an operation ends when it does not run to its end.
#[derive(Clone, Copy, Debug, PartialEq, Eq, Structural)]
pub enum OpError {
    /// The vault refused the operation; nothing happened.
    Rejected(CustomError),
    /// The ledger or the handle registry failed before the record was
    /// written; nothing was committed.
    Aborted { code: u32 },
    /// The record was committed, and a later visibility grant failed.
    GrantFailed { code: u32 },
}

} // verus!
