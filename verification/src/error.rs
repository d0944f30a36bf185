//! Errors of the library.

use vstd::prelude::*;

verus! {

/// The ways in which a quote or an account can be refused.
#[derive(Debug, Clone, Copy, PartialEq, Eq, Structural)]
pub enum OmnipairError {
    MathOverflow,
    InvalidReserves,
    InvalidQuoteParams,
    ExactOutNotSupported,
    InvalidAccountData,
    InsufficientCashReserve,
}

impl OmnipairError {
    /// The text shown for each error: the name of its variant.
    pub open spec fn text(self) -> Seq<char> {
        match self {
            OmnipairError::MathOverflow => "MathOverflow"@,
            OmnipairError::InvalidReserves => "InvalidReserves"@,
            OmnipairError::InvalidQuoteParams => "InvalidQuoteParams"@,
            OmnipairError::ExactOutNotSupported => "ExactOutNotSupported"@,
            OmnipairError::InvalidAccountData => "InvalidAccountData"@,
            OmnipairError::InsufficientCashReserve => "InsufficientCashReserve"@,
        }
    }

    /// The error as text for a user.
    pub fn to_string(&self) -> (message: String)
        ensures
            message@ == self.text(),
    {
        match self {
            OmnipairError::MathOverflow => "MathOverflow".to_owned(),
            OmnipairError::InvalidReserves => "InvalidReserves".to_owned(),
            OmnipairError::InvalidQuoteParams => "InvalidQuoteParams".to_owned(),
            OmnipairError::ExactOutNotSupported => "ExactOutNotSupported".to_owned(),
            OmnipairError::InvalidAccountData => "InvalidAccountData".to_owned(),
            OmnipairError::InsufficientCashReserve => "InsufficientCashReserve".to_owned(),
        }
    }
}

/// Why the data of an account was refused.
#[derive(Debug, Clone, Copy, PartialEq, Eq, Structural)]
pub enum AccountError {
    /// Refused by a rule of the library.
    Omnipair(OmnipairError),
    /// The data ends before the state is complete.
    UnexpectedLength,
    /// An optional field has this tag, which is neither zero nor one.
    InvalidOption(u8),
    /// A truth value has this byte, which is neither zero nor one.
    InvalidBool(u8),
    /// The account of the pool is not among those supplied.
    PairAccountNotFound,
}

} // verus!
