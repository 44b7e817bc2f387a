//! The reasons for which an instruction is rejected.

use vstd::prelude::*;
use anchor_lang::prelude::ProgramError;

verus! {

/// Why a request was turned down. A rejected request changes nothing.
#[derive(Clone, Copy, Debug, PartialEq, Eq, Structural)]
pub enum QuorumError {
    /// The quantity is not between 1 and 20.
    InvalidQuantity,
    /// The premium is zero.
    InvalidPremium,
    /// A text field is longer than its byte bound.
    StringTooLong,
    /// The venue royalty is above 50%.
    InvalidRoyalty,
    /// The expiry is not after the current ledger time.
    ExpiryInPast,
    /// The option has already been exercised or has expired.
    NotActive,
    /// The caller is not the holder of the option.
    UnauthorizedHolder,
    /// The exercise window has closed.
    OptionExpired,
    /// The exercise window is still open.
    NotExpiredYet,
}

impl QuorumError {
    /// The sentence that explains the error.
    pub open spec fn spec_message(self) -> Seq<char> {
        match self {
            QuorumError::InvalidQuantity => "Quantity must be between 1 and 20"@,
            QuorumError::InvalidPremium => "Premium must be greater than 0"@,
            QuorumError::StringTooLong => "String exceeds maximum length"@,
            QuorumError::InvalidRoyalty => "Venue royalty cannot exceed 50%"@,
            QuorumError::ExpiryInPast => "Expiry timestamp must be in the future"@,
            QuorumError::NotActive => "Option is not in Active status"@,
            QuorumError::UnauthorizedHolder => "Only the option holder can exercise"@,
            QuorumError::OptionExpired => "Option has expired"@,
            QuorumError::NotExpiredYet => "Option has not expired yet"@,
        }
    }

    /// The sentence that explains the error, for a person to read.
    pub fn message(&self) -> (text: String)
        ensures
            text@ == self.spec_message(),
    {
        match self {
            QuorumError::InvalidQuantity => "Quantity must be between 1 and 20".to_owned(),
            QuorumError::InvalidPremium => "Premium must be greater than 0".to_owned(),
            QuorumError::StringTooLong => "String exceeds maximum length".to_owned(),
            QuorumError::InvalidRoyalty => "Venue royalty cannot exceed 50%".to_owned(),
            QuorumError::ExpiryInPast => "Expiry timestamp must be in the future".to_owned(),
            QuorumError::NotActive => "Option is not in Active status".to_owned(),
            QuorumError::UnauthorizedHolder => "Only the option holder can exercise".to_owned(),
            QuorumError::OptionExpired => "Option has expired".to_owned(),
            QuorumError::NotExpiredYet => "Option has not expired yet".to_owned(),
        }
    }
}

/// Why an instruction that asks the ledger for the time did not go through.
#[derive(Debug, PartialEq, Eq)]
pub enum Rejection {
    /// A rule of the option was broken.
    Rule(QuorumError),
    /// The ledger gave no time; its error is handed on unread.
    Ledger(ProgramError),
}

} // verus!
