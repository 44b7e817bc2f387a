//! The three states of an option's life.

use vstd::prelude::*;

verus! {

/// Where an option stands in its life. An option starts `Active` and moves at
/// most once, to `Exercised` or to `Expired`; both are final.
#[derive(Clone, Copy, Debug, PartialEq, Eq, Structural)]
pub enum OptionStatus {
    /// The premium is paid and the holder may still exercise.
    Active,
    /// The holder claimed the tickets before expiry.
    Exercised,
    /// The window closed without an exercise.
    Expired,
}

impl OptionStatus {
    /// The byte under which a status is stored in the account.
    pub open spec fn spec_code(self) -> u8 {
        match self {
            OptionStatus::Active => 0,
            OptionStatus::Exercised => 1,
            OptionStatus::Expired => 2,
        }
    }

    /// The status that a stored byte stands for, if any.
    pub open spec fn spec_from_code(code: u8) -> Option<OptionStatus> {
        if code == 0 {
            Some(OptionStatus::Active)
        } else if code == 1 {
            Some(OptionStatus::Exercised)
        } else if code == 2 {
            Some(OptionStatus::Expired)
        } else {
            None
        }
    }

    /// Whether no transition leaves this status.
    pub open spec fn is_terminal(self) -> bool {
        self != OptionStatus::Active
    }

    /// The byte under which this status is stored.
    #[verifier::when_used_as_spec(spec_code)]
    pub fn code(self) -> (code: u8)
        ensures
            code == self.spec_code(),
    {
        match self {
            OptionStatus::Active => 0,
            OptionStatus::Exercised => 1,
            OptionStatus::Expired => 2,
        }
    }

    /// Reads a stored byte back: `None` for a byte that no status is stored as.
    pub fn from_code(code: u8) -> (status: Option<OptionStatus>)
        ensures
            status == Self::spec_from_code(code),
    {
        if code == 0 {
            Some(OptionStatus::Active)
        } else if code == 1 {
            Some(OptionStatus::Exercised)
        } else if code == 2 {
            Some(OptionStatus::Expired)
        } else {
            None
        }
    }

    /// Storing a status and reading it back gives the same status, and a byte
    /// that reads as a status is the byte that status is stored as.
    pub proof fn lemma_code_round_trip(status: OptionStatus, code: u8)
        ensures
            Self::spec_from_code(status.spec_code()) == Some(status),
            Self::spec_from_code(code) == Some(status) <==> code == status.spec_code(),
    {
    }
}

} // verus!
