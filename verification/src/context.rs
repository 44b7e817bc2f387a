//! What each instruction is handed by the ledger: the account it works on and
//! the identity that signed the request.

use vstd::prelude::*;
use crate::account::{OptionContract, OptionRecord};
use crate::identity::Identity;

verus! {

/// The accounts of a creation.
#[derive(Clone, Debug, PartialEq, Eq)]
pub struct CreateOption {
    /// The account that the ledger allocated at the option's address; the
    /// creation fills it in.
    pub option_contract: OptionContract,
    /// Who signed the request and pays the premium.
    pub holder: Identity,
    /// The seed byte with which the ledger completed the account's address.
    pub bump: u8,
}

/// The accounts of an exercise.
#[derive(Clone, Debug, PartialEq, Eq)]
pub struct ExerciseOption {
    /// The option to exercise.
    pub option_contract: OptionContract,
    /// Who signed the request.
    pub holder: Identity,
}

/// The accounts of an expiry.
#[derive(Clone, Debug, PartialEq, Eq)]
pub struct ExpireOption {
    /// The option to expire.
    pub option_contract: OptionContract,
    /// Who signed the request: anyone may.
    pub caller: Identity,
}

/// A [`CreateOption`] as mathematical values.
pub ghost struct CreateAccounts {
    pub option_contract: OptionRecord,
    pub holder: Seq<u8>,
    pub bump: u8,
}

/// An [`ExerciseOption`] as mathematical values.
pub ghost struct ExerciseAccounts {
    pub option_contract: OptionRecord,
    pub holder: Seq<u8>,
}

/// An [`ExpireOption`] as mathematical values.
pub ghost struct ExpireAccounts {
    pub option_contract: OptionRecord,
    pub caller: Seq<u8>,
}

impl View for CreateOption {
    type V = CreateAccounts;

    open spec fn view(&self) -> CreateAccounts {
        CreateAccounts {
            option_contract: self.option_contract@,
            holder: self.holder@,
            bump: self.bump,
        }
    }
}

impl View for ExerciseOption {
    type V = ExerciseAccounts;

    open spec fn view(&self) -> ExerciseAccounts {
        ExerciseAccounts { option_contract: self.option_contract@, holder: self.holder@ }
    }
}

impl View for ExpireOption {
    type V = ExpireAccounts;

    open spec fn view(&self) -> ExpireAccounts {
        ExpireAccounts { option_contract: self.option_contract@, caller: self.caller@ }
    }
}

} // verus!
