//! What an accepted instruction hands back: the notifications for consumers
//! off the ledger, and the deposit that creation asks the ledger to make.

use vstd::prelude::*;
use crate::account::OptionRecord;
use crate::identity::Identity;

verus! {

/// Notification of a created option.
#[derive(Clone, Debug, PartialEq, Eq)]
pub struct OptionCreated {
    pub option_id: String,
    pub event_name: String,
    pub holder: Identity,
    pub premium_lamports: u64,
    pub expiry: i64,
}

/// Notification of an exercised option.
#[derive(Clone, Debug, PartialEq, Eq)]
pub struct OptionExercised {
    pub option_id: String,
    pub holder: Identity,
}

/// Notification of an expired option. The premium it names stays in the
/// account.
#[derive(Clone, Debug, PartialEq, Eq)]
pub struct OptionExpired {
    pub option_id: String,
    pub holder: Identity,
    pub premium_lamports: u64,
}

/// The one movement of funds in an option's life: at creation the premium
/// goes from the payer's balance into the balance of the option's account.
#[derive(Clone, Copy, Debug, PartialEq, Eq)]
pub struct EscrowDeposit {
    /// Whose balance is debited.
    pub payer: Identity,
    /// The amount debited from the payer and credited to the account.
    pub lamports: u64,
}

/// What an accepted creation hands back.
#[derive(Clone, Debug, PartialEq, Eq)]
pub struct Creation {
    /// The deposit that the ledger is to make together with the account.
    pub deposit: EscrowDeposit,
    /// The notification to emit.
    pub event: OptionCreated,
}

/// An [`OptionCreated`] as mathematical values.
pub ghost struct CreatedNotice {
    pub option_id: Seq<char>,
    pub event_name: Seq<char>,
    pub holder: Seq<u8>,
    pub premium_lamports: nat,
    pub expiry: int,
}

/// An [`OptionExercised`] as mathematical values.
pub ghost struct ExercisedNotice {
    pub option_id: Seq<char>,
    pub holder: Seq<u8>,
}

/// An [`OptionExpired`] as mathematical values.
pub ghost struct ExpiredNotice {
    pub option_id: Seq<char>,
    pub holder: Seq<u8>,
    pub premium_lamports: nat,
}

/// An [`EscrowDeposit`] as mathematical values.
pub ghost struct Deposit {
    pub payer: Seq<u8>,
    pub lamports: nat,
}

impl View for OptionCreated {
    type V = CreatedNotice;

    open spec fn view(&self) -> CreatedNotice {
        CreatedNotice {
            option_id: self.option_id@,
            event_name: self.event_name@,
            holder: self.holder@,
            premium_lamports: self.premium_lamports as nat,
            expiry: self.expiry as int,
        }
    }
}

impl View for OptionExercised {
    type V = ExercisedNotice;

    open spec fn view(&self) -> ExercisedNotice {
        ExercisedNotice { option_id: self.option_id@, holder: self.holder@ }
    }
}

impl View for OptionExpired {
    type V = ExpiredNotice;

    open spec fn view(&self) -> ExpiredNotice {
        ExpiredNotice {
            option_id: self.option_id@,
            holder: self.holder@,
            premium_lamports: self.premium_lamports as nat,
        }
    }
}

impl View for EscrowDeposit {
    type V = Deposit;

    open spec fn view(&self) -> Deposit {
        Deposit { payer: self.payer@, lamports: self.lamports as nat }
    }
}

impl OptionRecord {
    /// The notification of this option's creation.
    pub open spec fn created_notice(self) -> CreatedNotice {
        CreatedNotice {
            option_id: self.option_id,
            event_name: self.event_name,
            holder: self.holder,
            premium_lamports: self.premium_lamports,
            expiry: self.expiry,
        }
    }

    /// The notification of this option's exercise.
    pub open spec fn exercised_notice(self) -> ExercisedNotice {
        ExercisedNotice { option_id: self.option_id, holder: self.holder }
    }

    /// The notification of this option's expiry.
    pub open spec fn expired_notice(self) -> ExpiredNotice {
        ExpiredNotice {
            option_id: self.option_id,
            holder: self.holder,
            premium_lamports: self.premium_lamports,
        }
    }

    /// The deposit that pays this option's premium.
    pub open spec fn premium_deposit(self) -> Deposit {
        Deposit { payer: self.holder, lamports: self.premium_lamports }
    }
}

} // verus!
