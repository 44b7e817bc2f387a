//! The life of an option as a state machine over its record:
//!
//! ```text
//! Active --(holder, now <= expiry)--> Exercised
//! Active --(anyone, now >  expiry)--> Expired
//! ```
//!
//! Both outcomes are final, and neither moves funds: the premium stays in the
//! account from creation on.

use vstd::prelude::*;
use crate::account::OptionRecord;
use crate::error::QuorumError;
use crate::status::OptionStatus;
use crate::terms::Terms;

verus! {

impl OptionRecord {
    /// The record after an exercise: the status alone has changed.
    pub open spec fn exercised(self) -> OptionRecord {
        OptionRecord { status: OptionStatus::Exercised.spec_code(), ..self }
    }

    /// The record after an expiry: the status alone has changed.
    pub open spec fn expired(self) -> OptionRecord {
        OptionRecord { status: OptionStatus::Expired.spec_code(), ..self }
    }

    /// Why an exercise by `caller` is rejected whatever the time, if it is:
    /// the option must be `Active`, and the caller its holder.
    pub open spec fn exercise_guard(self, caller: Seq<u8>) -> Option<QuorumError> {
        if !self.is_active() {
            Some(QuorumError::NotActive)
        } else if caller != self.holder {
            Some(QuorumError::UnauthorizedHolder)
        } else {
            None
        }
    }

    /// Why an exercise by `caller` at ledger time `now` is rejected, if it is.
    /// The option must be `Active`, the caller its holder, and `now` not after
    /// the expiry; the first of these that fails names the error.
    pub open spec fn exercise_rejection(self, caller: Seq<u8>, now: int) -> Option<QuorumError> {
        if self.exercise_guard(caller) is Some {
            self.exercise_guard(caller)
        } else if now > self.expiry {
            Some(QuorumError::OptionExpired)
        } else {
            None
        }
    }

    /// Why an expiry is rejected whatever the time, if it is: the option must
    /// be `Active`. Who asks does not matter.
    pub open spec fn expire_guard(self) -> Option<QuorumError> {
        if !self.is_active() {
            Some(QuorumError::NotActive)
        } else {
            None
        }
    }

    /// Why an expiry at ledger time `now` is rejected, if it is, whoever asks.
    /// The option must be `Active` and `now` strictly after the expiry.
    pub open spec fn expire_rejection(self, now: int) -> Option<QuorumError> {
        if self.expire_guard() is Some {
            self.expire_guard()
        } else if now <= self.expiry {
            Some(QuorumError::NotExpiredYet)
        } else {
            None
        }
    }
}

/// An exercise goes through exactly when the option is `Active`, the caller is
/// its holder and the time is not after the expiry.
pub proof fn lemma_exercise_accepted_iff(record: OptionRecord, caller: Seq<u8>, now: int)
    ensures
        record.exercise_rejection(caller, now) is None <==> (record.lifecycle() == Some(
            OptionStatus::Active,
        ) && caller == record.holder && now <= record.expiry),
{
}

/// An expiry goes through exactly when the option is `Active` and the time is
/// strictly after the expiry, whoever the caller is.
pub proof fn lemma_expire_accepted_iff(record: OptionRecord, now: int)
    ensures
        record.expire_rejection(now) is None <==> (record.lifecycle() == Some(
            OptionStatus::Active,
        ) && now > record.expiry),
{
}

/// A created option is `Active`, records the premium that was paid, and the
/// deposit that comes with it takes exactly that premium from the holder.
pub proof fn lemma_created_is_active_and_funded(
    terms: Terms,
    holder: Seq<u8>,
    bump: u8,
    now: int,
)
    requires
        terms.rejection(now) is None,
    ensures
        terms.record(holder, bump, now).lifecycle() == Some(OptionStatus::Active),
        terms.record(holder, bump, now).premium_lamports == terms.premium_lamports,
        terms.record(holder, bump, now).premium_deposit().lamports == terms.premium_lamports,
        terms.record(holder, bump, now).premium_deposit().payer == holder,
        terms.record(holder, bump, now).wf(),
{
}

/// Once an option is exercised or expired, no exercise and no expiry goes
/// through again, at any time and for any caller.
pub proof fn lemma_terminal_is_final(record: OptionRecord, caller: Seq<u8>, now: int)
    requires
        !record.is_active(),
    ensures
        record.exercise_rejection(caller, now) == Some(QuorumError::NotActive),
        record.expire_rejection(now) == Some(QuorumError::NotActive),
{
}

/// Each transition ends in a final status: after an exercise or an expiry
/// every further request is rejected as not active.
pub proof fn lemma_transition_is_final(record: OptionRecord, later_caller: Seq<u8>, later: int)
    ensures
        record.exercised().lifecycle() == Some(OptionStatus::Exercised),
        record.expired().lifecycle() == Some(OptionStatus::Expired),
        OptionStatus::Exercised.is_terminal() && OptionStatus::Expired.is_terminal(),
        record.exercised().exercise_rejection(later_caller, later) == Some(QuorumError::NotActive),
        record.exercised().expire_rejection(later) == Some(QuorumError::NotActive),
        record.expired().exercise_rejection(later_caller, later) == Some(QuorumError::NotActive),
        record.expired().expire_rejection(later) == Some(QuorumError::NotActive),
{
}

/// At any one time at most one of the two transitions is open, and for the
/// holder of an `Active` option exactly one is.
pub proof fn lemma_outcomes_exclusive(record: OptionRecord, caller: Seq<u8>, now: int)
    ensures
        !(record.exercise_rejection(caller, now) is None && record.expire_rejection(now) is None),
        record.is_active() && caller == record.holder ==> (record.exercise_rejection(caller, now)
            is None || record.expire_rejection(now) is None),
{
}

/// A transition keeps what creation checked: the terms, the holder and the
/// premium stay as they were.
pub proof fn lemma_transition_keeps_terms(record: OptionRecord)
    ensures
        record.wf() ==> record.exercised().wf() && record.expired().wf(),
        record.exercised().premium_lamports == record.premium_lamports,
        record.expired().premium_lamports == record.premium_lamports,
        record.exercised().holder == record.holder,
        record.expired().holder == record.holder,
{
}

} // verus!
