//! The three instructions: create, exercise, expire.
//!
//! Each comes twice. The form that ends in `_at` takes the ledger time as an
//! argument and is decided by its arguments alone. The other asks the ledger
//! for the time, after the checks that need none, and then does the same.
//! A rejected instruction leaves its accounts as they were.

use vstd::prelude::*;
use crate::context::{
    CreateAccounts, CreateOption, ExerciseAccounts, ExerciseOption, ExpireAccounts, ExpireOption,
};
use crate::error::{QuorumError, Rejection};
use crate::events::{Creation, EscrowDeposit, OptionCreated, OptionExercised, OptionExpired};
use crate::ledger::ledger_time;
use crate::status::OptionStatus;
use crate::terms::{check_terms, check_terms_at, terms_of};

verus! {

/// Creates an option at ledger time `now`: the holder pays a premium for the
/// right to claim `quantity` tickets until `expiry`.
///
/// The rules are checked in this order, and the first that is broken is the
/// error: the quantity is 1 to 20; the premium is not zero; each string is
/// within its byte bound; the royalty is at most 5000; the expiry is strictly
/// after `now`. An accepted creation fills the account in from the request,
/// `Active` and created at `now`, and hands back the deposit of the premium
/// and the notification.
pub fn create_option_at(
    ctx: &mut CreateOption,
    option_id: String,
    event_name: String,
    event_date: String,
    ticket_type: String,
    quantity: u8,
    premium_lamports: u64,
    expiry: i64,
    venue_royalty_bps: u16,
    now: i64,
) -> (outcome: Result<Creation, QuorumError>)
    ensures
        ({
            let terms = terms_of(
                option_id@,
                event_name@,
                event_date@,
                ticket_type@,
                quantity,
                premium_lamports,
                expiry,
                venue_royalty_bps,
            );
            let record = terms.record(old(ctx)@.holder, old(ctx)@.bump, now as int);
            match terms.rejection(now as int) {
                Some(e) => outcome == Err::<Creation, QuorumError>(e) && *final(ctx) == *old(ctx),
                None => {
                    &&& outcome is Ok
                    &&& final(ctx)@ == (CreateAccounts { option_contract: record, ..old(ctx)@ })
                    &&& final(ctx).option_contract.wf()
                    &&& outcome->Ok_0.deposit@ == record.premium_deposit()
                    &&& outcome->Ok_0.event@ == record.created_notice()
                },
            }
        }),
{
    match check_terms_at(
        option_id.as_str(),
        event_name.as_str(),
        event_date.as_str(),
        ticket_type.as_str(),
        quantity,
        premium_lamports,
        expiry,
        venue_royalty_bps,
        now,
    ) {
        Err(e) => {
            return Err(e);
        },
        Ok(()) => {},
    }
    let event = OptionCreated {
        option_id: option_id.clone(),
        event_name: event_name.clone(),
        holder: ctx.holder,
        premium_lamports,
        expiry,
    };
    let deposit = EscrowDeposit { payer: ctx.holder, lamports: premium_lamports };
    ctx.option_contract.option_id = option_id;
    ctx.option_contract.event_name = event_name;
    ctx.option_contract.event_date = event_date;
    ctx.option_contract.ticket_type = ticket_type;
    ctx.option_contract.quantity = quantity;
    ctx.option_contract.premium_lamports = premium_lamports;
    ctx.option_contract.holder = ctx.holder;
    ctx.option_contract.expiry = expiry;
    ctx.option_contract.status = OptionStatus::Active.code();
    ctx.option_contract.created_at = now;
    ctx.option_contract.venue_royalty_bps = venue_royalty_bps;
    ctx.option_contract.bump = ctx.bump;
    Ok(Creation { deposit, event })
}

/// Exercises an option at ledger time `now`: the holder claims the tickets.
///
/// The option must be `Active`, the signer its holder, and `now` not after the
/// expiry; the first of these that fails is the error. An accepted exercise
/// sets the status to `Exercised` and changes nothing else: no funds move.
pub fn exercise_option_at(ctx: &mut ExerciseOption, now: i64) -> (outcome: Result<
    OptionExercised,
    QuorumError,
>)
    ensures
        match old(ctx)@.option_contract.exercise_rejection(old(ctx)@.holder, now as int) {
            Some(e) => outcome == Err::<OptionExercised, QuorumError>(e) && *final(ctx) == *old(ctx),
            None => {
                &&& outcome is Ok
                &&& final(ctx)@ == (ExerciseAccounts {
                    option_contract: old(ctx)@.option_contract.exercised(),
                    ..old(ctx)@
                })
                &&& outcome->Ok_0@ == old(ctx)@.option_contract.exercised_notice()
            },
        },
{
    if ctx.option_contract.status != OptionStatus::Active.code() {
        return Err(QuorumError::NotActive);
    }
    if !(ctx.holder == ctx.option_contract.holder) {
        return Err(QuorumError::UnauthorizedHolder);
    }
    if now > ctx.option_contract.expiry {
        return Err(QuorumError::OptionExpired);
    }
    ctx.option_contract.status = OptionStatus::Exercised.code();
    Ok(
        OptionExercised {
            option_id: ctx.option_contract.option_id.clone(),
            holder: ctx.option_contract.holder,
        },
    )
}

/// Expires an option at ledger time `now`. Anyone may ask for it.
///
/// The option must be `Active` and `now` strictly after the expiry; the first
/// of these that fails is the error. An accepted expiry sets the status to
/// `Expired` and changes nothing else: the premium stays in the account.
pub fn expire_option_at(ctx: &mut ExpireOption, now: i64) -> (outcome: Result<
    OptionExpired,
    QuorumError,
>)
    ensures
        match old(ctx)@.option_contract.expire_rejection(now as int) {
            Some(e) => outcome == Err::<OptionExpired, QuorumError>(e) && *final(ctx) == *old(ctx),
            None => {
                &&& outcome is Ok
                &&& final(ctx)@ == (ExpireAccounts {
                    option_contract: old(ctx)@.option_contract.expired(),
                    ..old(ctx)@
                })
                &&& outcome->Ok_0@ == old(ctx)@.option_contract.expired_notice()
            },
        },
{
    if ctx.option_contract.status != OptionStatus::Active.code() {
        return Err(QuorumError::NotActive);
    }
    if !(now > ctx.option_contract.expiry) {
        return Err(QuorumError::NotExpiredYet);
    }
    ctx.option_contract.status = OptionStatus::Expired.code();
    Ok(
        OptionExpired {
            option_id: ctx.option_contract.option_id.clone(),
            holder: ctx.option_contract.holder,
            premium_lamports: ctx.option_contract.premium_lamports,
        },
    )
}

/// Creates an option at the ledger's present time: see [`create_option_at`].
///
/// The rules that need no time are checked first, and only then is the ledger
/// asked for the time. So a request that breaks one of them is rejected with
/// that rule whatever the ledger answers. Otherwise the outcome is the
/// ledger's to decide: its error where it gives no time, `ExpiryInPast` where
/// its time is not before the expiry, and else the created option, whose
/// `created_at` is the time that the ledger gave.
pub fn create_option(
    ctx: &mut CreateOption,
    option_id: String,
    event_name: String,
    event_date: String,
    ticket_type: String,
    quantity: u8,
    premium_lamports: u64,
    expiry: i64,
    venue_royalty_bps: u16,
) -> (outcome: Result<Creation, Rejection>)
    ensures
        ({
            let terms = terms_of(
                option_id@,
                event_name@,
                event_date@,
                ticket_type@,
                quantity,
                premium_lamports,
                expiry,
                venue_royalty_bps,
            );
            let record = terms.record(
                old(ctx)@.holder,
                old(ctx)@.bump,
                final(ctx)@.option_contract.created_at,
            );
            match terms.violation() {
                Some(e) => outcome == Err::<Creation, Rejection>(Rejection::Rule(e)) && *final(ctx)
                    == *old(ctx),
                None => match outcome {
                    Ok(creation) => {
                        &&& final(ctx)@ == (CreateAccounts { option_contract: record, ..old(ctx)@ })
                        &&& record.created_at < terms.expiry
                        &&& final(ctx).option_contract.wf()
                        &&& creation.deposit@ == record.premium_deposit()
                        &&& creation.event@ == record.created_notice()
                    },
                    Err(Rejection::Rule(e)) => e == QuorumError::ExpiryInPast && *final(ctx)
                        == *old(ctx),
                    Err(Rejection::Ledger(_)) => *final(ctx) == *old(ctx),
                },
            }
        }),
{
    match check_terms(
        option_id.as_str(),
        event_name.as_str(),
        event_date.as_str(),
        ticket_type.as_str(),
        quantity,
        premium_lamports,
        venue_royalty_bps,
    ) {
        Err(e) => {
            return Err(Rejection::Rule(e));
        },
        Ok(()) => {},
    }
    match ledger_time() {
        Err(e) => Err(Rejection::Ledger(e)),
        Ok(now) => match create_option_at(
            ctx,
            option_id,
            event_name,
            event_date,
            ticket_type,
            quantity,
            premium_lamports,
            expiry,
            venue_royalty_bps,
            now,
        ) {
            Ok(creation) => Ok(creation),
            Err(e) => Err(Rejection::Rule(e)),
        },
    }
}

/// Exercises an option at the ledger's present time: see
/// [`exercise_option_at`].
///
/// The status and the signer are checked first, and only then is the ledger
/// asked for the time. So where the option is not `Active`, or the signer is
/// not its holder, the request is rejected with that error whatever the ledger
/// answers. Otherwise the outcome is the ledger's to decide: its error where
/// it gives no time, `OptionExpired` where its time is after the expiry, and
/// else the exercise.
pub fn exercise_option(ctx: &mut ExerciseOption) -> (outcome: Result<OptionExercised, Rejection>)
    ensures
        match old(ctx)@.option_contract.exercise_guard(old(ctx)@.holder) {
            Some(e) => outcome == Err::<OptionExercised, Rejection>(Rejection::Rule(e))
                && *final(ctx) == *old(ctx),
            None => match outcome {
                Ok(event) => {
                    &&& final(ctx)@ == (ExerciseAccounts {
                        option_contract: old(ctx)@.option_contract.exercised(),
                        ..old(ctx)@
                    })
                    &&& event@ == old(ctx)@.option_contract.exercised_notice()
                },
                Err(Rejection::Rule(e)) => e == QuorumError::OptionExpired && *final(ctx) == *old(ctx),
                Err(Rejection::Ledger(_)) => *final(ctx) == *old(ctx),
            },
        },
{
    if ctx.option_contract.status != OptionStatus::Active.code() {
        return Err(Rejection::Rule(QuorumError::NotActive));
    }
    if !(ctx.holder == ctx.option_contract.holder) {
        return Err(Rejection::Rule(QuorumError::UnauthorizedHolder));
    }
    match ledger_time() {
        Err(e) => Err(Rejection::Ledger(e)),
        Ok(now) => match exercise_option_at(ctx, now) {
            Ok(event) => Ok(event),
            Err(e) => Err(Rejection::Rule(e)),
        },
    }
}

/// Expires an option at the ledger's present time: see [`expire_option_at`].
///
/// The status is checked first, and only then is the ledger asked for the
/// time. So where the option is not `Active` the request is rejected as such
/// whatever the ledger answers. Otherwise the outcome is the ledger's to
/// decide: its error where it gives no time, `NotExpiredYet` where its time is
/// not after the expiry, and else the expiry.
pub fn expire_option(ctx: &mut ExpireOption) -> (outcome: Result<OptionExpired, Rejection>)
    ensures
        match old(ctx)@.option_contract.expire_guard() {
            Some(e) => outcome == Err::<OptionExpired, Rejection>(Rejection::Rule(e)) && *final(ctx) == *old(ctx),
            None => match outcome {
                Ok(event) => {
                    &&& final(ctx)@ == (ExpireAccounts {
                        option_contract: old(ctx)@.option_contract.expired(),
                        ..old(ctx)@
                    })
                    &&& event@ == old(ctx)@.option_contract.expired_notice()
                },
                Err(Rejection::Rule(e)) => e == QuorumError::NotExpiredYet && *final(ctx) == *old(ctx),
                Err(Rejection::Ledger(_)) => *final(ctx) == *old(ctx),
            },
        },
{
    if ctx.option_contract.status != OptionStatus::Active.code() {
        return Err(Rejection::Rule(QuorumError::NotActive));
    }
    match ledger_time() {
        Err(e) => Err(Rejection::Ledger(e)),
        Ok(now) => match expire_option_at(ctx, now) {
            Ok(event) => Ok(event),
            Err(e) => Err(Rejection::Rule(e)),
        },
    }
}

} // verus!
