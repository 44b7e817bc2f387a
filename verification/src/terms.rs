//! The terms of a new option and the rules that they must meet.

use vstd::prelude::*;
use crate::account::{
    byte_len, stored_len, OptionRecord, MAX_EVENT_DATE_LEN, MAX_EVENT_NAME_LEN,
    MAX_OPTION_ID_LEN, MAX_QUANTITY, MAX_ROYALTY_BPS, MAX_TICKET_TYPE_LEN,
};
use crate::error::QuorumError;
use crate::status::OptionStatus;

verus! {

/// What a creation request asks for, as mathematical values.
pub ghost struct Terms {
    pub option_id: Seq<char>,
    pub event_name: Seq<char>,
    pub event_date: Seq<char>,
    pub ticket_type: Seq<char>,
    pub quantity: nat,
    pub premium_lamports: nat,
    pub expiry: int,
    pub venue_royalty_bps: nat,
}

/// Whether every string is within its byte bound.
pub open spec fn strings_fit(
    option_id: Seq<char>,
    event_name: Seq<char>,
    event_date: Seq<char>,
    ticket_type: Seq<char>,
) -> bool {
    &&& byte_len(option_id) <= MAX_OPTION_ID_LEN
    &&& byte_len(event_name) <= MAX_EVENT_NAME_LEN
    &&& byte_len(event_date) <= MAX_EVENT_DATE_LEN
    &&& byte_len(ticket_type) <= MAX_TICKET_TYPE_LEN
}

/// The first rule that is broken whatever the time, if any: the quantity, then
/// the premium, then the strings, then the royalty.
pub open spec fn first_violation(
    option_id: Seq<char>,
    event_name: Seq<char>,
    event_date: Seq<char>,
    ticket_type: Seq<char>,
    quantity: nat,
    premium_lamports: nat,
    venue_royalty_bps: nat,
) -> Option<QuorumError> {
    if !(1 <= quantity <= MAX_QUANTITY) {
        Some(QuorumError::InvalidQuantity)
    } else if premium_lamports == 0 {
        Some(QuorumError::InvalidPremium)
    } else if !strings_fit(option_id, event_name, event_date, ticket_type) {
        Some(QuorumError::StringTooLong)
    } else if venue_royalty_bps > MAX_ROYALTY_BPS {
        Some(QuorumError::InvalidRoyalty)
    } else {
        None
    }
}

impl Terms {
    /// The first rule that the terms break whatever the time, if any.
    pub open spec fn violation(self) -> Option<QuorumError> {
        first_violation(
            self.option_id,
            self.event_name,
            self.event_date,
            self.ticket_type,
            self.quantity,
            self.premium_lamports,
            self.venue_royalty_bps,
        )
    }

    /// Why a creation with these terms is rejected at ledger time `now`, if it
    /// is: the first broken rule, the expiry being checked last. The expiry
    /// must lie strictly after `now`.
    pub open spec fn rejection(self, now: int) -> Option<QuorumError> {
        if self.violation() is Some {
            self.violation()
        } else if self.expiry <= now {
            Some(QuorumError::ExpiryInPast)
        } else {
            None
        }
    }

    /// The account that a creation with these terms leaves: every field from
    /// the request, `Active`, created at `now`.
    pub open spec fn record(self, holder: Seq<u8>, bump: u8, now: int) -> OptionRecord {
        OptionRecord {
            option_id: self.option_id,
            event_name: self.event_name,
            event_date: self.event_date,
            ticket_type: self.ticket_type,
            quantity: self.quantity,
            premium_lamports: self.premium_lamports,
            holder,
            expiry: self.expiry,
            status: OptionStatus::Active.spec_code(),
            created_at: now,
            venue_royalty_bps: self.venue_royalty_bps,
            bump,
        }
    }
}

/// The terms that the arguments of a creation stand for.
pub open spec fn terms_of(
    option_id: Seq<char>,
    event_name: Seq<char>,
    event_date: Seq<char>,
    ticket_type: Seq<char>,
    quantity: u8,
    premium_lamports: u64,
    expiry: i64,
    venue_royalty_bps: u16,
) -> Terms {
    Terms {
        option_id,
        event_name,
        event_date,
        ticket_type,
        quantity: quantity as nat,
        premium_lamports: premium_lamports as nat,
        expiry: expiry as int,
        venue_royalty_bps: venue_royalty_bps as nat,
    }
}

/// Checks the rules that do not depend on the time, in their order, and
/// reports the first that is broken.
pub fn check_terms(
    option_id: &str,
    event_name: &str,
    event_date: &str,
    ticket_type: &str,
    quantity: u8,
    premium_lamports: u64,
    venue_royalty_bps: u16,
) -> (checked: Result<(), QuorumError>)
    ensures
        match first_violation(
            option_id@,
            event_name@,
            event_date@,
            ticket_type@,
            quantity as nat,
            premium_lamports as nat,
            venue_royalty_bps as nat,
        ) {
            Some(e) => checked == Err::<(), QuorumError>(e),
            None => checked == Ok::<(), QuorumError>(()),
        },
{
    if !(quantity > 0 && quantity <= MAX_QUANTITY) {
        return Err(QuorumError::InvalidQuantity);
    }
    if premium_lamports == 0 {
        return Err(QuorumError::InvalidPremium);
    }
    if stored_len(option_id) > MAX_OPTION_ID_LEN {
        return Err(QuorumError::StringTooLong);
    }
    if stored_len(event_name) > MAX_EVENT_NAME_LEN {
        return Err(QuorumError::StringTooLong);
    }
    if stored_len(event_date) > MAX_EVENT_DATE_LEN {
        return Err(QuorumError::StringTooLong);
    }
    if stored_len(ticket_type) > MAX_TICKET_TYPE_LEN {
        return Err(QuorumError::StringTooLong);
    }
    if venue_royalty_bps > MAX_ROYALTY_BPS {
        return Err(QuorumError::InvalidRoyalty);
    }
    Ok(())
}

/// Checks all the rules of a creation at ledger time `now`, in their order,
/// and reports the first that is broken.
pub fn check_terms_at(
    option_id: &str,
    event_name: &str,
    event_date: &str,
    ticket_type: &str,
    quantity: u8,
    premium_lamports: u64,
    expiry: i64,
    venue_royalty_bps: u16,
    now: i64,
) -> (checked: Result<(), QuorumError>)
    ensures
        match terms_of(
            option_id@,
            event_name@,
            event_date@,
            ticket_type@,
            quantity,
            premium_lamports,
            expiry,
            venue_royalty_bps,
        ).rejection(now as int) {
            Some(e) => checked == Err::<(), QuorumError>(e),
            None => checked == Ok::<(), QuorumError>(()),
        },
{
    match check_terms(
        option_id,
        event_name,
        event_date,
        ticket_type,
        quantity,
        premium_lamports,
        venue_royalty_bps,
    ) {
        Err(e) => Err(e),
        Ok(()) => {
            if expiry > now {
                Ok(())
            } else {
                Err(QuorumError::ExpiryInPast)
            }
        },
    }
}

} // verus!
