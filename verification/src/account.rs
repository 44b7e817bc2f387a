//! The option account: the one record that the ledger keeps per option.

use vstd::prelude::*;
use vstd::slice::slice_to_vec;
use vstd::string::StrSliceExecFns;
use vstd::utf8::{encode_utf8, encode_utf8_decode_utf8};
use crate::identity::Identity;
use crate::status::OptionStatus;

verus! {

/// The most bytes an option id may take.
pub const MAX_OPTION_ID_LEN: usize = 32;

/// The most bytes an event name may take.
pub const MAX_EVENT_NAME_LEN: usize = 64;

/// The most bytes an event date may take.
pub const MAX_EVENT_DATE_LEN: usize = 16;

/// The most bytes a ticket type may take.
pub const MAX_TICKET_TYPE_LEN: usize = 32;

/// The most tickets one option may cover.
pub const MAX_QUANTITY: u8 = 20;

/// The highest venue royalty, in basis points (50%).
pub const MAX_ROYALTY_BPS: u16 = 5000;

/// The bytes that the storage layer keeps in front of the record.
pub const MARKER_LEN: usize = 8;

/// The bytes in front of a stored string that hold its length.
pub const LEN_PREFIX: usize = 4;

/// The bytes of the fixed-width fields: quantity, premium, holder, expiry,
/// status, creation time, royalty and bump.
pub const FIXED_FIELDS_LEN: usize = 1 + 8 + 32 + 8 + 1 + 8 + 2 + 1;

/// The namespace tag that, with the option id, seeds the account's address.
pub const OPTION_SEED_TAG: [u8; 6] = [111, 112, 116, 105, 111, 110];

/// The length of a string in bytes, as it is stored.
pub open spec fn byte_len(s: Seq<char>) -> nat {
    encode_utf8(s).len()
}

/// Counts the bytes of a string.
pub fn stored_len(s: &str) -> (len: usize)
    ensures
        len == byte_len(s@),
{
    s.as_bytes().len()
}

/// An option on event tickets, as the ledger stores it.
#[derive(Clone, Debug, PartialEq, Eq)]
pub struct OptionContract {
    /// Business identifier, unique per option; seeds the account's address.
    pub option_id: String,
    pub event_name: String,
    pub event_date: String,
    pub ticket_type: String,
    /// Number of tickets covered.
    pub quantity: u8,
    /// The premium that the holder paid, held by the account itself.
    pub premium_lamports: u64,
    /// Who paid the premium and alone may exercise.
    pub holder: Identity,
    /// Unix time after which the option can no longer be exercised.
    pub expiry: i64,
    /// The stored byte of the status: see [`OptionStatus::code`].
    pub status: u8,
    /// Unix time of creation.
    pub created_at: i64,
    /// Venue royalty in basis points. Recorded only: nothing is paid out by it.
    pub venue_royalty_bps: u16,
    /// The seed byte that completes the account's address.
    pub bump: u8,
}

/// What an option account holds, as mathematical values.
pub ghost struct OptionRecord {
    pub option_id: Seq<char>,
    pub event_name: Seq<char>,
    pub event_date: Seq<char>,
    pub ticket_type: Seq<char>,
    pub quantity: nat,
    pub premium_lamports: nat,
    pub holder: Seq<u8>,
    pub expiry: int,
    pub status: u8,
    pub created_at: int,
    pub venue_royalty_bps: nat,
    pub bump: u8,
}

impl OptionRecord {
    /// Whether the option can still move to another status.
    pub open spec fn is_active(self) -> bool {
        self.status == OptionStatus::Active.spec_code()
    }

    /// The status that the stored byte stands for.
    pub open spec fn lifecycle(self) -> Option<OptionStatus> {
        OptionStatus::spec_from_code(self.status)
    }

    /// The terms that every created option meets, whatever became of it since.
    pub open spec fn wf(self) -> bool {
        &&& 1 <= self.quantity <= MAX_QUANTITY
        &&& self.premium_lamports > 0
        &&& byte_len(self.option_id) <= MAX_OPTION_ID_LEN
        &&& byte_len(self.event_name) <= MAX_EVENT_NAME_LEN
        &&& byte_len(self.event_date) <= MAX_EVENT_DATE_LEN
        &&& byte_len(self.ticket_type) <= MAX_TICKET_TYPE_LEN
        &&& self.venue_royalty_bps <= MAX_ROYALTY_BPS
        &&& self.created_at < self.expiry
        &&& self.lifecycle() is Some
    }

    /// The bytes that the record takes in storage: the marker, each string
    /// behind its length prefix, and the fixed-width fields.
    pub open spec fn encoded_len(self) -> nat {
        MARKER_LEN as nat
            + (LEN_PREFIX as nat + byte_len(self.option_id))
            + (LEN_PREFIX as nat + byte_len(self.event_name))
            + (LEN_PREFIX as nat + byte_len(self.event_date))
            + (LEN_PREFIX as nat + byte_len(self.ticket_type))
            + FIXED_FIELDS_LEN as nat
    }
}

/// The seeds from which the ledger derives the address of the account of the
/// option with this id: the namespace tag, then the bytes of the id.
pub open spec fn address_seeds(option_id: Seq<char>) -> Seq<Seq<u8>> {
    seq![OPTION_SEED_TAG@, encode_utf8(option_id)]
}

/// The seeds name the option: two ids give the same seeds exactly when they
/// are the same id. So a second creation under an id aims at the address of
/// the first, where the ledger finds the account taken, and options with
/// different ids never share their seeds.
pub proof fn lemma_seeds_identify_option(a: Seq<char>, b: Seq<char>)
    ensures
        address_seeds(a) == address_seeds(b) <==> a == b,
{
    if address_seeds(a) == address_seeds(b) {
        assert(address_seeds(a)[1] == address_seeds(b)[1]);
        encode_utf8_decode_utf8(a);
        encode_utf8_decode_utf8(b);
    }
}

/// Computes the seeds of an option's address. The address depends on the id
/// alone, so whoever knows the id finds the account, and no second account can
/// be made under the same id.
pub fn option_seeds(option_id: &str) -> (seeds: Vec<Vec<u8>>)
    ensures
        seeds.deep_view() == address_seeds(option_id@),
{
    let mut seeds: Vec<Vec<u8>> = Vec::new();
    seeds.push(slice_to_vec(OPTION_SEED_TAG.as_slice()));
    seeds.push(option_id.as_bytes_vec());
    assert(seeds.deep_view() =~= address_seeds(option_id@)) by {
        assert(seeds.deep_view().len() == 2);
        assert(seeds.deep_view()[0] =~= OPTION_SEED_TAG@);
        assert(seeds.deep_view()[1] =~= encode_utf8(option_id@));
    }
    seeds
}

impl View for OptionContract {
    type V = OptionRecord;

    open spec fn view(&self) -> OptionRecord {
        OptionRecord {
            option_id: self.option_id@,
            event_name: self.event_name@,
            event_date: self.event_date@,
            ticket_type: self.ticket_type@,
            quantity: self.quantity as nat,
            premium_lamports: self.premium_lamports as nat,
            holder: self.holder@,
            expiry: self.expiry as int,
            status: self.status,
            created_at: self.created_at as int,
            venue_royalty_bps: self.venue_royalty_bps as nat,
            bump: self.bump,
        }
    }
}

impl Default for OptionContract {
    /// The record of an account that was allocated and not yet written: every
    /// string empty, every number zero.
    fn default() -> (blank: OptionContract)
        ensures
            blank@ == (OptionRecord {
                option_id: Seq::<char>::empty(),
                event_name: Seq::<char>::empty(),
                event_date: Seq::<char>::empty(),
                ticket_type: Seq::<char>::empty(),
                quantity: 0,
                premium_lamports: 0,
                holder: Seq::new(32, |i: int| 0u8),
                expiry: 0,
                status: 0,
                created_at: 0,
                venue_royalty_bps: 0,
                bump: 0,
            }),
    {
        OptionContract {
            option_id: String::new(),
            event_name: String::new(),
            event_date: String::new(),
            ticket_type: String::new(),
            quantity: 0,
            premium_lamports: 0,
            holder: Identity::default(),
            expiry: 0,
            status: 0,
            created_at: 0,
            venue_royalty_bps: 0,
            bump: 0,
        }
    }
}

impl OptionContract {
    /// The bytes to allocate for an account: the size of a record whose every
    /// string is as long as it may be. An account cannot grow later.
    pub const MAX_SIZE: usize = MARKER_LEN + (LEN_PREFIX + MAX_OPTION_ID_LEN) + (LEN_PREFIX
        + MAX_EVENT_NAME_LEN) + (LEN_PREFIX + MAX_EVENT_DATE_LEN) + (LEN_PREFIX
        + MAX_TICKET_TYPE_LEN) + FIXED_FIELDS_LEN;

    /// Whether the record meets the terms that creation checks.
    pub open spec fn wf(&self) -> bool {
        self@.wf()
    }

    /// The bytes that this record takes in storage, or `None` where the count
    /// does not fit the machine's word.
    pub fn encoded_len(&self) -> (len: Option<usize>)
        ensures
            match len {
                Some(n) => n == self@.encoded_len(),
                None => self@.encoded_len() > usize::MAX,
            },
    {
        let fixed: usize = MARKER_LEN + 4 * LEN_PREFIX + FIXED_FIELDS_LEN;
        let id_len: usize = stored_len(self.option_id.as_str());
        let name_len: usize = stored_len(self.event_name.as_str());
        let date_len: usize = stored_len(self.event_date.as_str());
        let type_len: usize = stored_len(self.ticket_type.as_str());
        // Four lengths of a machine word cannot overflow twice its width.
        let total: u128 = fixed as u128 + id_len as u128 + name_len as u128 + date_len as u128
            + type_len as u128;
        if total <= usize::MAX as u128 {
            Some(total as usize)
        } else {
            None
        }
    }

    /// A record that meets the creation terms fits the space allocated for it,
    /// and fills it where every string is as long as it may be.
    pub proof fn lemma_fits_allocation(record: OptionRecord)
        requires
            record.wf(),
        ensures
            record.encoded_len() <= Self::MAX_SIZE,
            record.encoded_len() == Self::MAX_SIZE <==> {
                &&& byte_len(record.option_id) == MAX_OPTION_ID_LEN
                &&& byte_len(record.event_name) == MAX_EVENT_NAME_LEN
                &&& byte_len(record.event_date) == MAX_EVENT_DATE_LEN
                &&& byte_len(record.ticket_type) == MAX_TICKET_TYPE_LEN
            },
    {
    }

    /// The status of the option, or `None` where the stored byte is none.
    pub fn lifecycle(&self) -> (status: Option<OptionStatus>)
        ensures
            status == self@.lifecycle(),
    {
        OptionStatus::from_code(self.status)
    }

    /// Whether the option is still `Active`.
    pub fn is_active(&self) -> (active: bool)
        ensures
            active == self@.is_active(),
    {
        self.status == OptionStatus::Active.code()
    }
}

} // verus!
