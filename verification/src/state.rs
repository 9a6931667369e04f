use vstd::prelude::*;

use crate::constants::{CITY_MAX, DESCRIPTION_MAX, IMAGE_URI_MAX, MIN_ROUND_DURATION_SECS, TITLE_MAX, VENUE_MAX};
use crate::error::EventError;
use crate::text::byte_len;

verus! {

/// An account address: 32 bytes.
#[derive(Clone, Copy, Debug, PartialEq, Eq)]
pub struct Pubkey {
    pub bytes: [u8; 32],
}

impl View for Pubkey {
    type V = Seq<u8>;

    open spec fn view(&self) -> Seq<u8> {
        self.bytes@
    }
}

impl Pubkey {
    /// Whether `self` and `other` are the same address.
    pub fn same_as(&self, other: &Pubkey) -> (r: bool)
        ensures
            r == (self@ == other@),
    {
        let mut i: usize = 0;
        while i < 32
            invariant
                0 <= i <= 32,
                self@.len() == 32,
                other@.len() == 32,
                forall|j: int| 0 <= j < i ==> self@[j] == other@[j],
            decreases 32 - i,
        {
            if self.bytes[i] != other.bytes[i] {
                return false;
            }
            i = i + 1;
        }
        assert(self@ =~= other@);
        true
    }
}

#[derive(Clone, Copy, Debug, PartialEq, Eq, Structural)]
pub enum EventStatus {
    Active,
    Cancelled,
}

/// An event that sells tickets.
#[derive(Clone, Debug, PartialEq)]
pub struct Event {
    pub organizer: Pubkey,
    pub slug: String,
    pub title: String,
    pub description: String,
    pub venue: String,
    pub city: String,
    pub image_uri: String,
    pub starts_at: i64,
    pub ends_at: i64,
    pub ticket_price_lamports: u64,
    pub capacity: u32,
    pub tickets_sold: u32,
    pub hot_sale: bool,
    pub status: EventStatus,
}

impl Event {
    /// What every stored event satisfies: room for at least one ticket, and
    /// no more tickets sold than there is room for.
    pub open spec fn well_formed(&self) -> bool {
        &&& self.capacity >= 1
        &&& self.tickets_sold <= self.capacity
    }
}

#[derive(Clone, Copy, Debug, PartialEq, Eq, Structural)]
pub enum TicketStatus {
    Valid,
    Used,
}

/// A ticket that one buyer holds for one event.
#[derive(Clone, Copy, Debug, PartialEq)]
pub struct Ticket {
    pub event: Pubkey,
    pub buyer: Pubkey,
    pub mint: Pubkey,
    pub status: TicketStatus,
    pub checked_in_at: i64,
}

/// `a + b`, held to the range of `i64`.
pub open spec fn sat_add_i64(a: i64, b: i64) -> i64 {
    if a + b > i64::MAX {
        i64::MAX
    } else if a + b < i64::MIN {
        i64::MIN
    } else {
        (a + b) as i64
    }
}

/// `a * b`, held to the range of `u64`.
pub open spec fn sat_mul_u64(a: u64, b: u64) -> u64 {
    if a * b > u64::MAX {
        u64::MAX
    } else {
        (a * b) as u64
    }
}

fn saturating_add_i64(a: i64, b: i64) -> (r: i64)
    ensures
        r == sat_add_i64(a, b),
{
    match a.checked_add(b) {
        Some(v) => v,
        None => if b > 0 { i64::MAX } else { i64::MIN },
    }
}

fn saturating_mul_u64(a: u64, b: u64) -> (r: u64)
    ensures
        r == sat_mul_u64(a, b),
{
    match a.checked_mul(b) {
        Some(v) => v,
        None => u64::MAX,
    }
}

/// The state of a hot sale: a queue that buyers join with a stake, a random
/// shift revealed after registration, and claim rounds of `window_size`
/// queue places each.
#[derive(Clone, Copy, Debug, PartialEq)]
pub struct SaleState {
    pub event: Pubkey,
    pub registration_start: i64,
    pub registration_end: i64,
    pub reveal_at: i64,
    pub claim_start: i64,
    pub round_duration_secs: i64,
    pub stake_lamports: u64,
    pub window_size: u32,
    pub total_entries: u32,
    pub randomness: u64,
    pub settled: bool,
    pub claimed: u32,
    pub settled_count: u32,
    pub forfeited_count: u32,
    pub bump: u8,
}

/// The queue place at which an entry may claim: its position shifted by the
/// revealed randomness, both taken modulo the number of entries.
pub open spec fn effective_position_spec(randomness: u64, total_entries: u32, position: u32) -> u32 {
    if total_entries == 0 {
        0
    } else {
        ((randomness % (total_entries as u64)) + ((position as u64) % (total_entries as u64))) as u32
    }
}

/// The claim round of a queue place: rounds hold `window_size` places each.
pub open spec fn round_of_spec(window_size: u32, effective_position: u32) -> u64 {
    if window_size == 0 {
        0
    } else {
        ((effective_position as u64) / (window_size as u64)) as u64
    }
}

/// When a claim round opens: `claim_start + round * round_duration_secs`,
/// each step held to the range of its type.
pub open spec fn round_start_spec(claim_start: i64, round_duration_secs: i64, round: u64) -> i64 {
    sat_add_i64(claim_start, sat_mul_u64(round, round_duration_secs as u64) as i64)
}

impl SaleState {
    /// The entries not yet claimed, refunded or forfeited.
    pub open spec fn pending_spec(&self) -> nat {
        let done = self.claimed + self.settled_count + self.forfeited_count;
        if self.total_entries >= done {
            (self.total_entries - done) as nat
        } else {
            0
        }
    }

    /// The open and close times of `round`.
    pub open spec fn round_bounds_spec(&self, round: u64) -> (i64, i64) {
        let start = round_start_spec(self.claim_start, self.round_duration_secs, round);
        (start, sat_add_i64(start, self.round_duration_secs))
    }

    /// The entries not yet claimed, refunded or forfeited.
    pub fn pending(&self) -> (r: u32)
        ensures
            r == self.pending_spec(),
    {
        self.total_entries.saturating_sub(self.claimed).saturating_sub(self.settled_count).saturating_sub(
            self.forfeited_count,
        )
    }

    /// The queue place at which `entry` may claim.
    pub fn effective_position(&self, entry: &QueueEntry) -> (r: u32)
        ensures
            r == effective_position_spec(self.randomness, self.total_entries, entry.position),
    {
        let total = self.total_entries as u64;
        if total == 0 {
            return 0;
        }
        ((self.randomness % total) + entry.position as u64 % total) as u32
    }

    /// The claim round of a queue place.
    pub fn round_of(&self, effective_position: u32) -> (r: u64)
        ensures
            r == round_of_spec(self.window_size, effective_position),
    {
        if self.window_size == 0 {
            return 0;
        }
        effective_position as u64 / self.window_size as u64
    }

    /// The open and close times of a claim round.
    pub fn round_bounds(&self, round: u64) -> (r: (i64, i64))
        ensures
            r == self.round_bounds_spec(round),
    {
        let start = saturating_add_i64(
            self.claim_start,
            (saturating_mul_u64(round, self.round_duration_secs as u64)) as i64,
        );
        (start, saturating_add_i64(start, self.round_duration_secs))
    }
}

/// Claim rounds follow one another without gap or overlap: each round
/// closes when the next one opens, as long as no time overflows.
pub proof fn lemma_rounds_contiguous(sale: SaleState, round: u64)
    requires
        sale.round_duration_secs >= 0,
        round < u64::MAX,
        (round + 1) * sale.round_duration_secs <= i64::MAX,
        sale.claim_start + (round + 1) * sale.round_duration_secs <= i64::MAX,
    ensures
        sale.round_bounds_spec(round).1 == sale.round_bounds_spec((round + 1) as u64).0,
        sale.round_bounds_spec(round).1 - sale.round_bounds_spec(round).0 == sale.round_duration_secs,
{
    let d = sale.round_duration_secs;
    let r = round as int;
    let next = (round + 1) as u64;
    assert((r + 1) * d == r * d + d) by (nonlinear_arith);
    assert(0 <= r * d) by (nonlinear_arith)
        requires
            0 <= r,
            0 <= d,
    ;
    assert(d as u64 == d);
    assert(sat_mul_u64(round, d as u64) == r * d);
    assert(sat_mul_u64(next, d as u64) == (r + 1) * d);
    assert(sat_mul_u64(round, d as u64) as i64 == r * d);
    assert(sat_mul_u64(next, d as u64) as i64 == (r + 1) * d);
    assert(round_start_spec(sale.claim_start, d, round) == sale.claim_start + r * d);
    assert(round_start_spec(sale.claim_start, d, next) == sale.claim_start + (r + 1) * d);
}

#[derive(Clone, Copy, Debug, PartialEq, Eq, Structural)]
pub enum QueueStatus {
    Staked,
    Claimed,
    Settled,
    Forfeited,
}

/// One buyer's place in a hot-sale queue.
#[derive(Clone, Copy, Debug, PartialEq)]
pub struct QueueEntry {
    pub event: Pubkey,
    pub buyer: Pubkey,
    pub position: u32,
    pub stake_lamports: u64,
    pub status: QueueStatus,
}

/// The phases of a hot sale, as the organizer asks for them.
#[derive(Clone, Copy, Debug, PartialEq)]
pub struct SaleParams {
    pub registration_start: i64,
    pub registration_end: i64,
    pub reveal_at: i64,
    pub claim_start: i64,
    pub round_duration_secs: i64,
    pub stake_lamports: u64,
    pub window_size: u32,
}

impl SaleParams {
    /// Registration starts no earlier than `now` and lasts a while, the reveal
    /// follows it, claiming follows the reveal, rounds last at least
    /// `MIN_ROUND_DURATION_SECS` and hold at least one place.
    pub open spec fn phases_valid(&self, now: i64) -> bool {
        &&& self.registration_start >= now
        &&& self.registration_end > self.registration_start
        &&& self.reveal_at >= self.registration_end
        &&& self.claim_start >= self.reveal_at
        &&& self.round_duration_secs >= MIN_ROUND_DURATION_SECS
        &&& self.window_size >= 1
    }

    /// Checks the phases of a hot sale configured at `now`.
    pub fn validate(&self, now: i64) -> (r: Result<(), EventError>)
        ensures
            r == (if self.phases_valid(now) { Ok(()) } else { Err(EventError::InvalidSalePhases) }),
    {
        if !(self.registration_start >= now) {
            return Err(EventError::InvalidSalePhases);
        }
        if !(self.registration_end > self.registration_start) {
            return Err(EventError::InvalidSalePhases);
        }
        if !(self.reveal_at >= self.registration_end) {
            return Err(EventError::InvalidSalePhases);
        }
        if !(self.claim_start >= self.reveal_at) {
            return Err(EventError::InvalidSalePhases);
        }
        if !(self.round_duration_secs >= MIN_ROUND_DURATION_SECS) {
            return Err(EventError::InvalidSalePhases);
        }
        if !(self.window_size >= 1) {
            return Err(EventError::InvalidSalePhases);
        }
        Ok(())
    }
}

/// The fields of an event that its organizer chooses.
#[derive(Clone, Debug, PartialEq)]
pub struct EventParams {
    pub title: String,
    pub description: String,
    pub venue: String,
    pub city: String,
    pub image_uri: String,
    pub starts_at: i64,
    pub ends_at: i64,
    pub ticket_price_lamports: u64,
    pub capacity: u32,
    pub hot_sale: bool,
}

impl EventParams {
    /// The first rule, in the order they are checked, that these fields break
    /// at time `now`; `None` when they break none.
    pub open spec fn first_error(&self, now: i64) -> Option<EventError> {
        if !(self.title@.len() > 0 && byte_len(self.title@) <= TITLE_MAX) {
            Some(EventError::InvalidTitle)
        } else if !(byte_len(self.description@) <= DESCRIPTION_MAX) {
            Some(EventError::InvalidDescription)
        } else if !(self.venue@.len() > 0 && byte_len(self.venue@) <= VENUE_MAX) {
            Some(EventError::InvalidVenue)
        } else if !(self.city@.len() > 0 && byte_len(self.city@) <= CITY_MAX) {
            Some(EventError::InvalidCity)
        } else if !(byte_len(self.image_uri@) <= IMAGE_URI_MAX) {
            Some(EventError::InvalidImageUri)
        } else if !(self.starts_at > now) {
            Some(EventError::InvalidStartDate)
        } else if !(self.ends_at > self.starts_at) {
            Some(EventError::InvalidEndDate)
        } else if !(self.capacity >= 1) {
            Some(EventError::InvalidCapacity)
        } else {
            None
        }
    }

    /// Checks the fields of an event at time `now`.
    pub fn validate(&self, now: i64) -> (r: Result<(), EventError>)
        ensures
            r == (match self.first_error(now) {
                Some(e) => Err(e),
                None => Ok(()),
            }),
    {
        let title = self.title.as_str();
        if !(!title.is_empty() && title.as_bytes().len() <= TITLE_MAX) {
            return Err(EventError::InvalidTitle);
        }
        if !(self.description.as_str().as_bytes().len() <= DESCRIPTION_MAX) {
            return Err(EventError::InvalidDescription);
        }
        let venue = self.venue.as_str();
        if !(!venue.is_empty() && venue.as_bytes().len() <= VENUE_MAX) {
            return Err(EventError::InvalidVenue);
        }
        let city = self.city.as_str();
        if !(!city.is_empty() && city.as_bytes().len() <= CITY_MAX) {
            return Err(EventError::InvalidCity);
        }
        if !(self.image_uri.as_str().as_bytes().len() <= IMAGE_URI_MAX) {
            return Err(EventError::InvalidImageUri);
        }
        if !(self.starts_at > now) {
            return Err(EventError::InvalidStartDate);
        }
        if !(self.ends_at > self.starts_at) {
            return Err(EventError::InvalidEndDate);
        }
        if !(self.capacity >= 1) {
            return Err(EventError::InvalidCapacity);
        }
        Ok(())
    }
}

} // verus!
