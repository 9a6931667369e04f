use vstd::prelude::*;

use crate::state::Pubkey;

verus! {

/// Logged when an event is created.
#[derive(Clone, Debug, PartialEq)]
pub struct EventCreated {
    pub event: Pubkey,
    pub organizer: Pubkey,
    pub slug: String,
    pub title: String,
    pub city: String,
    pub starts_at: i64,
    pub ends_at: i64,
    pub ticket_price_lamports: u64,
    pub capacity: u32,
    pub hot_sale: bool,
}

/// Logged when an event is updated.
#[derive(Clone, Debug, PartialEq)]
pub struct EventUpdated {
    pub event: Pubkey,
    pub title: String,
    pub starts_at: i64,
    pub ends_at: i64,
    pub ticket_price_lamports: u64,
    pub capacity: u32,
}

/// Logged when an event is cancelled.
#[derive(Clone, Copy, Debug, PartialEq)]
pub struct EventCancelled {
    pub event: Pubkey,
}

/// Logged when the organizer takes lamports out of the vault.
#[derive(Clone, Copy, Debug, PartialEq)]
pub struct FundsWithdrawn {
    pub event: Pubkey,
    pub organizer: Pubkey,
    pub amount: u64,
}

/// Logged when a ticket is sold.
#[derive(Clone, Copy, Debug, PartialEq)]
pub struct TicketPurchased {
    pub event: Pubkey,
    pub buyer: Pubkey,
    pub ticket: Pubkey,
    pub mint: Pubkey,
    pub ticket_number: u32,
    pub price_lamports: u64,
}

/// Logged when a ticket is checked in.
#[derive(Clone, Copy, Debug, PartialEq)]
pub struct TicketCheckedIn {
    pub event: Pubkey,
    pub ticket: Pubkey,
    pub buyer: Pubkey,
    pub checked_in_at: i64,
}

/// Logged when a hot sale is configured.
#[derive(Clone, Copy, Debug, PartialEq)]
pub struct SaleConfigured {
    pub event: Pubkey,
    pub stake_lamports: u64,
    pub window_size: u32,
    pub round_duration_secs: i64,
}

/// Logged when a buyer joins a hot-sale queue.
#[derive(Clone, Copy, Debug, PartialEq)]
pub struct QueueJoined {
    pub event: Pubkey,
    pub buyer: Pubkey,
    pub entry: Pubkey,
    pub position: u32,
    pub total_entries: u32,
}

/// Logged when a hot sale's randomness is revealed.
#[derive(Clone, Copy, Debug, PartialEq)]
pub struct RandomnessSettled {
    pub event: Pubkey,
    pub randomness: u64,
}

/// Logged when a queue entry's stake is settled.
#[derive(Clone, Copy, Debug, PartialEq)]
pub struct StakeSettled {
    pub event: Pubkey,
    pub entry: Pubkey,
    pub buyer: Pubkey,
    /// Whether the stake went back to the buyer; else it was forfeited.
    pub refunded: bool,
    pub amount: u64,
}

} // verus!
