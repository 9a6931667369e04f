use vstd::prelude::*;

verus! {

/// Seed (as UTF-8 bytes) of the event account address: `[EVENT_SEED, organizer, slug]`.
pub const EVENT_SEED: &'static str = "event";

/// Seed (as UTF-8 bytes) of the lamport vault address: `[VAULT_SEED, event]`.
pub const VAULT_SEED: &'static str = "vault";

/// Seed (as UTF-8 bytes) of the ticket mint address: `[MINT_SEED, event, buyer]`.
pub const MINT_SEED: &'static str = "mint";

/// Seed (as UTF-8 bytes) of the ticket account address: `[TICKET_SEED, event, buyer]`.
pub const TICKET_SEED: &'static str = "ticket";

/// Seed (as UTF-8 bytes) of the hot-sale state address: `[SALE_SEED, event]`.
pub const SALE_SEED: &'static str = "sale";

/// Seed (as UTF-8 bytes) of a queue entry address: `[QUEUE_SEED, event, buyer]`.
pub const QUEUE_SEED: &'static str = "queue";

pub const SLUG_MAX: usize = 32;

pub const TITLE_MAX: usize = 64;

pub const DESCRIPTION_MAX: usize = 512;

pub const VENUE_MAX: usize = 64;

pub const CITY_MAX: usize = 32;

pub const IMAGE_URI_MAX: usize = 128;

/// Shortest allowed claim round of a hot sale, in seconds.
pub const MIN_ROUND_DURATION_SECS: i64 = 60;

/// Check-in opens this many seconds before the event starts.
pub const CHECK_IN_OPEN_BEFORE_START_SECS: i64 = 3600;

/// Check-in stays open this many seconds after the event ends.
pub const CHECK_IN_GRACE_AFTER_END_SECS: i64 = 86400;

/// Longest ticket NFT name, in bytes.
pub const TICKET_META_NAME_MAX: usize = 32;

/// Symbol of every ticket NFT.
pub const TICKET_META_SYMBOL: &'static str = "AFISHA";

/// Longest ticket NFT symbol, in bytes.
pub const TICKET_META_SYMBOL_MAX: usize = 10;

/// Longest ticket NFT metadata URI, in bytes.
pub const TICKET_META_URI_MAX: usize = 200;

} // verus!
