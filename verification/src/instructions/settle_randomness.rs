use vstd::bytes::{spec_u64_from_le_bytes, u64_from_le_bytes};
use vstd::prelude::*;
use vstd::slice::slice_subrange;

use crate::error::{EventError, InstructionError};
use crate::logs::RandomnessSettled;
use crate::state::{Event, Pubkey, SaleState};

verus! {

/// The address of the SlotHashes sysvar, as bytes.
pub open spec fn slot_hashes_sysvar_bytes() -> Seq<u8> {
    seq![
        6u8, 167u8, 213u8, 23u8, 25u8, 47u8, 10u8, 175u8, 198u8, 242u8, 101u8, 227u8, 251u8, 119u8,
        204u8, 122u8, 218u8, 130u8, 197u8, 41u8, 208u8, 190u8, 59u8, 19u8, 110u8, 45u8, 0u8, 85u8,
        32u8, 0u8, 0u8, 0u8,
    ]
}

/// Gives `solana_sdk_ids::sysvar::slot_hashes::ID`, the address of the
/// SlotHashes sysvar, whose base58 text is
/// `SysvarS1otHashes111111111111111111111111111`; the contract states its
/// 32 bytes.
#[verifier::external_body]
fn slot_hashes_sysvar_id() -> (r: Pubkey)
    ensures
        r@ == slot_hashes_sysvar_bytes(),
{
    Pubkey { bytes: solana_sdk_ids::sysvar::slot_hashes::ID.to_bytes() }
}

/// The accounts that revealing a hot sale's randomness reads and writes.
pub struct SettleRandomness {
    /// The address of `event`.
    pub event_key: Pubkey,
    pub event: Event,
    pub sale: SaleState,
    /// The address of the account passed as the SlotHashes sysvar.
    pub slot_hashes: Pubkey,
}

/// Why revealing the randomness at time `now` is refused, given the data of
/// the SlotHashes sysvar, in the order the checks run; `None` when it is
/// accepted. The data starts with the number of entries (8 bytes, little
/// endian); the first entry's slot follows (8 bytes), then its 32-byte hash.
pub open spec fn settle_randomness_error(accounts: SettleRandomness, data: Seq<u8>, now: i64) -> Option<
    InstructionError,
> {
    if !accounts.event.hot_sale {
        Some(InstructionError::Event(EventError::NotHotSale))
    } else if accounts.sale.event@ != accounts.event_key@ {
        Some(InstructionError::Event(EventError::EntryMismatch))
    } else if accounts.sale.settled {
        Some(InstructionError::Event(EventError::AlreadySettled))
    } else if accounts.slot_hashes@ != slot_hashes_sysvar_bytes() {
        Some(InstructionError::ConstraintAddress)
    } else if now < accounts.sale.reveal_at {
        Some(InstructionError::Event(EventError::RandomnessNotSettled))
    } else if data.len() < 48 {
        Some(InstructionError::Event(EventError::RandomnessNotSettled))
    } else if spec_u64_from_le_bytes(data.subrange(0, 8)) == 0 {
        Some(InstructionError::Event(EventError::RandomnessNotSettled))
    } else {
        None
    }
}

/// The randomness that an accepted reveal records: the first 8 bytes of the
/// most recent slot hash, read little endian.
pub open spec fn revealed_randomness(data: Seq<u8>) -> u64 {
    spec_u64_from_le_bytes(data.subrange(16, 24))
}

/// The accounts after an accepted reveal: the sale holds the randomness and
/// is settled.
pub open spec fn settle_randomness_applied(accounts: SettleRandomness, data: Seq<u8>) -> SettleRandomness {
    SettleRandomness {
        sale: SaleState { randomness: revealed_randomness(data), settled: true, ..accounts.sale },
        ..accounts
    }
}

/// Reveals the randomness that shifts the queue of a hot sale, from the most
/// recent slot hash in `slot_hashes_data`, at time `now`.
pub fn handle_settle_randomness(accounts: &mut SettleRandomness, slot_hashes_data: &[u8], now: i64) -> (r:
    Result<RandomnessSettled, InstructionError>)
    ensures
        match settle_randomness_error(*old(accounts), slot_hashes_data@, now) {
            Some(e) => r == Err::<RandomnessSettled, InstructionError>(e) && *final(accounts) == *old(
                accounts,
            ),
            None => r == Ok::<RandomnessSettled, InstructionError>(
                RandomnessSettled {
                    event: old(accounts).sale.event,
                    randomness: revealed_randomness(slot_hashes_data@),
                },
            )
                && *final(accounts) == settle_randomness_applied(*old(accounts), slot_hashes_data@),
        },
{
    if !accounts.event.hot_sale {
        return Err(InstructionError::Event(EventError::NotHotSale));
    }
    if !accounts.sale.event.same_as(&accounts.event_key) {
        return Err(InstructionError::Event(EventError::EntryMismatch));
    }
    if accounts.sale.settled {
        return Err(InstructionError::Event(EventError::AlreadySettled));
    }
    let sysvar = slot_hashes_sysvar_id();
    if !accounts.slot_hashes.same_as(&sysvar) {
        return Err(InstructionError::ConstraintAddress);
    }
    if now < accounts.sale.reveal_at {
        return Err(InstructionError::Event(EventError::RandomnessNotSettled));
    }
    if slot_hashes_data.len() < 48 {
        return Err(InstructionError::Event(EventError::RandomnessNotSettled));
    }
    let count = u64_from_le_bytes(slice_subrange(slot_hashes_data, 0, 8));
    if count == 0 {
        return Err(InstructionError::Event(EventError::RandomnessNotSettled));
    }
    let randomness = u64_from_le_bytes(slice_subrange(slot_hashes_data, 16, 24));
    accounts.sale.randomness = randomness;
    accounts.sale.settled = true;
    Ok(RandomnessSettled { event: accounts.sale.event, randomness })
}

/// The randomness is revealed once: after an accepted reveal, every later
/// reveal is refused as already settled.
pub proof fn lemma_settle_randomness_once(
    accounts: SettleRandomness,
    data: Seq<u8>,
    now: i64,
    later_data: Seq<u8>,
    later: i64,
)
    requires
        settle_randomness_error(accounts, data, now) is None,
    ensures
        settle_randomness_error(settle_randomness_applied(accounts, data), later_data, later) == Some(
            InstructionError::Event(EventError::AlreadySettled),
        ),
{
}

} // verus!
