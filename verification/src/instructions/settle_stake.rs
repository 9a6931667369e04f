use vstd::prelude::*;

use crate::error::{EventError, InstructionError};
use crate::logs::StakeSettled;
use crate::state::{
    effective_position_spec, round_of_spec, Event, EventStatus, Pubkey, QueueEntry, QueueStatus,
    SaleState,
};

verus! {

/// The accounts that settling a queue entry's stake reads and writes.
pub struct SettleStake {
    /// The address of `event`.
    pub event_key: Pubkey,
    pub event: Event,
    pub sale: SaleState,
    /// The address of `entry`.
    pub entry_key: Pubkey,
    pub entry: QueueEntry,
    /// The account that receives a refund; it must be the entry's buyer.
    pub entry_buyer: Pubkey,
}

/// Whether the sale is over at time `now`: the event was cancelled, has
/// started, or is sold out.
pub open spec fn sale_over(event: Event, now: i64) -> bool {
    event.status == EventStatus::Cancelled || now >= event.starts_at || event.tickets_sold
        == event.capacity
}

/// When the claim round of `entry` closes.
pub open spec fn claim_round_end(sale: SaleState, entry: QueueEntry) -> i64 {
    sale.round_bounds_spec(
        round_of_spec(
            sale.window_size,
            effective_position_spec(sale.randomness, sale.total_entries, entry.position),
        ),
    ).1
}

/// Whether the stake is forfeited: the event went ahead without selling out,
/// and the entry's claim round had closed by `now`.
pub open spec fn stake_forfeited(accounts: SettleStake, now: i64) -> bool {
    accounts.event.status != EventStatus::Cancelled && accounts.event.tickets_sold
        != accounts.event.capacity && now >= claim_round_end(accounts.sale, accounts.entry)
}

impl SettleStake {
    /// Whether settling at time `now` forfeits the stake rather than refunds
    /// it; this decides which of the sale's counters a settlement raises.
    pub fn forfeits(&self, now: i64) -> (r: bool)
        ensures
            r == stake_forfeited(*self, now),
    {
        self.event.status != EventStatus::Cancelled && self.event.tickets_sold != self.event.capacity
            && {
            let round = self.sale.round_of(self.sale.effective_position(&self.entry));
            let (_, round_end) = self.sale.round_bounds(round);
            now >= round_end
        }
    }
}

/// Why settling the stake at time `now` is refused, in the order the checks
/// run; `None` when it is accepted.
pub open spec fn settle_stake_error(accounts: SettleStake, now: i64) -> Option<InstructionError> {
    if !accounts.event.hot_sale {
        Some(InstructionError::Event(EventError::NotHotSale))
    } else if accounts.sale.event@ != accounts.event_key@ {
        Some(InstructionError::Event(EventError::EntryMismatch))
    } else if accounts.entry.event@ != accounts.event_key@ {
        Some(InstructionError::Event(EventError::EntryMismatch))
    } else if accounts.entry.buyer@ != accounts.entry_buyer@ {
        Some(InstructionError::Event(EventError::EntryMismatch))
    } else if accounts.entry.status != QueueStatus::Staked {
        Some(InstructionError::Event(EventError::EntryNotStaked))
    } else if !sale_over(accounts.event, now) {
        Some(InstructionError::Event(EventError::SettleTooEarly))
    } else {
        None
    }
}

/// The accounts after an accepted settlement at `now`: the entry is refunded
/// or forfeited, and the sale counts it.
pub open spec fn settle_stake_applied(accounts: SettleStake, now: i64) -> SettleStake {
    if stake_forfeited(accounts, now) {
        SettleStake {
            entry: QueueEntry { status: QueueStatus::Forfeited, ..accounts.entry },
            sale: SaleState {
                forfeited_count: (accounts.sale.forfeited_count + 1) as u32,
                ..accounts.sale
            },
            ..accounts
        }
    } else {
        SettleStake {
            entry: QueueEntry { status: QueueStatus::Settled, ..accounts.entry },
            sale: SaleState { settled_count: (accounts.sale.settled_count + 1) as u32, ..accounts.sale },
            ..accounts
        }
    }
}

/// Whether the counter that an accepted settlement at `now` raises has room:
/// the forfeited count for a forfeit, the settled count for a refund.
pub open spec fn settle_stake_fits_spec(accounts: SettleStake, now: i64) -> bool {
    settle_stake_error(accounts, now) is None ==> if stake_forfeited(accounts, now) {
        accounts.sale.forfeited_count < u32::MAX
    } else {
        accounts.sale.settled_count < u32::MAX
    }
}

/// Why settling the stake at time `now` is refused, as `settle_stake_error`
/// gives it.
fn settle_stake_check(accounts: &SettleStake, now: i64) -> (r: Option<InstructionError>)
    ensures
        r == settle_stake_error(*accounts, now),
{
    if !accounts.event.hot_sale {
        return Some(InstructionError::Event(EventError::NotHotSale));
    }
    if !accounts.sale.event.same_as(&accounts.event_key) {
        return Some(InstructionError::Event(EventError::EntryMismatch));
    }
    if !accounts.entry.event.same_as(&accounts.event_key) {
        return Some(InstructionError::Event(EventError::EntryMismatch));
    }
    if !accounts.entry.buyer.same_as(&accounts.entry_buyer) {
        return Some(InstructionError::Event(EventError::EntryMismatch));
    }
    if accounts.entry.status != QueueStatus::Staked {
        return Some(InstructionError::Event(EventError::EntryNotStaked));
    }
    let event = &accounts.event;
    let sale_over = event.status == EventStatus::Cancelled || now >= event.starts_at
        || event.tickets_sold == event.capacity;
    if !sale_over {
        return Some(InstructionError::Event(EventError::SettleTooEarly));
    }
    None
}

/// Tests whether `handle_settle_stake` can run on these accounts at `now`
/// without its counter overflowing.
pub fn settle_stake_fits(accounts: &SettleStake, now: i64) -> (r: bool)
    ensures
        r == settle_stake_fits_spec(*accounts, now),
{
    if settle_stake_check(accounts, now).is_some() {
        return true;
    }
    if accounts.forfeits(now) {
        accounts.sale.forfeited_count < u32::MAX
    } else {
        accounts.sale.settled_count < u32::MAX
    }
}

/// Settles the stake of a queue entry once the sale is over, at time `now`:
/// refunded when the event was cancelled, sold out, or the entry's claim
/// round is still open; forfeited otherwise. The caller pays a refund out of
/// the vault: `amount` lamports when `refunded` and `amount` is not zero.
pub fn handle_settle_stake(accounts: &mut SettleStake, now: i64) -> (r: Result<
    StakeSettled,
    InstructionError,
>)
    requires
        settle_stake_fits_spec(*old(accounts), now),
    ensures
        match settle_stake_error(*old(accounts), now) {
            Some(e) => r == Err::<StakeSettled, InstructionError>(e) && *final(accounts) == *old(
                accounts,
            ),
            None => r == Ok::<StakeSettled, InstructionError>(
                StakeSettled {
                    event: old(accounts).event_key,
                    entry: old(accounts).entry_key,
                    buyer: old(accounts).entry.buyer,
                    refunded: !stake_forfeited(*old(accounts), now),
                    amount: old(accounts).entry.stake_lamports,
                },
            ) && *final(accounts) == settle_stake_applied(*old(accounts), now),
        },
{
    if let Some(e) = settle_stake_check(accounts, now) {
        return Err(e);
    }
    let forfeit = accounts.forfeits(now);
    if !forfeit {
        accounts.entry.status = QueueStatus::Settled;
        accounts.sale.settled_count = accounts.sale.settled_count + 1;
    } else {
        accounts.entry.status = QueueStatus::Forfeited;
        accounts.sale.forfeited_count = accounts.sale.forfeited_count + 1;
    }
    Ok(
        StakeSettled {
            event: accounts.event_key,
            entry: accounts.entry_key,
            buyer: accounts.entry.buyer,
            refunded: !forfeit,
            amount: accounts.entry.stake_lamports,
        },
    )
}

/// A stake is settled once: after an accepted settlement, every later one of
/// the same entry is refused.
pub proof fn lemma_settle_stake_once(accounts: SettleStake, now: i64, later: i64)
    requires
        settle_stake_error(accounts, now) is None,
    ensures
        settle_stake_error(settle_stake_applied(accounts, now), later) == Some(
            InstructionError::Event(EventError::EntryNotStaked),
        ),
{
}

/// Nobody loses a stake to a sale that did not go ahead or that sold out:
/// when the event is cancelled or sold out, an accepted settlement refunds.
pub proof fn lemma_refund_when_cancelled_or_sold_out(accounts: SettleStake, now: i64)
    requires
        settle_stake_error(accounts, now) is None,
        accounts.event.status == EventStatus::Cancelled || accounts.event.tickets_sold
            == accounts.event.capacity,
    ensures
        !stake_forfeited(accounts, now),
        settle_stake_applied(accounts, now).entry.status == QueueStatus::Settled,
{
}

/// Each accepted settlement takes exactly one entry off the pending count,
/// while the counts of finished entries do not exceed the queue.
pub proof fn lemma_settle_stake_pending(accounts: SettleStake, now: i64)
    requires
        settle_stake_error(accounts, now) is None,
        accounts.sale.settled_count < u32::MAX,
        accounts.sale.forfeited_count < u32::MAX,
        accounts.sale.claimed + accounts.sale.settled_count + accounts.sale.forfeited_count
            < accounts.sale.total_entries,
    ensures
        settle_stake_applied(accounts, now).sale.pending_spec() + 1 == accounts.sale.pending_spec(),
{
}

} // verus!
