use vstd::prelude::*;

use crate::error::{EventError, InstructionError};
use crate::logs::QueueJoined;
use crate::instructions::configure_sale::configured_sale;
use crate::state::{Event, EventStatus, Pubkey, QueueEntry, QueueStatus, SaleParams, SaleState};

verus! {

/// The accounts that joining a hot-sale queue reads and writes.
pub struct JoinQueue {
    /// The signer, who pays the stake.
    pub buyer: Pubkey,
    /// The address of `event`.
    pub event_key: Pubkey,
    pub event: Event,
    pub sale: SaleState,
    /// The address of the new queue entry.
    pub entry_key: Pubkey,
}

/// Why joining the queue at time `now` is refused, in the order the checks
/// run; `None` when it is accepted.
pub open spec fn join_queue_error(accounts: JoinQueue, now: i64) -> Option<InstructionError> {
    if accounts.event.status != EventStatus::Active {
        Some(InstructionError::Event(EventError::EventNotActive))
    } else if !accounts.event.hot_sale {
        Some(InstructionError::Event(EventError::NotHotSale))
    } else if accounts.sale.event@ != accounts.event_key@ {
        Some(InstructionError::Event(EventError::EntryMismatch))
    } else if accounts.sale.settled {
        Some(InstructionError::Event(EventError::RandomnessNotSettled))
    } else if !(now >= accounts.sale.registration_start && now < accounts.sale.registration_end) {
        Some(InstructionError::Event(EventError::RegistrationClosed))
    } else {
        None
    }
}

/// The entry an accepted join creates: the next place in the queue, holding
/// the sale's stake.
pub open spec fn joined_entry(accounts: JoinQueue) -> QueueEntry {
    QueueEntry {
        event: accounts.event_key,
        buyer: accounts.buyer,
        position: accounts.sale.total_entries,
        stake_lamports: accounts.sale.stake_lamports,
        status: QueueStatus::Staked,
    }
}

/// The accounts after an accepted join: one more entry in the queue.
pub open spec fn join_queue_applied(accounts: JoinQueue) -> JoinQueue {
    JoinQueue {
        sale: SaleState { total_entries: (accounts.sale.total_entries + 1) as u32, ..accounts.sale },
        ..accounts
    }
}

/// Why joining the queue at time `now` is refused, as `join_queue_error`
/// gives it.
fn join_queue_check(accounts: &JoinQueue, now: i64) -> (r: Option<InstructionError>)
    ensures
        r == join_queue_error(*accounts, now),
{
    if accounts.event.status != EventStatus::Active {
        return Some(InstructionError::Event(EventError::EventNotActive));
    }
    if !accounts.event.hot_sale {
        return Some(InstructionError::Event(EventError::NotHotSale));
    }
    if !accounts.sale.event.same_as(&accounts.event_key) {
        return Some(InstructionError::Event(EventError::EntryMismatch));
    }
    if accounts.sale.settled {
        return Some(InstructionError::Event(EventError::RandomnessNotSettled));
    }
    if !(now >= accounts.sale.registration_start && now < accounts.sale.registration_end) {
        return Some(InstructionError::Event(EventError::RegistrationClosed));
    }
    None
}

/// Whether the queue has room for the entry that an accepted join at `now`
/// adds.
pub open spec fn join_queue_fits_spec(accounts: JoinQueue, now: i64) -> bool {
    join_queue_error(accounts, now) is None ==> accounts.sale.total_entries < u32::MAX
}

/// Tests whether `handle_join_queue` can run on these accounts at `now`
/// without its entry counter overflowing.
pub fn join_queue_fits(accounts: &JoinQueue, now: i64) -> (r: bool)
    ensures
        r == join_queue_fits_spec(*accounts, now),
{
    join_queue_check(accounts, now).is_some() || accounts.sale.total_entries < u32::MAX
}

/// Puts the buyer in the queue of a hot sale at time `now`, during
/// registration. The caller moves the entry's stake into the vault.
pub fn handle_join_queue(accounts: &mut JoinQueue, now: i64) -> (r: Result<
    (QueueEntry, QueueJoined),
    InstructionError,
>)
    requires
        join_queue_fits_spec(*old(accounts), now),
    ensures
        match join_queue_error(*old(accounts), now) {
            Some(e) => r == Err::<(QueueEntry, QueueJoined), InstructionError>(e) && *final(accounts)
                == *old(accounts),
            None => r == Ok::<(QueueEntry, QueueJoined), InstructionError>(
                (
                    joined_entry(*old(accounts)),
                    QueueJoined {
                        event: old(accounts).event_key,
                        buyer: old(accounts).buyer,
                        entry: old(accounts).entry_key,
                        position: old(accounts).sale.total_entries,
                        total_entries: (old(accounts).sale.total_entries + 1) as u32,
                    },
                ),
            ) && *final(accounts) == join_queue_applied(*old(accounts)),
        },
{
    if let Some(e) = join_queue_check(accounts, now) {
        return Err(e);
    }
    let position = accounts.sale.total_entries;
    accounts.sale.total_entries = position + 1;
    let entry = QueueEntry {
        event: accounts.event_key,
        buyer: accounts.buyer,
        position,
        stake_lamports: accounts.sale.stake_lamports,
        status: QueueStatus::Staked,
    };
    let log = QueueJoined {
        event: entry.event,
        buyer: entry.buyer,
        entry: accounts.entry_key,
        position,
        total_entries: accounts.sale.total_entries,
    };
    Ok((entry, log))
}

/// Queue places are handed out in order: two accepted joins in a row get
/// consecutive positions, the first one the number of entries before it, and
/// each join adds one pending entry.
pub proof fn lemma_join_queue_positions(first: JoinQueue, second_buyer: Pubkey, now: i64, later: i64)
    requires
        join_queue_error(first, now) is None,
        first.sale.total_entries < u32::MAX,
        join_queue_error(JoinQueue { buyer: second_buyer, ..join_queue_applied(first) }, later) is None,
    ensures
        joined_entry(first).position == first.sale.total_entries,
        joined_entry(JoinQueue { buyer: second_buyer, ..join_queue_applied(first) }).position
            == joined_entry(first).position + 1,
        first.sale.claimed + first.sale.settled_count + first.sale.forfeited_count
            <= first.sale.total_entries ==> join_queue_applied(first).sale.pending_spec()
            == first.sale.pending_spec() + 1,
{
}

/// The accounts and the entries created after a run of join requests, each
/// given as the buyer, the new entry's address and the time: a request that
/// `join_queue_error` refuses leaves the accounts as they were and creates no
/// entry, as `handle_join_queue` does.
pub open spec fn run_joins(start: JoinQueue, joins: Seq<(Pubkey, Pubkey, i64)>) -> (JoinQueue, Seq<QueueEntry>)
    decreases joins.len(),
{
    if joins.len() == 0 {
        (start, Seq::empty())
    } else {
        let (before, entries) = run_joins(start, joins.drop_last());
        let (buyer, entry_key, now) = joins.last();
        let accounts = JoinQueue { buyer, entry_key, ..before };
        if join_queue_error(accounts, now) is None {
            (join_queue_applied(accounts), entries.push(joined_entry(accounts)))
        } else {
            (before, entries)
        }
    }
}

/// Whatever run of join requests comes, the accepted ones get consecutive
/// positions in the order they came, starting from the number of entries the
/// queue already had, and the queue counts exactly the entries created.
pub proof fn lemma_join_run_positions(start: JoinQueue, joins: Seq<(Pubkey, Pubkey, i64)>)
    requires
        start.sale.total_entries + joins.len() <= u32::MAX,
    ensures
        run_joins(start, joins).1.len() <= joins.len(),
        run_joins(start, joins).0.sale.total_entries == start.sale.total_entries + run_joins(
            start,
            joins,
        ).1.len(),
        forall|i: int|
            0 <= i < run_joins(start, joins).1.len() ==> #[trigger] run_joins(start, joins).1[i].position
                == start.sale.total_entries + i,
    decreases joins.len(),
{
    if joins.len() > 0 {
        lemma_join_run_positions(start, joins.drop_last());
    }
}

/// A queue that `handle_configure_sale` created hands out the places
/// 0, 1, ..., n - 1, in order and each once, to the n joins it accepts,
/// whatever run of join requests comes, and then counts n entries.
pub proof fn lemma_configured_queue_positions(
    event_key: Pubkey,
    event: Event,
    params: SaleParams,
    bump: u8,
    joins: Seq<(Pubkey, Pubkey, i64)>,
)
    requires
        joins.len() <= u32::MAX,
    ensures
        ({
            let start = JoinQueue {
                buyer: event_key,
                event_key,
                event,
                sale: configured_sale(event_key, params, bump),
                entry_key: event_key,
            };
            let (after, entries) = run_joins(start, joins);
            &&& after.sale.total_entries == entries.len()
            &&& forall|i: int| 0 <= i < entries.len() ==> #[trigger] entries[i].position == i
            &&& forall|i: int, j: int|
                0 <= i < entries.len() && 0 <= j < entries.len() && i != j ==> entries[i].position
                    != entries[j].position
        }),
{
    let start = JoinQueue {
        buyer: event_key,
        event_key,
        event,
        sale: configured_sale(event_key, params, bump),
        entry_key: event_key,
    };
    lemma_join_run_positions(start, joins);
}

} // verus!
