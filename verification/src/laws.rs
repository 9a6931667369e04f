use vstd::prelude::*;

use crate::error::{EventError, InstructionError};
use crate::instructions::buy_ticket::{buy_ticket_error, BuyTicket};
use crate::instructions::cancel_event::{cancel_event_applied, cancel_event_error, CancelEvent};
use crate::instructions::join_queue::{join_queue_error, JoinQueue};
use crate::instructions::update_event::{
    keeps_sale_terms, update_event_error, updated_event, UpdateEvent,
};
use crate::instructions::withdraw::{withdraw_error, Withdraw};
use crate::state::{Event, EventParams};

verus! {

/// A cancelled event sells no more tickets: once a cancellation is accepted,
/// every purchase is refused as the event not being active.
pub proof fn lemma_cancelled_event_sells_nothing(
    cancel: CancelEvent,
    buy: BuyTicket,
    now: i64,
    expected_ata: Option<Seq<u8>>,
)
    requires
        cancel_event_error(cancel) is None,
        buy.event == cancel_applied_event(cancel),
    ensures
        buy_ticket_error(buy, now, expected_ata) == Some(
            InstructionError::Event(EventError::EventNotActive),
        ),
{
}

/// A cancelled event can no longer be edited, even by its organizer.
pub proof fn lemma_cancelled_event_is_frozen(
    cancel: CancelEvent,
    update: UpdateEvent,
    params: EventParams,
    now: i64,
)
    requires
        cancel_event_error(cancel) is None,
        update.event == cancel_applied_event(cancel),
        update.organizer == cancel.organizer,
    ensures
        update_event_error(update, params, now) == Some(
            InstructionError::Event(EventError::EventNotActive),
        ),
{
}

/// A cancelled event takes no more queue entries.
pub proof fn lemma_cancelled_event_closes_queue(cancel: CancelEvent, join: JoinQueue, now: i64)
    requires
        cancel_event_error(cancel) is None,
        join.event == cancel_applied_event(cancel),
    ensures
        join_queue_error(join, now) == Some(InstructionError::Event(EventError::EventNotActive)),
{
}

/// Once an event is cancelled, its organizer need not wait for its end to
/// take the vault's lamports back: a withdrawal that keeps the rent and
/// leaves no stake pending is accepted at any time.
pub proof fn lemma_cancelled_event_releases_vault(
    cancel: CancelEvent,
    withdraw: Withdraw,
    amount: u64,
    now: i64,
    vault_lamports: u64,
    rent_min: u64,
)
    requires
        cancel_event_error(cancel) is None,
        withdraw.event == cancel_applied_event(cancel),
        withdraw.organizer == cancel.organizer,
        withdraw.sale is Some ==> withdraw.sale->0.pending_spec() == 0,
        0 < amount,
        amount + rent_min <= vault_lamports,
    ensures
        withdraw_error(withdraw, amount, now, vault_lamports, rent_min) is None,
{
}

/// Once a hot sale is configured, an accepted update leaves its terms as
/// they were: the price, the capacity, the dates and the hot-sale flag.
pub proof fn lemma_sale_terms_locked(update: UpdateEvent, params: EventParams, now: i64)
    requires
        update.sale is Some,
        update_event_error(update, params, now) is None,
    ensures
        keeps_sale_terms(update.event, params),
        updated_event(update.event, params).ticket_price_lamports == update.event.ticket_price_lamports,
        updated_event(update.event, params).capacity == update.event.capacity,
        updated_event(update.event, params).starts_at == update.event.starts_at,
        updated_event(update.event, params).ends_at == update.event.ends_at,
        updated_event(update.event, params).hot_sale == update.event.hot_sale,
{
}

/// The event as an accepted cancellation leaves it.
pub open spec fn cancel_applied_event(cancel: CancelEvent) -> Event {
    cancel_event_applied(cancel).event
}

} // verus!
