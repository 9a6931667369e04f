use vstd::prelude::*;

use crate::error::InstructionError;
use crate::logs::EventCancelled;
use crate::state::{Event, EventStatus, Pubkey};

verus! {

/// The accounts that cancelling an event reads and writes.
pub struct CancelEvent {
    /// The signer.
    pub organizer: Pubkey,
    /// The address of `event`.
    pub event_key: Pubkey,
    pub event: Event,
}

/// Why cancelling is refused, in the order the checks run; `None` when it is
/// accepted.
pub open spec fn cancel_event_error(accounts: CancelEvent) -> Option<InstructionError> {
    if accounts.event.organizer@ != accounts.organizer@ {
        Some(InstructionError::ConstraintHasOne)
    } else if accounts.event.status != EventStatus::Active {
        Some(InstructionError::ConstraintRaw)
    } else {
        None
    }
}

/// The accounts after an accepted cancellation: the event is cancelled and
/// nothing else changes.
pub open spec fn cancel_event_applied(accounts: CancelEvent) -> CancelEvent {
    CancelEvent { event: Event { status: EventStatus::Cancelled, ..accounts.event }, ..accounts }
}

/// Cancels an active event; only its organizer may.
pub fn handle_cancel_event(accounts: &mut CancelEvent) -> (r: Result<EventCancelled, InstructionError>)
    ensures
        match cancel_event_error(*old(accounts)) {
            Some(e) => r == Err::<EventCancelled, InstructionError>(e) && *final(accounts) == *old(
                accounts,
            ),
            None => r == Ok::<EventCancelled, InstructionError>(
                EventCancelled { event: old(accounts).event_key },
            ) && *final(accounts) == cancel_event_applied(*old(accounts)),
        },
        r is Ok ==> (old(accounts).event.well_formed() ==> final(accounts).event.well_formed()),
{
    if !accounts.event.organizer.same_as(&accounts.organizer) {
        return Err(InstructionError::ConstraintHasOne);
    }
    if accounts.event.status != EventStatus::Active {
        return Err(InstructionError::ConstraintRaw);
    }
    accounts.event.status = EventStatus::Cancelled;
    Ok(EventCancelled { event: accounts.event_key })
}

/// An event is cancelled at most once: once a cancellation is accepted, the
/// next one is refused.
pub proof fn lemma_cancel_event_once(accounts: CancelEvent)
    requires
        cancel_event_error(accounts) is None,
    ensures
        cancel_event_error(cancel_event_applied(accounts)) == Some(InstructionError::ConstraintRaw),
{
}

} // verus!
