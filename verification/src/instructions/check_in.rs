use vstd::prelude::*;

use crate::constants::{CHECK_IN_GRACE_AFTER_END_SECS, CHECK_IN_OPEN_BEFORE_START_SECS};
use crate::error::{EventError, InstructionError};
use crate::logs::TicketCheckedIn;
use crate::state::{Event, EventStatus, Pubkey, Ticket, TicketStatus};

verus! {

/// The accounts that checking a ticket in reads and writes.
pub struct CheckIn {
    /// The signer.
    pub organizer: Pubkey,
    /// The address of `event`.
    pub event_key: Pubkey,
    pub event: Event,
    /// The address of `ticket`.
    pub ticket_key: Pubkey,
    pub ticket: Ticket,
}

/// Why a check-in at time `now` is refused, in the order the checks run;
/// `None` when it is accepted. Check-in is open from
/// `CHECK_IN_OPEN_BEFORE_START_SECS` before the start until
/// `CHECK_IN_GRACE_AFTER_END_SECS` after the end.
pub open spec fn check_in_error(accounts: CheckIn, now: i64) -> Option<InstructionError> {
    if accounts.event.organizer@ != accounts.organizer@ {
        Some(InstructionError::ConstraintHasOne)
    } else if accounts.ticket.event@ != accounts.event_key@ {
        Some(InstructionError::Event(EventError::TicketEventMismatch))
    } else if accounts.ticket.status != TicketStatus::Valid {
        Some(InstructionError::Event(EventError::TicketAlreadyUsed))
    } else if !(now >= accounts.event.starts_at - CHECK_IN_OPEN_BEFORE_START_SECS) {
        Some(InstructionError::Event(EventError::CheckInNotOpen))
    } else if !(now <= accounts.event.ends_at + CHECK_IN_GRACE_AFTER_END_SECS) {
        Some(InstructionError::Event(EventError::CheckInClosed))
    } else if accounts.event.status != EventStatus::Active {
        Some(InstructionError::Event(EventError::EventNotActive))
    } else {
        None
    }
}

/// Whether a check-in gets past the organizer and ticket checks to the test of
/// the check-in window.
pub open spec fn check_in_reaches_window(accounts: CheckIn) -> bool {
    &&& accounts.event.organizer@ == accounts.organizer@
    &&& accounts.ticket.event@ == accounts.event_key@
    &&& accounts.ticket.status == TicketStatus::Valid
}

/// Whether the times a check-in at `now` computes fit in an `i64`: the opening
/// time once the organizer and ticket checks pass, and the closing time once
/// the check-in is also open.
pub open spec fn check_in_fits_spec(accounts: CheckIn, now: i64) -> bool {
    &&& check_in_reaches_window(accounts) ==> accounts.event.starts_at
        - CHECK_IN_OPEN_BEFORE_START_SECS >= i64::MIN
    &&& check_in_reaches_window(accounts) && now >= accounts.event.starts_at
        - CHECK_IN_OPEN_BEFORE_START_SECS ==> accounts.event.ends_at + CHECK_IN_GRACE_AFTER_END_SECS
        <= i64::MAX
}

/// Tests whether `handle_check_in` can run on these accounts at `now` without
/// its times overflowing.
pub fn check_in_fits(accounts: &CheckIn, now: i64) -> (r: bool)
    ensures
        r == check_in_fits_spec(*accounts, now),
{
    if !accounts.event.organizer.same_as(&accounts.organizer) || !accounts.ticket.event.same_as(
        &accounts.event_key,
    ) || accounts.ticket.status != TicketStatus::Valid {
        return true;
    }
    let opens: i128 = accounts.event.starts_at as i128 - CHECK_IN_OPEN_BEFORE_START_SECS as i128;
    if opens < i64::MIN as i128 {
        return false;
    }
    if (now as i128) < opens {
        return true;
    }
    accounts.event.ends_at as i128 + CHECK_IN_GRACE_AFTER_END_SECS as i128 <= i64::MAX as i128
}

/// The accounts after an accepted check-in at `now`: the ticket is used, and
/// records when.
pub open spec fn check_in_applied(accounts: CheckIn, now: i64) -> CheckIn {
    CheckIn {
        ticket: Ticket { status: TicketStatus::Used, checked_in_at: now, ..accounts.ticket },
        ..accounts
    }
}

/// Checks a valid ticket in at the door at time `now`; only the event's
/// organizer may.
pub fn handle_check_in(accounts: &mut CheckIn, now: i64) -> (r: Result<TicketCheckedIn, InstructionError>)
    requires
        check_in_fits_spec(*old(accounts), now),
    ensures
        match check_in_error(*old(accounts), now) {
            Some(e) => r == Err::<TicketCheckedIn, InstructionError>(e) && *final(accounts) == *old(
                accounts,
            ),
            None => r == Ok::<TicketCheckedIn, InstructionError>(
                TicketCheckedIn {
                    event: old(accounts).event_key,
                    ticket: old(accounts).ticket_key,
                    buyer: old(accounts).ticket.buyer,
                    checked_in_at: now,
                },
            ) && *final(accounts) == check_in_applied(*old(accounts), now),
        },
{
    if !accounts.event.organizer.same_as(&accounts.organizer) {
        return Err(InstructionError::ConstraintHasOne);
    }
    if !accounts.ticket.event.same_as(&accounts.event_key) {
        return Err(InstructionError::Event(EventError::TicketEventMismatch));
    }
    if accounts.ticket.status != TicketStatus::Valid {
        return Err(InstructionError::Event(EventError::TicketAlreadyUsed));
    }
    if !(now >= accounts.event.starts_at - CHECK_IN_OPEN_BEFORE_START_SECS) {
        return Err(InstructionError::Event(EventError::CheckInNotOpen));
    }
    if !(now <= accounts.event.ends_at + CHECK_IN_GRACE_AFTER_END_SECS) {
        return Err(InstructionError::Event(EventError::CheckInClosed));
    }
    if accounts.event.status != EventStatus::Active {
        return Err(InstructionError::Event(EventError::EventNotActive));
    }
    accounts.ticket.status = TicketStatus::Used;
    accounts.ticket.checked_in_at = now;
    Ok(
        TicketCheckedIn {
            event: accounts.event_key,
            ticket: accounts.ticket_key,
            buyer: accounts.ticket.buyer,
            checked_in_at: now,
        },
    )
}

/// A ticket gets in once: after an accepted check-in, every later check-in of
/// the same ticket, at any time, is refused as already used.
pub proof fn lemma_check_in_once(accounts: CheckIn, now: i64, later: i64)
    requires
        check_in_error(accounts, now) is None,
    ensures
        check_in_error(check_in_applied(accounts, now), later) == Some(
            InstructionError::Event(EventError::TicketAlreadyUsed),
        ),
{
}

} // verus!
