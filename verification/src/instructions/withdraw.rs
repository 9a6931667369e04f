use vstd::prelude::*;

use crate::error::{EventError, InstructionError};
use crate::logs::FundsWithdrawn;
use crate::state::{Event, EventStatus, Pubkey, SaleState};

verus! {

/// The accounts that a withdrawal from an event's vault reads.
pub struct Withdraw {
    /// The signer, and the receiver of the lamports.
    pub organizer: Pubkey,
    /// The address of `event`.
    pub event_key: Pubkey,
    pub event: Event,
    /// The event's hot-sale state, if a sale was configured.
    pub sale: Option<SaleState>,
}

/// Why withdrawing `amount` lamports at time `now` is refused, in the order
/// the checks run, when the vault holds `vault_lamports` and must keep
/// `rent_min` to stay rent-exempt; `None` when it is accepted.
pub open spec fn withdraw_error(
    accounts: Withdraw,
    amount: u64,
    now: i64,
    vault_lamports: u64,
    rent_min: u64,
) -> Option<InstructionError> {
    if accounts.event.organizer@ != accounts.organizer@ {
        Some(InstructionError::ConstraintHasOne)
    } else if !(accounts.event.status == EventStatus::Cancelled || now > accounts.event.ends_at) {
        Some(InstructionError::Event(EventError::EventNotEnded))
    } else if accounts.sale is Some && accounts.sale->0.pending_spec() > 0 {
        Some(InstructionError::Event(EventError::StakesPending))
    } else if !(amount > 0 && amount + rent_min <= vault_lamports) {
        Some(InstructionError::Event(EventError::InvalidAmount))
    } else {
        None
    }
}

/// Decides whether the organizer may take `amount` lamports out of the
/// event's vault at time `now`: only once the event has ended or was
/// cancelled, only once every stake of its hot sale is settled, never zero,
/// and never so much that the vault drops below `rent_min`.
pub fn handle_withdraw(
    accounts: &Withdraw,
    amount: u64,
    now: i64,
    vault_lamports: u64,
    rent_min: u64,
) -> (r: Result<FundsWithdrawn, InstructionError>)
    ensures
        r == (match withdraw_error(*accounts, amount, now, vault_lamports, rent_min) {
            Some(e) => Err(e),
            None => Ok(
                FundsWithdrawn { event: accounts.event_key, organizer: accounts.organizer, amount },
            ),
        }),
        r is Ok ==> vault_lamports - amount >= rent_min,
{
    if !accounts.event.organizer.same_as(&accounts.organizer) {
        return Err(InstructionError::ConstraintHasOne);
    }
    if !(accounts.event.status == EventStatus::Cancelled || now > accounts.event.ends_at) {
        return Err(InstructionError::Event(EventError::EventNotEnded));
    }
    match &accounts.sale {
        Some(sale) => {
            if sale.pending() > 0 {
                return Err(InstructionError::Event(EventError::StakesPending));
            }
        },
        None => {},
    }
    if !(amount > 0 && amount <= vault_lamports.saturating_sub(rent_min)) {
        return Err(InstructionError::Event(EventError::InvalidAmount));
    }
    Ok(FundsWithdrawn { event: accounts.event_key, organizer: accounts.organizer, amount })
}

} // verus!
