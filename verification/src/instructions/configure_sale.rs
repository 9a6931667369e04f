use vstd::prelude::*;

use crate::error::{EventError, InstructionError};
use crate::logs::SaleConfigured;
use crate::state::{Event, EventStatus, Pubkey, SaleParams, SaleState};

verus! {

/// The accounts that configuring a hot sale reads.
pub struct ConfigureSale {
    /// The signer.
    pub organizer: Pubkey,
    /// The address of `event`.
    pub event_key: Pubkey,
    pub event: Event,
}

/// Why configuring a hot sale with `params` at time `now` is refused, in the
/// order the checks run; `None` when it is accepted.
pub open spec fn configure_sale_error(accounts: ConfigureSale, params: SaleParams, now: i64) -> Option<
    InstructionError,
> {
    if accounts.event.organizer@ != accounts.organizer@ {
        Some(InstructionError::ConstraintHasOne)
    } else if accounts.event.status != EventStatus::Active {
        Some(InstructionError::Event(EventError::EventNotActive))
    } else if !accounts.event.hot_sale {
        Some(InstructionError::Event(EventError::NotHotSale))
    } else if !params.phases_valid(now) {
        Some(InstructionError::Event(EventError::InvalidSalePhases))
    } else {
        None
    }
}

/// The sale state that an accepted configuration starts from: the phases of
/// `params`, an empty queue, nothing revealed.
pub open spec fn configured_sale(event_key: Pubkey, params: SaleParams, bump: u8) -> SaleState {
    SaleState {
        event: event_key,
        registration_start: params.registration_start,
        registration_end: params.registration_end,
        reveal_at: params.reveal_at,
        claim_start: params.claim_start,
        round_duration_secs: params.round_duration_secs,
        stake_lamports: params.stake_lamports,
        window_size: params.window_size,
        total_entries: 0,
        randomness: 0,
        settled: false,
        claimed: 0,
        settled_count: 0,
        forfeited_count: 0,
        bump,
    }
}

/// Sets up the hot sale of an active hot-sale event at time `now`; only its
/// organizer may. `bump` is the bump seed of the sale's address.
pub fn handle_configure_sale(accounts: &ConfigureSale, params: &SaleParams, now: i64, bump: u8) -> (r:
    Result<(SaleState, SaleConfigured), InstructionError>)
    ensures
        r == (match configure_sale_error(*accounts, *params, now) {
            Some(e) => Err(e),
            None => Ok(
                (
                    configured_sale(accounts.event_key, *params, bump),
                    SaleConfigured {
                        event: accounts.event_key,
                        stake_lamports: params.stake_lamports,
                        window_size: params.window_size,
                        round_duration_secs: params.round_duration_secs,
                    },
                ),
            ),
        }),
        r matches Ok((sale, _)) ==> sale.pending_spec() == 0,
{
    if !accounts.event.organizer.same_as(&accounts.organizer) {
        return Err(InstructionError::ConstraintHasOne);
    }
    if accounts.event.status != EventStatus::Active {
        return Err(InstructionError::Event(EventError::EventNotActive));
    }
    if !accounts.event.hot_sale {
        return Err(InstructionError::Event(EventError::NotHotSale));
    }
    match params.validate(now) {
        Ok(()) => {},
        Err(e) => {
            return Err(InstructionError::Event(e));
        },
    }
    let sale = SaleState {
            event: accounts.event_key,
            registration_start: params.registration_start,
            registration_end: params.registration_end,
            reveal_at: params.reveal_at,
            claim_start: params.claim_start,
            round_duration_secs: params.round_duration_secs,
            stake_lamports: params.stake_lamports,
            window_size: params.window_size,
            total_entries: 0,
            randomness: 0,
            settled: false,
            claimed: 0,
            settled_count: 0,
            forfeited_count: 0,
            bump,
        };
    let log = SaleConfigured {
        event: sale.event,
        stake_lamports: sale.stake_lamports,
        window_size: sale.window_size,
        round_duration_secs: sale.round_duration_secs,
    };
    Ok((sale, log))
}

} // verus!
