use vstd::prelude::*;

use crate::error::{EventError, InstructionError};
use crate::logs::EventUpdated;
use crate::state::{Event, EventParams, EventStatus, Pubkey, SaleState};

verus! {

/// The accounts that updating an event reads and writes.
pub struct UpdateEvent {
    /// The signer.
    pub organizer: Pubkey,
    /// The address of `event`.
    pub event_key: Pubkey,
    pub event: Event,
    /// The event's hot-sale state, once a sale is configured.
    pub sale: Option<SaleState>,
}

/// Whether `params` keeps what a configured hot sale was set up against:
/// the price, the capacity, the dates and the hot-sale flag.
pub open spec fn keeps_sale_terms(event: Event, params: EventParams) -> bool {
    &&& params.ticket_price_lamports == event.ticket_price_lamports
    &&& params.capacity == event.capacity
    &&& params.starts_at == event.starts_at
    &&& params.ends_at == event.ends_at
    &&& params.hot_sale == event.hot_sale
}

/// Why an update at time `now` is refused, in the order the checks run;
/// `None` when it is accepted.
pub open spec fn update_event_error(accounts: UpdateEvent, params: EventParams, now: i64) -> Option<
    InstructionError,
> {
    if accounts.event.organizer@ != accounts.organizer@ {
        Some(InstructionError::ConstraintHasOne)
    } else if accounts.event.status != EventStatus::Active {
        Some(InstructionError::Event(EventError::EventNotActive))
    } else if params.first_error(now) is Some {
        Some(InstructionError::Event(params.first_error(now)->0))
    } else if params.capacity < accounts.event.tickets_sold {
        Some(InstructionError::Event(EventError::CapacityBelowSold))
    } else if accounts.sale is Some && !keeps_sale_terms(accounts.event, params) {
        Some(InstructionError::Event(EventError::SaleParamsLocked))
    } else {
        None
    }
}

/// The event with the organizer's fields taken from `params`.
pub open spec fn updated_event(event: Event, params: EventParams) -> Event {
    Event {
        title: params.title,
        description: params.description,
        venue: params.venue,
        city: params.city,
        image_uri: params.image_uri,
        starts_at: params.starts_at,
        ends_at: params.ends_at,
        ticket_price_lamports: params.ticket_price_lamports,
        capacity: params.capacity,
        hot_sale: params.hot_sale,
        ..event
    }
}

fn same_sale_terms(event: &Event, params: &EventParams) -> (r: bool)
    ensures
        r == keeps_sale_terms(*event, *params),
{
    params.ticket_price_lamports == event.ticket_price_lamports && params.capacity == event.capacity
        && params.starts_at == event.starts_at && params.ends_at == event.ends_at && params.hot_sale
        == event.hot_sale
}

/// Replaces the organizer's fields of an active event at time `now`; only its
/// organizer may. Once a hot sale is configured, its terms stay as they are.
pub fn handle_update_event(accounts: &mut UpdateEvent, params: &EventParams, now: i64) -> (r: Result<
    EventUpdated,
    InstructionError,
>)
    ensures
        match update_event_error(*old(accounts), *params, now) {
            Some(e) => r == Err::<EventUpdated, InstructionError>(e) && *final(accounts) == *old(
                accounts,
            ),
            None => r == Ok::<EventUpdated, InstructionError>(
                EventUpdated {
                    event: old(accounts).event_key,
                    title: params.title,
                    starts_at: params.starts_at,
                    ends_at: params.ends_at,
                    ticket_price_lamports: params.ticket_price_lamports,
                    capacity: params.capacity,
                },
            ) && *final(accounts) == UpdateEvent {
                event: updated_event(old(accounts).event, *params),
                ..*old(accounts)
            },
        },
        r is Ok ==> final(accounts).event.well_formed(),
{
    if !accounts.event.organizer.same_as(&accounts.organizer) {
        return Err(InstructionError::ConstraintHasOne);
    }
    if accounts.event.status != EventStatus::Active {
        return Err(InstructionError::Event(EventError::EventNotActive));
    }
    match params.validate(now) {
        Ok(()) => {},
        Err(e) => {
            return Err(InstructionError::Event(e));
        },
    }
    if params.capacity < accounts.event.tickets_sold {
        return Err(InstructionError::Event(EventError::CapacityBelowSold));
    }
    if accounts.sale.is_some() && !same_sale_terms(&accounts.event, params) {
        return Err(InstructionError::Event(EventError::SaleParamsLocked));
    }
    accounts.event.title = params.title.clone();
    accounts.event.description = params.description.clone();
    accounts.event.venue = params.venue.clone();
    accounts.event.city = params.city.clone();
    accounts.event.image_uri = params.image_uri.clone();
    accounts.event.starts_at = params.starts_at;
    accounts.event.ends_at = params.ends_at;
    accounts.event.ticket_price_lamports = params.ticket_price_lamports;
    accounts.event.capacity = params.capacity;
    accounts.event.hot_sale = params.hot_sale;
    Ok(
        EventUpdated {
            event: accounts.event_key,
            title: params.title.clone(),
            starts_at: params.starts_at,
            ends_at: params.ends_at,
            ticket_price_lamports: params.ticket_price_lamports,
            capacity: params.capacity,
        },
    )
}

} // verus!
