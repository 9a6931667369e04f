use vstd::prelude::*;

use crate::error::EventError;
use crate::logs::EventCreated;
use crate::state::{Event, EventParams, EventStatus, Pubkey};
use crate::text::{slug_is_valid, validate_slug};

verus! {

/// Why creating the event `slug` with `params` at time `now` is refused: a
/// bad slug first, then the first bad field; `None` when it is accepted.
pub open spec fn init_event_error(slug: &str, params: EventParams, now: i64) -> Option<EventError> {
    if !slug_is_valid(slug) {
        Some(EventError::InvalidSlug)
    } else {
        params.first_error(now)
    }
}

/// Creates the event `slug` of `organizer`, at address `event_key`, from
/// `params` at time `now`: it is active, with no tickets sold.
pub fn handle_init_event(
    organizer: &Pubkey,
    event_key: &Pubkey,
    slug: &str,
    params: &EventParams,
    now: i64,
) -> (r: Result<(Event, EventCreated), EventError>)
    ensures
        match init_event_error(slug, *params, now) {
            Some(e) => r == Err::<(Event, EventCreated), EventError>(e),
            None => r matches Ok((event, log)) && {
                &&& event.organizer == *organizer
                &&& event.slug@ == slug@
                &&& event.title == params.title
                &&& event.description == params.description
                &&& event.venue == params.venue
                &&& event.city == params.city
                &&& event.image_uri == params.image_uri
                &&& event.starts_at == params.starts_at
                &&& event.ends_at == params.ends_at
                &&& event.ticket_price_lamports == params.ticket_price_lamports
                &&& event.capacity == params.capacity
                &&& event.tickets_sold == 0
                &&& event.hot_sale == params.hot_sale
                &&& event.status == EventStatus::Active
                &&& event.well_formed()
                &&& log == EventCreated {
                    event: *event_key,
                    organizer: *organizer,
                    slug: event.slug,
                    title: params.title,
                    city: params.city,
                    starts_at: params.starts_at,
                    ends_at: params.ends_at,
                    ticket_price_lamports: params.ticket_price_lamports,
                    capacity: params.capacity,
                    hot_sale: params.hot_sale,
                }
            },
        },
{
    match validate_slug(slug) {
        Ok(()) => {},
        Err(e) => {
            return Err(e);
        },
    }
    match params.validate(now) {
        Ok(()) => {},
        Err(e) => {
            return Err(e);
        },
    }
    let event = Event {
            organizer: *organizer,
            slug: String::from_str(slug),
            title: params.title.clone(),
            description: params.description.clone(),
            venue: params.venue.clone(),
            city: params.city.clone(),
            image_uri: params.image_uri.clone(),
            starts_at: params.starts_at,
            ends_at: params.ends_at,
            ticket_price_lamports: params.ticket_price_lamports,
            capacity: params.capacity,
            tickets_sold: 0,
            hot_sale: params.hot_sale,
            status: EventStatus::Active,
        };
    let log = EventCreated {
        event: *event_key,
        organizer: *organizer,
        slug: event.slug.clone(),
        title: params.title.clone(),
        city: params.city.clone(),
        starts_at: params.starts_at,
        ends_at: params.ends_at,
        ticket_price_lamports: params.ticket_price_lamports,
        capacity: params.capacity,
        hot_sale: params.hot_sale,
    };
    Ok((event, log))
}

} // verus!
