use vstd::arithmetic::div_mod::{lemma_mod_pos_bound, lemma_small_mod};
use vstd::bytes::{lemma_auto_spec_u64_to_from_le_bytes, spec_u64_from_le_bytes, spec_u64_to_le_bytes};
use vstd::prelude::*;
use vstd::string::StringSliceAdditionalSpecFns;
use vstd::utf8::{encode_scalar, encode_utf8};

use crate::error::{EventError, InstructionError};
use crate::instructions::buy_ticket::{
    buy_ticket_applied, buy_ticket_error, in_claim_round, ticket_payment, BuyTicket,
};
use crate::instructions::cancel_event::{cancel_event_applied, cancel_event_error, CancelEvent};
use crate::instructions::check_in::{check_in_applied, check_in_error, CheckIn};
use crate::instructions::configure_sale::{configure_sale_error, configured_sale, ConfigureSale};
use crate::instructions::join_queue::{join_queue_error, joined_entry, JoinQueue};
use crate::instructions::settle_randomness::{
    revealed_randomness, settle_randomness_applied, settle_randomness_error, slot_hashes_sysvar_bytes,
    SettleRandomness,
};
use crate::instructions::settle_stake::{
    claim_round_end, settle_stake_applied, settle_stake_error, SettleStake,
};
use crate::instructions::update_event::updated_event;
use crate::instructions::withdraw::{withdraw_error, Withdraw};
use crate::state::{
    effective_position_spec, round_of_spec, round_start_spec, sat_mul_u64, Event, EventParams,
    EventStatus, QueueEntry, QueueStatus, SaleParams, SaleState, TicketStatus,
};
use crate::text::{byte_len, slug_is_valid};

verus! {

/// A text is empty exactly when its UTF-8 encoding is.
pub proof fn lemma_byte_len_positive(s: Seq<char>)
    ensures
        byte_len(s) > 0 <==> s.len() > 0,
{
    if s.len() > 0 {
        assert(encode_scalar(s[0] as u32).len() >= 1);
        assert(encode_utf8(s) == encode_scalar(s[0] as u32) + encode_utf8(s.drop_first()));
    } else {
        assert(encode_utf8(s) =~= Seq::<u8>::empty());
    }
}

/// The claim place of an entry at `position` in a queue of `total` entries
/// is the whole 64-bit `randomness` taken modulo `total`, plus the position:
/// the position shifted by the randomness. (The sum is less than `2 * total`;
/// it is exact whenever it fits in 32 bits, as it does for every queue of up
/// to 2^31 entries.)
pub proof fn lemma_effective_position_shifts(randomness: u64, total: u32, position: u32)
    requires
        total > 0,
        position < total,
    ensures
        randomness % (total as u64) + position <= u32::MAX ==> effective_position_spec(
            randomness,
            total,
            position,
        ) == randomness % (total as u64) + position,
        total <= 0x8000_0000u32 ==> effective_position_spec(randomness, total, position)
            == randomness % (total as u64) + position,
{
    lemma_small_mod(position as nat, total as nat);
    lemma_mod_pos_bound(randomness as int, total as int);
}

/// An entry of a revealed queue is admitted exactly during its claim round
/// `k = (randomness mod total + position) / window_size`: from
/// `claim_start + k * round_duration_secs` until just before
/// `claim_start + (k + 1) * round_duration_secs`, where those times fit.
pub proof fn lemma_claim_round_window(sale: SaleState, entry: QueueEntry, now: i64)
    requires
        sale.total_entries > 0,
        entry.position < sale.total_entries,
        sale.window_size > 0,
        sale.round_duration_secs >= 0,
        sale.randomness % (sale.total_entries as u64) + entry.position <= u32::MAX,
        ((sale.randomness % (sale.total_entries as u64) + entry.position) / (sale.window_size as int)
            + 1) * sale.round_duration_secs <= i64::MAX,
        sale.claim_start + ((sale.randomness % (sale.total_entries as u64) + entry.position) / (
        sale.window_size as int) + 1) * sale.round_duration_secs <= i64::MAX,
    ensures
        ({
            let k = (sale.randomness % (sale.total_entries as u64) + entry.position) / (
            sale.window_size as int);
            in_claim_round(sale, entry, now) <==> (sale.claim_start + k * sale.round_duration_secs
                <= now && now < sale.claim_start + (k + 1) * sale.round_duration_secs)
        }),
{
    lemma_effective_position_shifts(sale.randomness, sale.total_entries, entry.position);
    let eff = effective_position_spec(sale.randomness, sale.total_entries, entry.position);
    let w = sale.window_size;
    let d = sale.round_duration_secs;
    let k = (sale.randomness % (sale.total_entries as u64) + entry.position) / (w as int);
    assert(eff == sale.randomness % (sale.total_entries as u64) + entry.position);
    assert(round_of_spec(w, eff) == k);
    assert(0 <= k);
    assert((k + 1) * d == k * d + d) by (nonlinear_arith);
    assert(0 <= k * d) by (nonlinear_arith)
        requires
            0 <= k,
            0 <= d,
    ;
    let round = round_of_spec(w, eff);
    assert(sat_mul_u64(round, d as u64) == k * d);
    assert(round_start_spec(sale.claim_start, d, round) == sale.claim_start + k * d);
    assert(sale.round_bounds_spec(round).1 == sale.claim_start + (k + 1) * d);
}

/// A staked entry of a hot sale, settled for its own buyer, is settled
/// exactly once the sale is over: the event cancelled, started or sold out;
/// before that the request is refused as too early. A cancelled or sold-out
/// event refunds the stake at any time, and counts it as settled.
pub proof fn lemma_settle_stake_when_over(accounts: SettleStake, now: i64)
    requires
        accounts.event.hot_sale,
        accounts.sale.event@ == accounts.event_key@,
        accounts.entry.event@ == accounts.event_key@,
        accounts.entry.buyer@ == accounts.entry_buyer@,
        accounts.entry.status == QueueStatus::Staked,
    ensures
        settle_stake_error(accounts, now) is None <==> (accounts.event.status
            == EventStatus::Cancelled || now >= accounts.event.starts_at
            || accounts.event.tickets_sold == accounts.event.capacity),
        settle_stake_error(accounts, now) is Some ==> settle_stake_error(accounts, now) == Some(
            InstructionError::Event(EventError::SettleTooEarly),
        ),
        accounts.event.status == EventStatus::Cancelled || accounts.event.tickets_sold
            == accounts.event.capacity ==> settle_stake_applied(accounts, now).entry.status
            == QueueStatus::Settled && settle_stake_applied(accounts, now).sale.forfeited_count
            == accounts.sale.forfeited_count && (accounts.sale.settled_count < u32::MAX
            ==> settle_stake_applied(accounts, now).sale.settled_count == accounts.sale.settled_count
            + 1),
{
}

/// An event that was not cancelled keeps its vault locked until it has
/// ended: every withdrawal by its organizer at a time up to `ends_at` is
/// refused as the event not having ended. A withdrawal is accepted exactly
/// when the organizer asks for it, the event was cancelled or has ended, no
/// stake of its hot sale is pending, and the amount is positive and leaves
/// at least `rent_min` in the vault.
pub proof fn lemma_withdraw_accepted_exactly(
    accounts: Withdraw,
    amount: u64,
    now: i64,
    vault_lamports: u64,
    rent_min: u64,
)
    ensures
        accounts.event.organizer@ == accounts.organizer@ && accounts.event.status
            != EventStatus::Cancelled && now <= accounts.event.ends_at ==> withdraw_error(
            accounts,
            amount,
            now,
            vault_lamports,
            rent_min,
        ) == Some(InstructionError::Event(EventError::EventNotEnded)),
        withdraw_error(accounts, amount, now, vault_lamports, rent_min) is None <==> (
        accounts.event.organizer@ == accounts.organizer@ && (accounts.event.status
            == EventStatus::Cancelled || now > accounts.event.ends_at) && (accounts.sale is Some
            ==> accounts.sale->0.pending_spec() == 0) && amount > 0 && amount + rent_min
            <= vault_lamports),
{
}

/// An accepted update stores every field the organizer chose as given, and
/// leaves the rest of the event (organizer, slug, tickets sold, status) as
/// it was.
pub proof fn lemma_update_stores_params(event: Event, params: EventParams)
    ensures
        updated_event(event, params).title == params.title,
        updated_event(event, params).description == params.description,
        updated_event(event, params).venue == params.venue,
        updated_event(event, params).city == params.city,
        updated_event(event, params).image_uri == params.image_uri,
        updated_event(event, params).starts_at == params.starts_at,
        updated_event(event, params).ends_at == params.ends_at,
        updated_event(event, params).ticket_price_lamports == params.ticket_price_lamports,
        updated_event(event, params).capacity == params.capacity,
        updated_event(event, params).hot_sale == params.hot_sale,
        updated_event(event, params).organizer == event.organizer,
        updated_event(event, params).slug == event.slug,
        updated_event(event, params).tickets_sold == event.tickets_sold,
        updated_event(event, params).status == event.status,
{
}

/// The fields of an event are accepted at time `now` exactly when the title
/// has 1 to 64 bytes, the description at most 512, the venue 1 to 64, the
/// city 1 to 32 and the image URI at most 128, the start lies after `now`,
/// the end after the start, and there is room for a ticket. A field within
/// its bounds is never the reason for a refusal.
pub proof fn lemma_event_params_bounds(params: EventParams, now: i64)
    ensures
        params.first_error(now) is None <==> (1 <= byte_len(params.title@) <= 64 && byte_len(
            params.description@,
        ) <= 512 && 1 <= byte_len(params.venue@) <= 64 && 1 <= byte_len(params.city@) <= 32
            && byte_len(params.image_uri@) <= 128 && params.starts_at > now && params.ends_at
            > params.starts_at && params.capacity >= 1),
        1 <= byte_len(params.title@) <= 64 ==> params.first_error(now) != Some(
            EventError::InvalidTitle,
        ),
        byte_len(params.description@) <= 512 ==> params.first_error(now) != Some(
            EventError::InvalidDescription,
        ),
        1 <= byte_len(params.venue@) <= 64 ==> params.first_error(now) != Some(
            EventError::InvalidVenue,
        ),
        1 <= byte_len(params.city@) <= 32 ==> params.first_error(now) != Some(
            EventError::InvalidCity,
        ),
        byte_len(params.image_uri@) <= 128 ==> params.first_error(now) != Some(
            EventError::InvalidImageUri,
        ),
        params.starts_at > now ==> params.first_error(now) != Some(EventError::InvalidStartDate),
        params.ends_at > params.starts_at ==> params.first_error(now) != Some(
            EventError::InvalidEndDate,
        ),
        params.capacity >= 1 ==> params.first_error(now) != Some(EventError::InvalidCapacity),
{
    lemma_byte_len_positive(params.title@);
    lemma_byte_len_positive(params.venue@);
    lemma_byte_len_positive(params.city@);
}

/// The stake of an accepted settlement is forfeited exactly when the event
/// went ahead without selling out and the entry's claim round
/// `k = (randomness mod total + position) / window_size` had closed, at
/// `claim_start + (k + 1) * round_duration_secs`; otherwise it is refunded.
pub proof fn lemma_stake_forfeited_after_round(accounts: SettleStake, now: i64)
    requires
        settle_stake_error(accounts, now) is None,
        accounts.sale.total_entries > 0,
        accounts.entry.position < accounts.sale.total_entries,
        accounts.sale.window_size > 0,
        accounts.sale.round_duration_secs >= 0,
        accounts.sale.randomness % (accounts.sale.total_entries as u64) + accounts.entry.position
            <= u32::MAX,
        ((accounts.sale.randomness % (accounts.sale.total_entries as u64) + accounts.entry.position)
            / (accounts.sale.window_size as int) + 1) * accounts.sale.round_duration_secs <= i64::MAX,
        accounts.sale.claim_start + ((accounts.sale.randomness % (accounts.sale.total_entries as u64)
            + accounts.entry.position) / (accounts.sale.window_size as int) + 1)
            * accounts.sale.round_duration_secs <= i64::MAX,
    ensures
        ({
            let k = (accounts.sale.randomness % (accounts.sale.total_entries as u64)
                + accounts.entry.position) / (accounts.sale.window_size as int);
            &&& claim_round_end(accounts.sale, accounts.entry) == accounts.sale.claim_start + (k + 1)
                * accounts.sale.round_duration_secs
            &&& settle_stake_applied(accounts, now).entry.status == QueueStatus::Forfeited <==> (
            accounts.event.status != EventStatus::Cancelled && accounts.event.tickets_sold
                != accounts.event.capacity && now >= accounts.sale.claim_start + (k + 1)
                * accounts.sale.round_duration_secs)
            &&& settle_stake_applied(accounts, now).entry.status != QueueStatus::Forfeited
                ==> settle_stake_applied(accounts, now).entry.status == QueueStatus::Settled
        }),
{
    lemma_claim_round_window(accounts.sale, accounts.entry, now);
    lemma_effective_position_shifts(
        accounts.sale.randomness,
        accounts.sale.total_entries,
        accounts.entry.position,
    );
    let sale = accounts.sale;
    let d = sale.round_duration_secs;
    let eff = effective_position_spec(sale.randomness, sale.total_entries, accounts.entry.position);
    let k = (sale.randomness % (sale.total_entries as u64) + accounts.entry.position) / (
    sale.window_size as int);
    assert(round_of_spec(sale.window_size, eff) == k);
    assert((k + 1) * d == k * d + d) by (nonlinear_arith);
    assert(0 <= k * d) by (nonlinear_arith)
        requires
            0 <= k,
            0 <= d,
    ;
    let round = round_of_spec(sale.window_size, eff);
    assert(sat_mul_u64(round, d as u64) == k * d);
    assert(round_start_spec(sale.claim_start, d, round) == sale.claim_start + k * d);
}

/// A ticket is bought exactly when the event is active, has not started and
/// is not sold out, the buyer's token account is the expected one, and, for a
/// hot sale, the buyer claims through its own staked entry of this event,
/// after the reveal, during the entry's claim round. An accepted purchase
/// sells one more ticket; the buyer pays the price, or for a hot-sale claim
/// the price less the stake already held, never less than nothing.
pub proof fn lemma_buy_ticket_outcome(accounts: BuyTicket, now: i64, expected_ata: Option<Seq<u8>>)
    ensures
        buy_ticket_error(accounts, now, expected_ata) is None <==> ({
            &&& accounts.event.status == EventStatus::Active
            &&& now < accounts.event.starts_at
            &&& accounts.event.tickets_sold < accounts.event.capacity
            &&& expected_ata == Some(accounts.buyer_ata@)
            &&& accounts.event.hot_sale ==> {
                &&& accounts.sale is Some
                &&& accounts.entry is Some
                &&& accounts.sale->0.event@ == accounts.event_key@
                &&& accounts.entry->0.event@ == accounts.event_key@
                &&& accounts.entry->0.buyer@ == accounts.buyer@
                &&& accounts.sale->0.settled
                &&& accounts.entry->0.status == QueueStatus::Staked
                &&& in_claim_round(accounts.sale->0, accounts.entry->0, now)
            }
        }),
        buy_ticket_error(accounts, now, expected_ata) is None ==> buy_ticket_applied(
            accounts,
        ).event.tickets_sold == accounts.event.tickets_sold + 1,
        !accounts.event.hot_sale ==> ticket_payment(accounts) == accounts.event.ticket_price_lamports,
        accounts.event.hot_sale && accounts.entry is Some ==> {
            let price = accounts.event.ticket_price_lamports as int;
            let stake = accounts.entry->0.stake_lamports as int;
            let paid = ticket_payment(accounts) as int;
            &&& 0 <= paid <= price
            &&& paid + stake >= price
            &&& paid > 0 ==> paid + stake == price
        },
        buy_ticket_error(accounts, now, expected_ata) is None && accounts.event.hot_sale
            && accounts.sale->0.claimed < u32::MAX ==> buy_ticket_applied(accounts).entry->0.status
            == QueueStatus::Claimed && buy_ticket_applied(accounts).sale->0.claimed
            == accounts.sale->0.claimed + 1,
{
}

/// A ticket is checked in exactly when its event's organizer asks, the
/// ticket belongs to the event and was not used, the event is active, and
/// the time lies between an hour before the start and a day after the end.
/// The ticket is then used, and records the time.
pub proof fn lemma_check_in_outcome(accounts: CheckIn, now: i64)
    ensures
        check_in_error(accounts, now) is None <==> ({
            &&& accounts.event.organizer@ == accounts.organizer@
            &&& accounts.ticket.event@ == accounts.event_key@
            &&& accounts.ticket.status == TicketStatus::Valid
            &&& accounts.event.starts_at - 3600 <= now <= accounts.event.ends_at + 86400
            &&& accounts.event.status == EventStatus::Active
        }),
        check_in_applied(accounts, now).ticket.status == TicketStatus::Used,
        check_in_applied(accounts, now).ticket.checked_in_at == now,
        check_in_applied(accounts, now).ticket.buyer == accounts.ticket.buyer,
        check_in_applied(accounts, now).event == accounts.event,
{
}

/// A buyer joins a queue exactly when the event is an active hot sale whose
/// randomness is not yet revealed, the sale is this event's, and the time
/// lies in the registration window (its end excluded). The new entry is the
/// buyer's, staked with the sale's stake, at the place after the entries
/// already there.
pub proof fn lemma_join_queue_outcome(accounts: JoinQueue, now: i64)
    ensures
        join_queue_error(accounts, now) is None <==> ({
            &&& accounts.event.status == EventStatus::Active
            &&& accounts.event.hot_sale
            &&& accounts.sale.event@ == accounts.event_key@
            &&& !accounts.sale.settled
            &&& accounts.sale.registration_start <= now < accounts.sale.registration_end
        }),
        joined_entry(accounts).buyer == accounts.buyer,
        joined_entry(accounts).event == accounts.event_key,
        joined_entry(accounts).position == accounts.sale.total_entries,
        joined_entry(accounts).stake_lamports == accounts.sale.stake_lamports,
        joined_entry(accounts).status == QueueStatus::Staked,
{
}

/// An event is cancelled exactly when its organizer asks and it is active;
/// a cancellation changes its status and nothing else.
pub proof fn lemma_cancel_event_outcome(accounts: CancelEvent)
    ensures
        cancel_event_error(accounts) is None <==> (accounts.event.organizer@ == accounts.organizer@
            && accounts.event.status == EventStatus::Active),
        cancel_event_applied(accounts).event.status == EventStatus::Cancelled,
        cancel_event_applied(accounts).event == (Event {
            status: EventStatus::Cancelled,
            ..accounts.event
        }),
        cancel_event_applied(accounts).organizer == accounts.organizer,
        cancel_event_applied(accounts).event_key == accounts.event_key,
{
}

/// A hot sale is configured exactly when the organizer of an active
/// hot-sale event asks, with registration starting no earlier than now and
/// lasting a while, the reveal after registration, claiming after the
/// reveal, rounds of at least a minute and windows of at least one place. It
/// starts with an empty queue, nothing revealed and nothing settled.
pub proof fn lemma_configure_sale_outcome(
    accounts: ConfigureSale,
    params: SaleParams,
    now: i64,
    bump: u8,
)
    ensures
        configure_sale_error(accounts, params, now) is None <==> ({
            &&& accounts.event.organizer@ == accounts.organizer@
            &&& accounts.event.status == EventStatus::Active
            &&& accounts.event.hot_sale
            &&& now <= params.registration_start < params.registration_end
            &&& params.registration_end <= params.reveal_at <= params.claim_start
            &&& params.round_duration_secs >= 60
            &&& params.window_size >= 1
        }),
        configured_sale(accounts.event_key, params, bump).event == accounts.event_key,
        configured_sale(accounts.event_key, params, bump).claim_start == params.claim_start,
        configured_sale(accounts.event_key, params, bump).round_duration_secs
            == params.round_duration_secs,
        configured_sale(accounts.event_key, params, bump).window_size == params.window_size,
        configured_sale(accounts.event_key, params, bump).stake_lamports == params.stake_lamports,
        configured_sale(accounts.event_key, params, bump).total_entries == 0,
        !configured_sale(accounts.event_key, params, bump).settled,
        configured_sale(accounts.event_key, params, bump).pending_spec() == 0,
{
}

/// The randomness is revealed exactly when the event is a hot sale, the sale
/// is its own and not yet revealed, the account given is the SlotHashes
/// sysvar, the reveal time has come, and the sysvar holds at least one full
/// entry. The revealed randomness is the number whose little-endian bytes are
/// the first 8 bytes of the most recent slot hash (bytes 16 to 23 of the
/// data), and the sale is then revealed.
pub proof fn lemma_settle_randomness_outcome(accounts: SettleRandomness, data: Seq<u8>, now: i64)
    ensures
        settle_randomness_error(accounts, data, now) is None <==> ({
            &&& accounts.event.hot_sale
            &&& accounts.sale.event@ == accounts.event_key@
            &&& !accounts.sale.settled
            &&& accounts.slot_hashes@ == slot_hashes_sysvar_bytes()
            &&& now >= accounts.sale.reveal_at
            &&& data.len() >= 48
            &&& spec_u64_from_le_bytes(data.subrange(0, 8)) != 0
        }),
        data.len() >= 24 ==> spec_u64_to_le_bytes(revealed_randomness(data)) == data.subrange(16, 24),
        settle_randomness_applied(accounts, data).sale.randomness == revealed_randomness(data),
        settle_randomness_applied(accounts, data).sale.settled,
        settle_randomness_applied(accounts, data).sale.total_entries == accounts.sale.total_entries,
{
    lemma_auto_spec_u64_to_from_le_bytes();
    if data.len() >= 24 {
        let s = data.subrange(16, 24);
        assert(s.len() == 8);
        assert(spec_u64_to_le_bytes(spec_u64_from_le_bytes(s)) == s);
    }
}

/// A slug names an event exactly when it has 1 to 32 bytes, each a
/// lowercase latin letter (ASCII 97 to 122), a digit (48 to 57) or a hyphen
/// (45).
pub proof fn lemma_slug_rules(slug: &str)
    ensures
        slug_is_valid(slug) <==> ({
            &&& 1 <= slug.spec_bytes().len() <= 32
            &&& forall|i: int|
                0 <= i < slug.spec_bytes().len() ==> {
                    let b = #[trigger] slug.spec_bytes()[i];
                    (97 <= b <= 122) || (48 <= b <= 57) || b == 45
                }
        }),
{
    lemma_byte_len_positive(slug@);
}

} // verus!
