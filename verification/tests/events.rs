use events::error::{EventError, InstructionError};
use events::instructions::buy_ticket::{handle_buy_ticket, BuyTicket, TicketPurchase};
use events::instructions::cancel_event::{handle_cancel_event, CancelEvent};
use events::instructions::check_in::{handle_check_in, CheckIn};
use events::instructions::configure_sale::{handle_configure_sale, ConfigureSale};
use events::instructions::init_event::handle_init_event;
use events::instructions::join_queue::{handle_join_queue, JoinQueue};
use events::instructions::settle_randomness::{handle_settle_randomness, SettleRandomness};
use events::instructions::settle_stake::{handle_settle_stake, SettleStake};
use events::instructions::update_event::{handle_update_event, UpdateEvent};
use events::instructions::withdraw::{handle_withdraw, Withdraw};
use events::state::{
    Event, EventParams, EventStatus, Pubkey, QueueEntry, QueueStatus, SaleParams, SaleState, Ticket,
    TicketStatus,
};

const T0: i64 = 1_700_000_000;
const SLUG: &str = "solana-break-2026";
const STAKE: u64 = 50_000_000;
const RENT_MIN: u64 = 890_880;

fn key(b: u8) -> Pubkey {
    Pubkey { bytes: [b; 32] }
}

fn organizer() -> Pubkey {
    key(1)
}

fn event_key() -> Pubkey {
    key(2)
}

fn token_program() -> Pubkey {
    Pubkey { bytes: anchor_spl::token_2022::ID.to_bytes() }
}

fn ata(owner: &Pubkey, mint: &Pubkey) -> Pubkey {
    let a = anchor_spl::associated_token::get_associated_token_address_with_program_id(
        &anchor_lang::prelude::Pubkey::new_from_array(owner.bytes),
        &anchor_lang::prelude::Pubkey::new_from_array(mint.bytes),
        &anchor_spl::token_2022::ID,
    );
    Pubkey { bytes: a.to_bytes() }
}

fn mint_of(buyer: &Pubkey) -> Pubkey {
    let mut bytes = buyer.bytes;
    bytes[0] = bytes[0].wrapping_add(100);
    Pubkey { bytes }
}

fn ticket_of(buyer: &Pubkey) -> Pubkey {
    let mut bytes = buyer.bytes;
    bytes[1] = bytes[1].wrapping_add(50);
    Pubkey { bytes }
}

fn entry_of(buyer: &Pubkey) -> Pubkey {
    let mut bytes = buyer.bytes;
    bytes[2] = bytes[2].wrapping_add(70);
    Pubkey { bytes }
}

fn params(now_ts: i64) -> EventParams {
    EventParams {
        title: "Solana Break 2026".to_string(),
        description: "Community meetup".to_string(),
        venue: "Loft Hall".to_string(),
        city: "Almaty".to_string(),
        image_uri: "https://example.com/img.png".to_string(),
        starts_at: now_ts + 3600,
        ends_at: now_ts + 7200,
        ticket_price_lamports: 50_000_000,
        capacity: 100,
        hot_sale: false,
    }
}

fn create_event(slug: &str, p: &EventParams, now: i64) -> Event {
    handle_init_event(&organizer(), &event_key(), slug, p, now).unwrap().0
}

fn buy_accounts(buyer: &Pubkey, event: &Event) -> BuyTicket {
    let mint = mint_of(buyer);
    BuyTicket {
        buyer: *buyer,
        event_key: event_key(),
        event: event.clone(),
        ticket_key: ticket_of(buyer),
        mint,
        buyer_ata: ata(buyer, &mint),
        token_program: token_program(),
        sale: None,
        entry: None,
    }
}

fn buy(buyer: &Pubkey, event: &mut Event, now: i64) -> Result<TicketPurchase, InstructionError> {
    let mut accounts = buy_accounts(buyer, event);
    let r = handle_buy_ticket(&mut accounts, now);
    *event = accounts.event;
    r
}

fn check_in(event: &Event, ticket: &mut Ticket, signer: &Pubkey, now: i64) -> Result<(), InstructionError> {
    let mut accounts = CheckIn {
        organizer: *signer,
        event_key: event_key(),
        event: event.clone(),
        ticket_key: key(33),
        ticket: *ticket,
    };
    let r = handle_check_in(&mut accounts, now);
    *ticket = accounts.ticket;
    r.map(|_| ())
}

fn cancel(event: &mut Event) -> Result<(), InstructionError> {
    let mut accounts = CancelEvent { organizer: organizer(), event_key: event_key(), event: event.clone() };
    let r = handle_cancel_event(&mut accounts);
    *event = accounts.event;
    r.map(|_| ())
}

fn update(event: &mut Event, sale: Option<SaleState>, p: &EventParams, now: i64) -> Result<(), InstructionError> {
    let mut accounts = UpdateEvent { organizer: organizer(), event_key: event_key(), event: event.clone(), sale };
    let r = handle_update_event(&mut accounts, p, now);
    *event = accounts.event;
    r.map(|_| ())
}

fn withdraw(event: &Event, sale: Option<SaleState>, amount: u64, now: i64, vault: u64) -> Result<(), InstructionError> {
    let accounts = Withdraw { organizer: organizer(), event_key: event_key(), event: event.clone(), sale };
    handle_withdraw(&accounts, amount, now, vault, RENT_MIN).map(|_| ())
}

#[test]
fn init_event_creates_event_account() {
    let p = params(T0);
    let event = create_event(SLUG, &p, T0);
    assert_eq!(event.organizer, organizer());
    assert_eq!(event.slug, SLUG);
    assert_eq!(event.title, "Solana Break 2026");
    assert_eq!(event.city, "Almaty");
    assert_eq!(event.tickets_sold, 0);
    assert_eq!(event.capacity, 100);
    assert_eq!(event.status, EventStatus::Active);
}

#[test]
fn init_event_validates_inputs() {
    let bad_slug = handle_init_event(&organizer(), &event_key(), "Bad Slug!", &params(T0), T0);
    assert!(bad_slug.is_err());
    assert_eq!(bad_slug, Err(EventError::InvalidSlug));

    let mut zero_capacity = params(T0);
    zero_capacity.capacity = 0;
    let r = handle_init_event(&organizer(), &event_key(), "cap-zero", &zero_capacity, T0);
    assert!(r.is_err());
    assert_eq!(r, Err(EventError::InvalidCapacity));

    let mut bad_dates = params(T0);
    bad_dates.ends_at = bad_dates.starts_at;
    let r = handle_init_event(&organizer(), &event_key(), "bad-dates", &bad_dates, T0);
    assert!(r.is_err());
    assert_eq!(r, Err(EventError::InvalidEndDate));
}

#[test]
fn update_event_changes_fields() {
    let mut event = create_event(SLUG, &params(T0), T0);
    let mut updated = params(T0);
    updated.title = "Solana Break 2026 v2".to_string();
    updated.ticket_price_lamports = 75_000_000;
    updated.capacity = 200;
    update(&mut event, None, &updated, T0).unwrap();
    assert_eq!(event.title, "Solana Break 2026 v2");
    assert_eq!(event.ticket_price_lamports, 75_000_000);
    assert_eq!(event.capacity, 200);
}

#[test]
fn update_event_rejects_foreign_organizer() {
    let event = create_event(SLUG, &params(T0), T0);
    let stranger = key(9);
    let mut accounts = UpdateEvent { organizer: stranger, event_key: event_key(), event: event.clone(), sale: None };
    let r = handle_update_event(&mut accounts, &params(T0), T0);
    assert!(r.is_err());
    assert_eq!(r, Err(InstructionError::ConstraintHasOne));
    assert_eq!(accounts.event, event);
}

#[test]
fn update_event_rejects_after_start() {
    let init = params(T0);
    let mut event = create_event(SLUG, &init, T0);
    let now = init.starts_at + 10;
    let r = update(&mut event, None, &init, now);
    assert!(r.is_err());
    assert_eq!(r, Err(InstructionError::Event(EventError::InvalidStartDate)));
}

#[test]
fn cancel_event_marks_cancelled_and_rejects_twice() {
    let mut event = create_event(SLUG, &params(T0), T0);
    cancel(&mut event).unwrap();
    assert_eq!(event.status, EventStatus::Cancelled);
    let r = cancel(&mut event);
    assert!(r.is_err());
    assert_eq!(r, Err(InstructionError::ConstraintRaw));
}

#[test]
fn withdraw_fails_before_end() {
    let event = create_event(SLUG, &params(T0), T0);
    let vault = RENT_MIN + 500_000_000;
    let r = withdraw(&event, None, 100_000_000, T0, vault);
    assert!(r.is_err());
    assert_eq!(r, Err(InstructionError::Event(EventError::EventNotEnded)));
}

#[test]
fn withdraw_succeeds_after_end() {
    let init = params(T0);
    let event = create_event(SLUG, &init, T0);
    let vault_before = RENT_MIN + 500_000_000;
    let accounts = Withdraw { organizer: organizer(), event_key: event_key(), event: event.clone(), sale: None };
    let log = handle_withdraw(&accounts, 400_000_000, init.ends_at + 1, vault_before, RENT_MIN).unwrap();
    assert_eq!(log.organizer, organizer());
    assert_eq!(log.event, event_key());
    // The vault pays out exactly the amount the library hands on.
    let vault_after = vault_before - log.amount;
    assert_eq!(vault_before - vault_after, 400_000_000);
    assert!(vault_after >= RENT_MIN);
}

#[test]
fn withdraw_rejects_draining_rent_and_zero() {
    let init = params(T0);
    let event = create_event(SLUG, &init, T0);
    let full = RENT_MIN + 500_000_000;
    let now = init.ends_at + 1;
    assert!(withdraw(&event, None, full, now, full).is_err());
    assert!(withdraw(&event, None, 0, now, full).is_err());
    assert_eq!(
        withdraw(&event, None, 0, now, full),
        Err(InstructionError::Event(EventError::InvalidAmount))
    );
    assert_eq!(withdraw(&event, None, full - RENT_MIN, now, full), Ok(()));
    assert_eq!(
        withdraw(&event, None, full - RENT_MIN + 1, now, full),
        Err(InstructionError::Event(EventError::InvalidAmount))
    );
}

fn create_fixture_event(slug: &str, mut p: EventParams) -> Event {
    p.starts_at = T0 + 3600;
    p.ends_at = p.starts_at + 3600;
    create_event(slug, &p, T0)
}

#[test]
fn buy_ticket_mints_nft_and_pays_vault() {
    let p = params(T0);
    let mut event = create_fixture_event("nft-show", p.clone());
    let buyer = organizer();
    let purchase = buy(&buyer, &mut event, T0).unwrap();
    assert_eq!(event.tickets_sold, 1);
    assert_eq!(purchase.payment, p.ticket_price_lamports);
    assert_eq!(purchase.ticket_number, 1);
    assert_eq!(purchase.ticket.status, TicketStatus::Valid);
    assert_eq!(purchase.ticket.mint, mint_of(&buyer));
    assert_eq!(purchase.ticket.buyer, buyer);
    assert_eq!(purchase.ticket.event, event_key());
    assert_eq!(purchase.name, "Solana Break 2026 #1");
    assert_eq!(purchase.symbol, "AFISHA");
    assert_eq!(purchase.uri, "https://example.com/img.png");
    assert_eq!(purchase.mint_space, 234);
    assert_eq!(purchase.mint_full_space, 234 + 4 + 33 + 32 + 4 + 20 + 4 + 6 + 4 + 27 + 4);
}

#[test]
fn buy_ticket_rejects_sold_out() {
    let mut p = params(T0);
    p.capacity = 1;
    let mut event = create_fixture_event("tiny-venue", p);
    buy(&organizer(), &mut event, T0).unwrap();
    let buyer2 = key(7);
    let r = buy(&buyer2, &mut event, T0);
    assert!(r.is_err());
    assert_eq!(r.err(), Some(InstructionError::Event(EventError::SoldOut)));
    assert_eq!(event.tickets_sold, 1);
}

#[test]
fn buy_ticket_rejects_after_start_and_cancelled() {
    let mut event = create_fixture_event("late-show", params(T0));
    let buyer = organizer();
    let starts_at = event.starts_at;
    let r = buy(&buyer, &mut event, starts_at + 1);
    assert!(r.is_err());
    assert_eq!(r.err(), Some(InstructionError::Event(EventError::SalesClosed)));
    cancel(&mut event).unwrap();
    let r = buy(&buyer, &mut event, starts_at - 100);
    assert!(r.is_err());
    assert_eq!(r.err(), Some(InstructionError::Event(EventError::EventNotActive)));
}

#[test]
fn buy_ticket_free_event_works() {
    let mut p = params(T0);
    p.ticket_price_lamports = 0;
    let mut event = create_fixture_event("free-entry", p);
    let purchase = buy(&organizer(), &mut event, T0).unwrap();
    assert_eq!(purchase.payment, 0);
    assert_eq!(event.tickets_sold, 1);
}

#[test]
fn check_in_marks_used_and_rejects_twice() {
    let mut event = create_fixture_event("door-scan", params(T0));
    let mut ticket = buy(&organizer(), &mut event, T0).unwrap().ticket;
    let now = event.starts_at;
    check_in(&event, &mut ticket, &organizer(), now).unwrap();
    let r = check_in(&event, &mut ticket, &organizer(), now);
    assert!(r.is_err());
    assert_eq!(r, Err(InstructionError::Event(EventError::TicketAlreadyUsed)));
    assert_eq!(ticket.status, TicketStatus::Used);
    assert!(ticket.checked_in_at > 0);
    assert_eq!(ticket.checked_in_at, now);
}

#[test]
fn check_in_rejects_foreign_organizer() {
    let mut event = create_fixture_event("strict-door", params(T0));
    let mut ticket = buy(&organizer(), &mut event, T0).unwrap().ticket;
    let stranger = key(9);
    let r = check_in(&event, &mut ticket, &stranger, event.starts_at);
    assert!(r.is_err());
    assert_eq!(r, Err(InstructionError::ConstraintHasOne));
    assert_eq!(ticket.status, TicketStatus::Valid);
}

#[test]
fn check_in_rejects_too_early_and_too_late() {
    let mut event = create_fixture_event("time-window", params(T0));
    let mut ticket = buy(&organizer(), &mut event, T0).unwrap().ticket;
    let r = check_in(&event, &mut ticket, &organizer(), event.starts_at - 4000);
    assert!(r.is_err());
    assert_eq!(r, Err(InstructionError::Event(EventError::CheckInNotOpen)));
    let r = check_in(&event, &mut ticket, &organizer(), event.ends_at + 25 * 3600);
    assert!(r.is_err());
    assert_eq!(r, Err(InstructionError::Event(EventError::CheckInClosed)));
}

fn hot_params(now_ts: i64) -> EventParams {
    let mut p = params(now_ts);
    p.hot_sale = true;
    p.ticket_price_lamports = 150_000_000;
    p.starts_at = now_ts + 200_000;
    p.ends_at = now_ts + 206_400;
    p
}

fn sale_params(now_ts: i64, window: u32) -> SaleParams {
    SaleParams {
        registration_start: now_ts + 60,
        registration_end: now_ts + 600,
        reveal_at: now_ts + 700,
        claim_start: now_ts + 800,
        round_duration_secs: 300,
        stake_lamports: STAKE,
        window_size: window,
    }
}

struct Hot {
    event: Event,
    sale: SaleState,
    entries: Vec<QueueEntry>,
    vault: u64,
}

fn configure(event: &Event, sp: &SaleParams, now: i64) -> Result<SaleState, InstructionError> {
    let accounts = ConfigureSale { organizer: organizer(), event_key: event_key(), event: event.clone() };
    handle_configure_sale(&accounts, sp, now, 254).map(|(sale, _)| sale)
}

fn create_hot_event(slug: &str, capacity: u32, window: u32) -> Hot {
    let mut p = hot_params(T0);
    p.capacity = capacity;
    let event = create_event(slug, &p, T0);
    let sale = configure(&event, &sale_params(T0, window), T0).unwrap();
    Hot { event, sale, entries: Vec::new(), vault: RENT_MIN }
}

fn join(hot: &mut Hot, buyer: &Pubkey, now: i64) -> Result<QueueEntry, InstructionError> {
    let mut accounts = JoinQueue {
        buyer: *buyer,
        event_key: event_key(),
        event: hot.event.clone(),
        sale: hot.sale,
        entry_key: entry_of(buyer),
    };
    let r = handle_join_queue(&mut accounts, now);
    hot.sale = accounts.sale;
    if let Ok((entry, _)) = &r {
        hot.entries.push(*entry);
        hot.vault += entry.stake_lamports;
    }
    r.map(|(entry, _)| entry)
}

fn slot_hashes_data(randomness: u64) -> Vec<u8> {
    let mut data = Vec::new();
    data.extend_from_slice(&1u64.to_le_bytes());
    data.extend_from_slice(&12345u64.to_le_bytes());
    data.extend_from_slice(&randomness.to_le_bytes());
    data.extend_from_slice(&[7u8; 24]);
    data
}

fn slot_hashes_key() -> Pubkey {
    Pubkey { bytes: solana_sdk_ids::sysvar::slot_hashes::ID.to_bytes() }
}

fn settle_randomness(hot: &mut Hot, randomness: u64, now: i64) -> Result<u64, InstructionError> {
    let mut accounts = SettleRandomness {
        event_key: event_key(),
        event: hot.event.clone(),
        sale: hot.sale,
        slot_hashes: slot_hashes_key(),
    };
    let r = handle_settle_randomness(&mut accounts, &slot_hashes_data(randomness), now);
    hot.sale = accounts.sale;
    r.map(|log| log.randomness)
}

fn eff(sale: &SaleState, e: &QueueEntry) -> u32 {
    ((sale.randomness % sale.total_entries as u64) + (e.position as u64 % sale.total_entries as u64)) as u32
}

fn round_time(hot: &Hot, e: &QueueEntry) -> i64 {
    let round = eff(&hot.sale, e) as i64 / hot.sale.window_size as i64;
    hot.sale.claim_start + round * hot.sale.round_duration_secs + 5
}

fn buy_hot(hot: &mut Hot, idx: usize, now: i64) -> Result<TicketPurchase, InstructionError> {
    let buyer = hot.entries[idx].buyer;
    let mut accounts = buy_accounts(&buyer, &hot.event);
    accounts.sale = Some(hot.sale);
    accounts.entry = Some(hot.entries[idx]);
    let r = handle_buy_ticket(&mut accounts, now);
    hot.event = accounts.event;
    hot.sale = accounts.sale.unwrap();
    hot.entries[idx] = accounts.entry.unwrap();
    if let Ok(p) = &r {
        hot.vault += p.payment;
    }
    r
}

fn settle_stake(hot: &mut Hot, idx: usize, now: i64) -> Result<(bool, u64), InstructionError> {
    let mut accounts = SettleStake {
        event_key: event_key(),
        event: hot.event.clone(),
        sale: hot.sale,
        entry_key: entry_of(&hot.entries[idx].buyer),
        entry: hot.entries[idx],
        entry_buyer: hot.entries[idx].buyer,
    };
    let r = handle_settle_stake(&mut accounts, now);
    hot.sale = accounts.sale;
    hot.entries[idx] = accounts.entry;
    match r {
        Ok(s) => {
            if s.refunded {
                hot.vault -= s.amount;
            }
            Ok((s.refunded, s.amount))
        }
        Err(e) => Err(e),
    }
}

#[test]
fn configure_sale_creates_state() {
    let hot = create_hot_event("hot-concert", 500, 10);
    assert_eq!(hot.sale.event, event_key());
    assert_eq!(hot.sale.stake_lamports, STAKE);
    assert_eq!(hot.sale.window_size, 10);
    assert_eq!(hot.sale.total_entries, 0);
    assert!(!hot.sale.settled);
    assert_eq!(hot.sale.pending(), 0);
}

#[test]
fn configure_sale_rejects_non_hot_event() {
    let event = create_fixture_event("cold-event", params(T0));
    let r = configure(&event, &sale_params(T0, 10), T0);
    assert!(r.is_err());
    assert_eq!(r, Err(InstructionError::Event(EventError::NotHotSale)));
}

#[test]
fn configure_sale_rejects_bad_phases() {
    let event = create_event("bad-phases", &hot_params(T0), T0);
    let mut sp = sale_params(T0, 10);
    sp.claim_start = sp.reveal_at - 100;
    let r = configure(&event, &sp, T0);
    assert!(r.is_err());
    assert_eq!(r, Err(InstructionError::Event(EventError::InvalidSalePhases)));
}

#[test]
fn join_queue_stakes_and_assigns_positions() {
    let mut hot = create_hot_event("queue-assign", 500, 10);
    let vault_before = hot.vault;
    join(&mut hot, &key(11), T0 + 100).unwrap();
    join(&mut hot, &key(12), T0 + 100).unwrap();
    assert_eq!(hot.vault, vault_before + 2 * STAKE);
    assert_eq!(hot.sale.total_entries, 2);
    assert_eq!(hot.sale.pending(), 2);
    assert_eq!((hot.entries[0].position, hot.entries[1].position), (0, 1));
    assert_eq!(hot.entries[0].status, QueueStatus::Staked);
}

#[test]
fn join_queue_rejects_outside_window_and_twice() {
    let mut hot = create_hot_event("queue-window", 500, 10);
    let buyer = key(11);
    let claim_start = hot.sale.claim_start;
    let r = join(&mut hot, &buyer, claim_start - 5);
    assert!(r.is_err());
    assert_eq!(r, Err(InstructionError::Event(EventError::RegistrationClosed)));
    join(&mut hot, &buyer, claim_start - 600).unwrap();
    assert_eq!(hot.sale.total_entries, 1);
    // A second join by the same buyer is refused by the program, which
    // creates the buyer's queue entry at an address derived from the buyer
    // and cannot create it twice; the library keeps no set of accounts.
}

#[test]
fn settle_randomness_phases() {
    let mut hot = create_hot_event("reveal-flow", 500, 10);
    let claim_start = hot.sale.claim_start;
    join(&mut hot, &key(11), claim_start - 300).unwrap();
    let r = settle_randomness(&mut hot, 77, claim_start - 150);
    assert!(r.is_err());
    assert_eq!(r, Err(InstructionError::Event(EventError::RandomnessNotSettled)));
    assert_eq!(settle_randomness(&mut hot, 77, claim_start - 50), Ok(77));
    assert!(hot.sale.settled);
    assert_eq!(hot.sale.randomness, 77);
    let dup = settle_randomness(&mut hot, 78, claim_start - 40);
    assert!(dup.is_err());
    assert_eq!(dup, Err(InstructionError::Event(EventError::AlreadySettled)));
}

#[test]
fn queue_buy_flow_mints_ticket_and_claims_stake() {
    let mut hot = create_hot_event("claim-flow", 500, 10);
    let claim_start = hot.sale.claim_start;
    join(&mut hot, &key(11), claim_start - 300).unwrap();
    settle_randomness(&mut hot, 0x1234_5678_9abc_def0, claim_start - 100).unwrap();
    let when = round_time(&hot, &hot.entries[0]);
    let vault_before = hot.vault;
    let purchase = buy_hot(&mut hot, 0, when).unwrap();
    let full_price = hot.event.ticket_price_lamports;
    assert_eq!(hot.vault, vault_before + full_price - STAKE);
    assert_eq!(purchase.payment, full_price - STAKE);
    assert_eq!(hot.entries[0].status, QueueStatus::Claimed);
    assert_eq!(hot.sale.claimed, 1);
    assert_eq!(hot.sale.pending(), 0);
    assert_eq!(hot.event.tickets_sold, 1);
}

#[test]
fn queue_buy_rejects_wrong_round_and_early() {
    let mut hot = create_hot_event("round-gate", 500, 1);
    let claim_start = hot.sale.claim_start;
    join(&mut hot, &key(11), claim_start - 300).unwrap();
    settle_randomness(&mut hot, 999_999, claim_start - 50).unwrap();
    let r = buy_hot(&mut hot, 0, claim_start + 999 * 300 + 5);
    assert!(r.is_err());
    assert_eq!(r.err(), Some(InstructionError::Event(EventError::SalesClosed)));
    let r = buy_hot(&mut hot, 0, claim_start + 5 * 300 + 5);
    assert_eq!(r.err(), Some(InstructionError::Event(EventError::NotInClaimRound)));
    let r = buy_hot(&mut hot, 0, claim_start - 1);
    assert_eq!(r.err(), Some(InstructionError::Event(EventError::NotInClaimRound)));
    let when = round_time(&hot, &hot.entries[0]);
    buy_hot(&mut hot, 0, when).unwrap();
}

#[test]
fn buy_before_settlement_fails() {
    let mut hot = create_hot_event("no-settle", 500, 10);
    let claim_start = hot.sale.claim_start;
    join(&mut hot, &key(11), claim_start - 300).unwrap();
    let r = buy_hot(&mut hot, 0, claim_start + 5);
    assert!(r.is_err());
    assert_eq!(r.err(), Some(InstructionError::Event(EventError::RandomnessNotSettled)));
}

#[test]
fn no_show_forfeits_stake() {
    let mut hot = create_hot_event("no-show", 500, 1);
    let claim_start = hot.sale.claim_start;
    join(&mut hot, &key(11), claim_start - 300).unwrap();
    settle_randomness(&mut hot, 42, claim_start - 50).unwrap();
    let vault_before = hot.vault;
    let starts_at = hot.event.starts_at;
    let (refunded, amount) = settle_stake(&mut hot, 0, starts_at + 10).unwrap();
    assert!(!refunded);
    assert_eq!(amount, STAKE);
    assert_eq!(hot.entries[0].status, QueueStatus::Forfeited);
    assert_eq!(hot.vault, vault_before);
    let ends_at = hot.event.ends_at;
    assert_eq!(withdraw(&hot.event, Some(hot.sale), STAKE, ends_at + 1, hot.vault), Ok(()));
}

#[test]
fn sold_out_losers_get_refund() {
    let mut hot = create_hot_event("sold-out", 1, 1);
    let claim_start = hot.sale.claim_start;
    join(&mut hot, &key(11), claim_start - 300).unwrap();
    join(&mut hot, &key(12), claim_start - 300).unwrap();
    settle_randomness(&mut hot, 5, claim_start - 50).unwrap();
    let (first, second) = if eff(&hot.sale, &hot.entries[0]) < eff(&hot.sale, &hot.entries[1]) {
        (0, 1)
    } else {
        (1, 0)
    };
    let when = round_time(&hot, &hot.entries[first]);
    buy_hot(&mut hot, first, when).unwrap();
    assert_eq!(hot.event.tickets_sold, 1);
    let vault_before = hot.vault;
    let (refunded, amount) = settle_stake(&mut hot, second, when).unwrap();
    assert!(refunded);
    assert_eq!(hot.entries[second].status, QueueStatus::Settled);
    assert_eq!(hot.vault, vault_before - STAKE);
    assert_eq!(amount, STAKE);
}

#[test]
fn withdraw_blocked_until_stakes_settled() {
    let mut hot = create_hot_event("pending-guard", 500, 1);
    let claim_start = hot.sale.claim_start;
    join(&mut hot, &key(11), claim_start - 300).unwrap();
    let ends_at = hot.event.ends_at;
    let r = withdraw(&hot.event, Some(hot.sale), STAKE, ends_at + 1, hot.vault);
    assert!(r.is_err());
    assert_eq!(r, Err(InstructionError::Event(EventError::StakesPending)));
    let starts_at = hot.event.starts_at;
    settle_stake(&mut hot, 0, starts_at + 10).unwrap();
    assert_eq!(withdraw(&hot.event, Some(hot.sale), STAKE, ends_at + 1, hot.vault), Ok(()));
}

#[test]
fn update_event_locks_sale_params_for_hot_events() {
    let mut hot = create_hot_event("locked-params", 500, 10);
    let mut changed_price = hot_params(T0 + 100);
    changed_price.ticket_price_lamports = 999_000_000;
    changed_price.capacity = 500;
    changed_price.starts_at = hot.event.starts_at;
    changed_price.ends_at = hot.event.ends_at;
    let r = update(&mut hot.event, Some(hot.sale), &changed_price, T0 + 100);
    assert!(r.is_err());
    assert_eq!(r, Err(InstructionError::Event(EventError::SaleParamsLocked)));

    let mut renamed = hot_params(T0 + 100);
    renamed.capacity = 500;
    renamed.starts_at = hot.event.starts_at;
    renamed.ends_at = hot.event.ends_at;
    renamed.title = "New title".to_string();
    update(&mut hot.event, Some(hot.sale), &renamed, T0 + 100).unwrap();
    assert_eq!(hot.event.title, "New title");
}
