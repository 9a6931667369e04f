use anchor_spl::token_2022::spl_token_2022::extension::ExtensionType;
use anchor_spl::token_2022::spl_token_2022::state::Mint;
use vstd::prelude::*;
use vstd::utf8::encode_utf8;

use crate::constants::{
    TICKET_META_NAME_MAX, TICKET_META_SYMBOL, TICKET_META_SYMBOL_MAX, TICKET_META_URI_MAX,
};
use crate::error::{EventError, InstructionError};
use crate::logs::TicketPurchased;
use crate::state::{
    effective_position_spec, round_of_spec, Event, EventStatus, Pubkey, QueueEntry, QueueStatus,
    SaleState, Ticket, TicketStatus,
};
use crate::text::{byte_len, is_truncation, ticket_name, ticket_name_chars, truncate_bytes};

verus! {

/// The address of the associated token account that `wallet` holds for
/// `mint` under `token_program`, as the associated-token program derives it;
/// `None` when no bump seed gives a program address.
pub uninterp spec fn associated_token_address(
    wallet: Seq<u8>,
    mint: Seq<u8>,
    token_program: Seq<u8>,
) -> Option<Seq<u8>>;

/// An optional address, by its bytes.
pub open spec fn address_bytes(a: Option<Pubkey>) -> Option<Seq<u8>> {
    match a {
        Some(k) => Some(k@),
        None => None,
    }
}

/// Derives the associated token account with `Pubkey::try_find_program_address`
/// of `anchor_lang`, from the seeds that the associated-token program uses
/// (the wallet, the token program and the mint, under
/// `anchor_spl::associated_token::ID`, as its
/// `get_associated_token_address_with_program_id` does). Where that function
/// panics, in the statistically improbable case that no bump seed gives an
/// address off the curve, this one returns `None`. The contract names the
/// result, a function of the three addresses alone.
#[verifier::external_body]
fn associated_token_account(wallet: &Pubkey, mint: &Pubkey, token_program: &Pubkey) -> (r: Option<Pubkey>)
    ensures
        address_bytes(r) == associated_token_address(wallet@, mint@, token_program@),
{
    let found = anchor_lang::prelude::Pubkey::try_find_program_address(
        &[&wallet.bytes, &token_program.bytes, &mint.bytes],
        &anchor_spl::associated_token::ID,
    );
    found.map(|(address, _)| Pubkey { bytes: address.to_bytes() })
}

/// Calls `ExtensionType::try_calculate_account_len::<Mint>` of
/// `anchor_spl::token_2022::spl_token_2022` with the one extension
/// `MetadataPointer`. The contract states its result: a token account
/// (165 bytes), the account-type byte, and one entry of type (2 bytes),
/// length (2 bytes) and a 64-byte metadata pointer.
#[verifier::external_body]
fn metadata_pointer_mint_len() -> (r: Option<usize>)
    ensures
        r == Some(234usize),
{
    ExtensionType::try_calculate_account_len::<Mint>(&[ExtensionType::MetadataPointer]).ok()
}

/// The size of a ticket mint account with room for a metadata pointer.
pub fn ticket_mint_init_space() -> (r: usize)
    ensures
        r == 234,
{
    match metadata_pointer_mint_len() {
        Some(len) => len,
        None => vstd::pervasive::unreached(),
    }
}

/// The size of a ticket mint once its metadata is written: the mint with its
/// metadata pointer, a 4-byte entry header, then the metadata: update
/// authority (33 bytes) and mint (32), the name, symbol and URI each after a
/// 4-byte length, and a 4-byte count of additional fields.
pub open spec fn ticket_mint_full_space_spec(name: nat, symbol: nat, uri: nat) -> nat {
    234 + 4 + (33 + 32 + 4 + name + 4 + symbol + 4 + uri + 4)
}

/// The size of a ticket mint whose metadata holds `name`, `symbol` and `uri`.
pub fn ticket_mint_full_space(name: &str, symbol: &str, uri: &str) -> (r: usize)
    requires
        ticket_mint_full_space_spec(byte_len(name@), byte_len(symbol@), byte_len(uri@))
            <= usize::MAX,
    ensures
        r == ticket_mint_full_space_spec(byte_len(name@), byte_len(symbol@), byte_len(uri@)),
{
    let tlv_header: usize = 4;
    let metadata_payload = 33 + 32 + 4 + name.as_bytes().len() + 4 + symbol.as_bytes().len() + 4
        + uri.as_bytes().len() + 4;
    ticket_mint_init_space() + tlv_header + metadata_payload
}

/// The accounts that buying a ticket reads and writes.
pub struct BuyTicket {
    /// The signer, who pays.
    pub buyer: Pubkey,
    /// The address of `event`.
    pub event_key: Pubkey,
    pub event: Event,
    /// The address of the new ticket.
    pub ticket_key: Pubkey,
    /// The address of the ticket's mint.
    pub mint: Pubkey,
    /// The address passed as the buyer's token account for the mint.
    pub buyer_ata: Pubkey,
    /// The address of the token program.
    pub token_program: Pubkey,
    /// For a hot-sale event: its sale state.
    pub sale: Option<SaleState>,
    /// For a hot-sale event: the buyer's queue entry.
    pub entry: Option<QueueEntry>,
}

/// What an accepted purchase asks the caller to carry out, and the ticket it
/// records.
pub struct TicketPurchase {
    /// The lamports the buyer pays into the vault (none when zero).
    pub payment: u64,
    /// The number of the ticket, counting from one.
    pub ticket_number: u32,
    /// The new ticket.
    pub ticket: Ticket,
    /// The name, symbol and URI of the ticket NFT.
    pub name: String,
    pub symbol: String,
    pub uri: String,
    /// The size to create the mint account with.
    pub mint_space: u64,
    /// The size the mint account reaches once its metadata is written.
    pub mint_full_space: usize,
    /// What to log.
    pub log: TicketPurchased,
}

/// Whether `now` falls in the claim round of `entry`.
pub open spec fn in_claim_round(sale: SaleState, entry: QueueEntry, now: i64) -> bool {
    let bounds = sale.round_bounds_spec(
        round_of_spec(
            sale.window_size,
            effective_position_spec(sale.randomness, sale.total_entries, entry.position),
        ),
    );
    bounds.0 <= now && now < bounds.1
}

/// Why buying a ticket at time `now` is refused, in the order the checks
/// run, when `expected_ata` is the buyer's token account for the mint
/// (`None` when it could not be derived); `None` when it is accepted. A
/// hot-sale ticket is claimed through the buyer's queue entry, once the
/// randomness is revealed, during the entry's claim round.
pub open spec fn buy_ticket_error(accounts: BuyTicket, now: i64, expected_ata: Option<Seq<u8>>) -> Option<
    InstructionError,
> {
    if accounts.event.status != EventStatus::Active {
        Some(InstructionError::Event(EventError::EventNotActive))
    } else if !(now < accounts.event.starts_at) {
        Some(InstructionError::Event(EventError::SalesClosed))
    } else if !(accounts.event.tickets_sold < accounts.event.capacity) {
        Some(InstructionError::Event(EventError::SoldOut))
    } else if expected_ata != Some(accounts.buyer_ata@) {
        Some(InstructionError::Event(EventError::InvalidTicketAccount))
    } else if !accounts.event.hot_sale {
        None
    } else if accounts.sale is None || accounts.entry is None {
        Some(InstructionError::Event(EventError::QueueEntryRequired))
    } else if accounts.sale->0.event@ != accounts.event_key@ || accounts.entry->0.event@
        != accounts.event_key@ || accounts.entry->0.buyer@ != accounts.buyer@ {
        Some(InstructionError::Event(EventError::EntryMismatch))
    } else if !accounts.sale->0.settled {
        Some(InstructionError::Event(EventError::RandomnessNotSettled))
    } else if accounts.entry->0.status != QueueStatus::Staked {
        Some(InstructionError::Event(EventError::EntryNotStaked))
    } else if !in_claim_round(accounts.sale->0, accounts.entry->0, now) {
        Some(InstructionError::Event(EventError::NotInClaimRound))
    } else {
        None
    }
}

/// What the buyer pays: the ticket price, less the stake already held for a
/// hot-sale claim (never below zero).
pub open spec fn ticket_payment(accounts: BuyTicket) -> u64 {
    if accounts.event.hot_sale {
        let stake = accounts.entry->0.stake_lamports;
        if accounts.event.ticket_price_lamports >= stake {
            (accounts.event.ticket_price_lamports - stake) as u64
        } else {
            0
        }
    } else {
        accounts.event.ticket_price_lamports
    }
}

/// The accounts after an accepted purchase: one more ticket sold, and for a
/// hot sale the entry claimed and counted.
pub open spec fn buy_ticket_applied(accounts: BuyTicket) -> BuyTicket {
    let sold = BuyTicket {
        event: Event { tickets_sold: (accounts.event.tickets_sold + 1) as u32, ..accounts.event },
        ..accounts
    };
    if accounts.event.hot_sale {
        BuyTicket {
            sale: Some(
                SaleState { claimed: (accounts.sale->0.claimed + 1) as u32, ..accounts.sale->0 },
            ),
            entry: Some(QueueEntry { status: QueueStatus::Claimed, ..accounts.entry->0 }),
            ..sold
        }
    } else {
        sold
    }
}

/// Whether `p` is what an accepted purchase by `accounts` returns.
pub open spec fn is_purchase_of(accounts: BuyTicket, p: TicketPurchase) -> bool {
    let number = (accounts.event.tickets_sold + 1) as u32;
    &&& p.payment == ticket_payment(accounts)
    &&& p.ticket_number == number
    &&& p.ticket == Ticket {
        event: accounts.event_key,
        buyer: accounts.buyer,
        mint: accounts.mint,
        status: TicketStatus::Valid,
        checked_in_at: 0,
    }
    &&& is_truncation(
        encode_utf8(ticket_name_chars(accounts.event.title@, number as nat)),
        TICKET_META_NAME_MAX as int,
        encode_utf8(p.name@),
    )
    &&& is_truncation(
        encode_utf8(TICKET_META_SYMBOL@),
        TICKET_META_SYMBOL_MAX as int,
        encode_utf8(p.symbol@),
    )
    &&& is_truncation(
        encode_utf8(accounts.event.image_uri@),
        TICKET_META_URI_MAX as int,
        encode_utf8(p.uri@),
    )
    &&& p.log == TicketPurchased {
        event: accounts.event_key,
        buyer: accounts.buyer,
        ticket: accounts.ticket_key,
        mint: accounts.mint,
        ticket_number: number,
        price_lamports: accounts.event.ticket_price_lamports,
    }
    &&& p.mint_space == 234
    &&& p.mint_full_space == ticket_mint_full_space_spec(
        byte_len(p.name@),
        byte_len(p.symbol@),
        byte_len(p.uri@),
    )
}

fn in_round(sale: &SaleState, entry: &QueueEntry, now: i64) -> (r: bool)
    ensures
        r == in_claim_round(*sale, *entry, now),
{
    let round = sale.round_of(sale.effective_position(entry));
    let (start, end) = sale.round_bounds(round);
    start <= now && now < end
}

/// Why buying a ticket at time `now` is refused, as `buy_ticket_error` gives
/// it.
fn buy_ticket_check(accounts: &BuyTicket, now: i64, expected_ata: &Option<Pubkey>) -> (r: Option<
    InstructionError,
>)
    ensures
        r == buy_ticket_error(*accounts, now, address_bytes(*expected_ata)),
{
    if accounts.event.status != EventStatus::Active {
        return Some(InstructionError::Event(EventError::EventNotActive));
    }
    if !(now < accounts.event.starts_at) {
        return Some(InstructionError::Event(EventError::SalesClosed));
    }
    if !(accounts.event.tickets_sold < accounts.event.capacity) {
        return Some(InstructionError::Event(EventError::SoldOut));
    }
    match expected_ata {
        Some(ata) => {
            if !accounts.buyer_ata.same_as(ata) {
                return Some(InstructionError::Event(EventError::InvalidTicketAccount));
            }
        },
        None => {
            return Some(InstructionError::Event(EventError::InvalidTicketAccount));
        },
    }
    if !accounts.event.hot_sale {
        return None;
    }
    let (sale, entry) = match (&accounts.sale, &accounts.entry) {
        (Some(sale), Some(entry)) => (sale, entry),
        _ => {
            return Some(InstructionError::Event(EventError::QueueEntryRequired));
        },
    };
    if !sale.event.same_as(&accounts.event_key) || !entry.event.same_as(&accounts.event_key)
        || !entry.buyer.same_as(&accounts.buyer) {
        return Some(InstructionError::Event(EventError::EntryMismatch));
    }
    if !sale.settled {
        return Some(InstructionError::Event(EventError::RandomnessNotSettled));
    }
    if entry.status != QueueStatus::Staked {
        return Some(InstructionError::Event(EventError::EntryNotStaked));
    }
    if !in_round(sale, entry, now) {
        return Some(InstructionError::Event(EventError::NotInClaimRound));
    }
    None
}

/// Whether the claim counter that an accepted purchase at `now` raises has
/// room, when the buyer's token account is the expected one (a purchase
/// through any other is refused before anything is raised).
pub open spec fn buy_ticket_fits_spec(accounts: BuyTicket, now: i64) -> bool {
    buy_ticket_error(accounts, now, Some(accounts.buyer_ata@)) is None && accounts.event.hot_sale
        ==> accounts.sale->0.claimed < u32::MAX
}

/// Tests whether `handle_buy_ticket` can run on these accounts at `now`
/// without its claim counter overflowing.
pub fn buy_ticket_fits(accounts: &BuyTicket, now: i64) -> (r: bool)
    ensures
        r == buy_ticket_fits_spec(*accounts, now),
{
    if buy_ticket_check(accounts, now, &Some(accounts.buyer_ata)).is_some() || !accounts.event.hot_sale {
        return true;
    }
    match &accounts.sale {
        Some(sale) => sale.claimed < u32::MAX,
        None => true,
    }
}

/// Sells a ticket of an active event at time `now`, given the buyer's token
/// account for the mint; see `buy_ticket_error` for when it is refused.
pub fn purchase_ticket(accounts: &mut BuyTicket, now: i64, expected_ata: &Option<Pubkey>) -> (r: Result<
    TicketPurchase,
    InstructionError,
>)
    requires
        buy_ticket_error(*old(accounts), now, address_bytes(*expected_ata)) is None && old(accounts).event.hot_sale
            ==> old(accounts).sale->0.claimed < u32::MAX,
    ensures
        match buy_ticket_error(*old(accounts), now, address_bytes(*expected_ata)) {
            Some(e) => r is Err && r->Err_0 == e && *final(accounts) == *old(accounts),
            None => r matches Ok(p) && is_purchase_of(*old(accounts), p) && *final(accounts)
                == buy_ticket_applied(*old(accounts)),
        },
        r is Ok ==> final(accounts).event.well_formed(),
{
    if let Some(e) = buy_ticket_check(accounts, now, expected_ata) {
        return Err(e);
    }
    let price = accounts.event.ticket_price_lamports;
    let mut payment = price;
    if accounts.event.hot_sale {
        match (&mut accounts.sale, &mut accounts.entry) {
            (Some(sale), Some(entry)) => {
                payment = price.saturating_sub(entry.stake_lamports);
                entry.status = QueueStatus::Claimed;
                sale.claimed = sale.claimed + 1;
            },
            _ => {},
        }
    }
    let ticket_number = accounts.event.tickets_sold + 1;
    let full_name = ticket_name(accounts.event.title.as_str(), ticket_number);
    let name = String::from_str(truncate_bytes(full_name.as_str(), TICKET_META_NAME_MAX));
    let symbol = String::from_str(truncate_bytes(TICKET_META_SYMBOL, TICKET_META_SYMBOL_MAX));
    let uri = String::from_str(truncate_bytes(accounts.event.image_uri.as_str(), TICKET_META_URI_MAX));
    let mint_space = ticket_mint_init_space() as u64;
    let mint_full_space = ticket_mint_full_space(name.as_str(), symbol.as_str(), uri.as_str());
    accounts.event.tickets_sold = ticket_number;
    let ticket = Ticket {
        event: accounts.event_key,
        buyer: accounts.buyer,
        mint: accounts.mint,
        status: TicketStatus::Valid,
        checked_in_at: 0,
    };
    Ok(
        TicketPurchase {
            payment,
            ticket_number,
            ticket,
            name,
            symbol,
            uri,
            mint_space,
            mint_full_space,
            log: TicketPurchased {
                event: accounts.event_key,
                buyer: accounts.buyer,
                ticket: accounts.ticket_key,
                mint: accounts.mint,
                ticket_number,
                price_lamports: price,
            },
        },
    )
}

/// Sells a ticket of an active event at time `now`: checks that the buyer's
/// token account is the one the associated-token program derives for the
/// buyer, the mint and the token program, then decides as `purchase_ticket`.
/// Where no such account can be derived, the purchase is refused as
/// `InvalidTicketAccount`.
pub fn handle_buy_ticket(accounts: &mut BuyTicket, now: i64) -> (r: Result<
    TicketPurchase,
    InstructionError,
>)
    requires
        buy_ticket_fits_spec(*old(accounts), now),
    ensures
        match buy_ticket_error(
            *old(accounts),
            now,
            associated_token_address(old(accounts).buyer@, old(accounts).mint@, old(accounts).token_program@),
        ) {
            Some(e) => r is Err && r->Err_0 == e && *final(accounts) == *old(accounts),
            None => r matches Ok(p) && is_purchase_of(*old(accounts), p) && *final(accounts)
                == buy_ticket_applied(*old(accounts)),
        },
        r is Ok ==> final(accounts).event.well_formed(),
{
    let expected_ata = associated_token_account(&accounts.buyer, &accounts.mint, &accounts.token_program);
    purchase_ticket(accounts, now, &expected_ata)
}

/// A queue entry claims at most one ticket: after an accepted hot-sale
/// purchase, buying again through the same entry is refused.
pub proof fn lemma_claim_once(accounts: BuyTicket, now: i64, expected_ata: Option<Seq<u8>>, later: i64)
    requires
        buy_ticket_error(accounts, now, expected_ata) is None,
        accounts.event.hot_sale,
    ensures
        buy_ticket_error(buy_ticket_applied(accounts), later, expected_ata) is Some,
{
}

/// Each accepted hot-sale purchase takes its entry off the pending count,
/// while the counts of finished entries do not exceed the queue.
pub proof fn lemma_claim_pending(accounts: BuyTicket, now: i64, expected_ata: Option<Seq<u8>>)
    requires
        buy_ticket_error(accounts, now, expected_ata) is None,
        accounts.event.hot_sale,
        accounts.sale->0.claimed + accounts.sale->0.settled_count + accounts.sale->0.forfeited_count
            < accounts.sale->0.total_entries,
    ensures
        buy_ticket_applied(accounts).sale->0.pending_spec() + 1 == accounts.sale->0.pending_spec(),
{
}

} // verus!
