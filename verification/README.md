# events

The rules of an on-chain event-ticketing program, as a verified library.

Organizers create events, edit them while they are active, cancel them and
withdraw what the vault holds once the event is over. Buyers buy tickets,
which the organizer checks in at the door. An event may run a *hot sale*:
buyers join a queue with a stake, a random shift is revealed from the most
recent slot hash, and each buyer may claim a ticket during the claim round of
their shifted place; stakes are refunded or forfeited once the sale is over.

## Layout

- `src/` — the verified library.
  - `state.rs`: accounts (`Event`, `Ticket`, `SaleState`, `QueueEntry`),
    parameters and their validation, queue places and claim rounds.
  - `text.rs`: slug validation, UTF-8-safe truncation, ticket names.
  - `instructions/`: one module per instruction. Each takes the accounts as
    plain values and decides: a `*_error` specification says, in order, why
    the instruction is refused; an applied specification says what the
    accounts become; the handler returns what to log and what to transfer.
    Lemmas there state what holds across calls (a ticket gets in once, a
    stake is settled once, queue places are handed out in order, ...).
  - `logs.rs`, `error.rs`, `constants.rs`.
- `tests/` — the scenarios of the program's integration tests, replayed
  against the library, and tests of each rule and error.
- `app/` — the Anchor program: account validation by address, clock and
  rent, transfers, mint creation, writing accounts back and logging.
