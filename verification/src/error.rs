use vstd::prelude::*;

verus! {

/// The program's own errors.
#[derive(Clone, Copy, Debug, PartialEq, Eq, Structural)]
pub enum EventError {
    InvalidSlug,
    InvalidTitle,
    InvalidDescription,
    InvalidVenue,
    InvalidCity,
    InvalidImageUri,
    InvalidStartDate,
    InvalidEndDate,
    InvalidCapacity,
    CapacityBelowSold,
    EventNotActive,
    EventAlreadyStarted,
    EventNotEnded,
    InvalidAmount,
    InvalidSalePhases,
    SalesClosed,
    SoldOut,
    InvalidTicketAccount,
    TicketEventMismatch,
    TicketAlreadyUsed,
    CheckInNotOpen,
    CheckInClosed,
    NotHotSale,
    EntryMismatch,
    RandomnessNotSettled,
    RegistrationClosed,
    AlreadySettled,
    EntryNotStaked,
    SettleTooEarly,
    QueueEntryRequired,
    NotInClaimRound,
    SaleParamsLocked,
    StakesPending,
}

/// Why an instruction was refused: one of the program's own errors, or an
/// account constraint that carries no error of its own.
#[derive(Clone, Copy, Debug, PartialEq, Eq, Structural)]
pub enum InstructionError {
    Event(EventError),
    /// An account's recorded owner (`has_one`) is not the account passed.
    ConstraintHasOne,
    /// A plain account constraint does not hold.
    ConstraintRaw,
    /// An account is not at the address it must have.
    ConstraintAddress,
}

} // verus!
