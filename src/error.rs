use vstd::prelude::*;

verus! {

/// Why a call into the contract was rejected. A rejected call changes nothing.
#[derive(Debug, Clone, Copy, PartialEq, Eq, Structural)]
pub enum ContractError {
    /// The requested note id has never been handed out.
    NoteDoesNotExist,
    /// The account has no entry in the store that was queried.
    NoEntry,
    /// The caller is not on the manager allow-list.
    NotManager,
    /// The managers would be left empty.
    LastManager,
    /// The attached payment does not cover the storage that was used.
    NotEnoughDeposit,
    /// A note was sent with less than the minimum deposit.
    MinimumDeposit,
    /// An exchange below the minimum for its direction.
    MinAmount,
    /// The calling token ledger is neither of the configured ones.
    TokenNotSupported,
    /// A point balance would go below zero.
    PointsUnderflow,
    /// A point balance or an amount would not fit in 128 bits.
    AmountOverflow,
    /// Every note id has been handed out.
    IdsExhausted,
    /// No code was supplied for an upgrade.
    NoInput,
    /// The contract is paused.
    Paused,
}

impl ContractError {
    /// The rejection reason shown to callers.
    pub fn message(&self) -> &'static str {
        match self {
            ContractError::NoteDoesNotExist => "Note does not exist",
            ContractError::NoEntry => "no entry",
            ContractError::NotManager => "ERR_NOT_MANAGER",
            ContractError::LastManager => "ERR_LAST_MANAGER",
            ContractError::NotEnoughDeposit => "not enough attached deposit",
            ContractError::MinimumDeposit => "Minimum deposit is 1 FT",
            ContractError::MinAmount => "ERR_MIN_AMOUNT",
            ContractError::TokenNotSupported => "Token not supported",
            ContractError::PointsUnderflow => "ERR_POINTS_UNDERFLOW",
            ContractError::AmountOverflow => "ERR_AMOUNT_OVERFLOW",
            ContractError::IdsExhausted => "ERR_IDS_EXHAUSTED",
            ContractError::NoInput => "Error: No input",
            ContractError::Paused => "ERR_PAUSED",
        }
    }
}

} // verus!
