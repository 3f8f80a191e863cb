//! Error taxonomy of the engine.  Every operation returns one of these
//! synchronously; a returned error always leaves the game state unchanged.

use vstd::prelude::*;

verus! {

#[derive(Clone, Copy, Debug, PartialEq, Eq, Structural)]
pub enum BlockpolyError {
    /// Game is not in the waiting-for-players state
    GameNotWaiting,
    /// Game is full
    GameFull,
    /// Game has not started
    GameNotStarted,
    /// Game is already finished
    GameFinished,
    /// Not this player's turn
    NotYourTurn,
    /// Wrong turn phase for this action
    WrongTurnPhase,
    /// A randomness request is pending
    VRFPending,
    /// No randomness request is active
    VRFNotRequested,
    /// Property is not available for purchase
    PropertyNotAvailable,
    /// Property is already owned
    PropertyAlreadyOwned,
    /// Property is mortgaged
    PropertyMortgaged,
    /// Insufficient currency balance
    InsufficientBalance,
    /// Caller does not own this property
    NotPropertyOwner,
    /// The complete color group must be owned to build
    IncompleteColorSet,
    /// Must build evenly across the color group
    UnevenBuilding,
    /// Maximum number of liquidity pools reached
    MaxLPsReached,
    /// Property already has full-protocol status
    MaxProtocolReached,
    /// Player is currently in the Rug Pull Zone
    PlayerInRugPullZone,
    /// Player has declared bankruptcy
    PlayerBankrupt,
    /// Only the game host can perform this action
    HostOnly,
    /// A flash loan is already active
    FlashLoanAlreadyActive,
    /// Flash loan is overdue
    FlashLoanOverdue,
    /// Flash loan cannot be repaid yet
    FlashLoanTooEarly,
    /// Three consecutive doubles: go to the Rug Pull Zone
    TripleDoublesGoToJail,
    /// Invalid board space index
    InvalidSpaceIndex,
    /// Card deck is exhausted
    DeckExhausted,
    /// No auction is currently active
    AuctionNotActive,
    /// The auction has already been won
    AuctionAlreadyWon,
    /// Invalid trade offer
    InvalidTradeOffer,
    /// Trade offer has expired
    TradeExpired,
    /// Cannot mortgage a property that has buildings
    CannotMortgageWithBuildings,
    /// Bid must be higher than the current highest bid
    BidTooLow,
    /// Cannot unmortgage: insufficient balance
    CannotUnmortgage,
    /// Player is not in the Rug Pull Zone
    NotInRugPullZone,
    /// Player is still in the Rug Pull Zone
    StillInRugPullZone,
    /// No jail-free card held
    NoJailFreeCard,
    /// Dice not yet rolled this turn
    DiceNotRolled,
    /// Landing effect already resolved
    LandingAlreadyResolved,
    /// Arithmetic overflow
    ArithmeticOverflow,
    /// Invalid player count
    InvalidPlayerCount,
    /// Player already joined this game
    AlreadyJoined,
    /// Trade recipient is not in this game
    RecipientNotInGame,
}

} // verus!
