use vstd::prelude::*;

verus! {

/// The reasons for which the program refuses an instruction.
#[derive(Debug, Clone, Copy, PartialEq, Eq, Structural)]
pub enum RoundError {
    /// The signer is not the owner recorded in the global state.
    NotAllowedOwner,
    /// The round index does not follow the last round, or is not the current round.
    InvalidRoundIndex,
    /// A chad-mode holder must own at least 4 slots.
    NotEnoughAmountForChadMod,
    /// The round is not finished yet.
    RoundNotFinished,
    /// The purchase would exceed the slots that the round offers.
    OverMaxSlot,
    /// The amount is too small to buy in chad mode.
    SmallAmount,
    /// The user already bought slots in this round.
    AlreadyBuySlot,
    /// The round is already finished.
    AlreadyFinish,
    /// The slots were already claimed.
    AlreadyClaim,
    /// The current round is being processed.
    Processing,
    /// The account is not initialized.
    UninitializedAccount,
    /// The fee is over the maximum fee.
    MaxFeeError,
    /// The amount must be greater than zero.
    ZeroAmount,
    /// The reference account is not the one recorded for the user.
    InvalidReference,
    /// The user cannot claim while chad mode is on.
    UnAbleToClaim,
}

} // verus!
