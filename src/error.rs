use vstd::prelude::*;

verus! {

/// Every way a decode or a transition can be refused.
#[derive(Clone, Copy, Debug, PartialEq, Eq, Structural)]
pub enum RpsError {
    /// A record is shorter than its fixed width.
    TruncatedInput,
    /// A record holds a move tag outside `0..=3`.
    InvalidMoveTag,
    /// The instruction buffer is empty.
    EmptyInstruction,
    /// The instruction's operand is shorter than its tag demands.
    TruncatedOperand,
    /// The instruction tag is not one of the known commands.
    UnknownInstruction,
    /// `Init` on a record that is already initialized.
    AlreadyInitialized,
    /// A transition other than `Init` on a record that was never initialized.
    NotInitialized,
    /// `Init` with the all-zero asset, which would leave the record uninitialized.
    InvalidAsset,
    /// `PlaceChallenge` when no player slot is free.
    SlotOccupied,
    /// `Crank` (or arbitration) before both players are in.
    IncompleteMatch,
    /// `Crank` on a match that was already resolved.
    AlreadyResolved,
    /// `WithdrawFees` before the match was resolved.
    NotResolved,
    /// The storage or signer check of the collaborator layer failed.
    AccessDenied,
    /// A revealed move does not hash to the stored commitment.
    CommitmentMismatch,
    /// Twice the stake does not fit in a `u64`.
    StakeOverflow,
}

} // verus!
