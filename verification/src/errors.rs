//! Error taxonomy of the engine and the intents it issues to the host's
//! token ledger.

use vstd::prelude::*;

verus! {

/// Reason an engine operation aborts. Every failed operation leaves the
/// game state completely unchanged.
#[derive(Clone, Copy, Debug, PartialEq, Eq, Structural)]
pub enum CoreError {
    /// `initialize` was already performed.
    AlreadyInitialized,
    /// The caller of `pass_the_core` is not the current holder.
    NotHolder,
    /// The target of `pass_the_core` is the empty identity.
    ZeroTarget,
    /// The target already holds the token (the caller of `grab_core`, or a
    /// pass addressed to the sender).
    AlreadyHolding,
    /// The target of `pass_the_core` is the previous holder (no immediate
    /// pass-back).
    PreviousHolder,
    /// Sender and target share the same non-zero uniqueness handle.
    DuplicateIdentity,
    /// The token is not in meltdown, so it cannot be grabbed or respawned.
    StillStable,
    /// The token is in meltdown but the phoenix cooldown has not elapsed.
    CooldownActive,
    /// The caller of a privileged operation is not the admin.
    NotAdmin,
    /// The inactivity window required for an admin reset has not elapsed.
    InsufficientInactivity,
    /// The host's token ledger refused the requested mint or transfer.
    /// The engine never raises this itself: the host reports it when a
    /// planned intent is rejected, in which case no commit happens.
    LedgerRejected,
    /// Direct token transfers are blocked; possession moves only through
    /// the game's own operations.
    TransferBlocked,
}

/// Request the engine asks the host's token ledger to perform between the
/// plan and the commit of an operation. The ledger either performs it
/// atomically or rejects it, in which case the operation is not committed.
#[derive(Clone, Copy, Debug, PartialEq, Eq, Structural)]
pub enum LedgerIntent {
    /// Mint the token of a new generation to `owner`.
    Mint { owner: u64, generation: u64 },
    /// Move the token of generation `generation` from `from` to `to`.
    Transfer { from: u64, to: u64, generation: u64 },
}

} // verus!
