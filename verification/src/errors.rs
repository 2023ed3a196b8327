use vstd::prelude::*;

verus! {

/// Why an operation was refused.  Every error aborts the whole operation
/// with no side effect on the vault record or any balance.
#[derive(Clone, Copy, Debug, PartialEq, Eq, Structural)]
pub enum RouterError {
    /// The supplied derivation nonce does not match the canonical one.
    InvalidArgument,
    /// The caller is not the current controller.
    OnlyMPC,
    /// The asset's issuance authority is not the vault itself.
    InvalidRouterMintAuthority,
    /// The swap-in source is not the vault's canonical associated account.
    SwapinTransferFromWrongAccount,
    /// The swap-out destination is not the vault's canonical associated account.
    SwapoutTransferToWrongAccount,
    /// The applying caller is not the proposed pending controller.
    ApplyWrongAccount,
    /// Swap operations are paused.
    HasBeenSuspended,
    /// A native debit would leave the vault below its reserve floor, or the
    /// debited account short of the amount.
    InsufficientFunds,
    /// A balance update would overflow.
    AmountOverflow,
}

} // verus!
