use vstd::prelude::*;
use crate::errors::RouterError;
use crate::identity::Identity;
use crate::vault::RouterAccount;
use crate::vault::VaultView;

verus! {

/// Every operation the vault offers, one variant each.
#[derive(Clone, Copy, Debug, PartialEq, Eq, Structural)]
pub enum Operation {
    SwapinMint,
    SwapinTransfer,
    SwapinNative,
    SwapoutBurn,
    SwapoutTransfer,
    SwapoutNative,
    SkimLamports,
    ChangeMpc,
    ApplyMpc,
    SetPaused,
}

/// The swap movements: exactly what the pause flag blocks.  Authority
/// management and the controller's own skim are never pause-gated.
pub open spec fn pause_gated(op: Operation) -> bool {
    match op {
        Operation::SwapinMint => true,
        Operation::SwapinTransfer => true,
        Operation::SwapinNative => true,
        Operation::SwapoutBurn => true,
        Operation::SwapoutTransfer => true,
        Operation::SwapoutNative => true,
        _ => false,
    }
}

/// Operations only the current controller may invoke: the whole swap-in
/// side, the housekeeping skim and the pause toggle.  The swap-out side is
/// deliberately permissionless at the caller level; its safety comes from
/// the account constraints the executor checks instead.
pub open spec fn controller_gated(op: Operation) -> bool {
    match op {
        Operation::SwapinMint => true,
        Operation::SwapinTransfer => true,
        Operation::SwapinNative => true,
        Operation::SkimLamports => true,
        Operation::SetPaused => true,
        _ => false,
    }
}

/// The whole per-operation authorization policy, as one decision function:
/// first the caller-identity requirement, then the pause gate.  Proposing a
/// new controller is open to anyone; applying one is allowed exactly to the
/// pending identity.
pub open spec fn authorize_spec(op: Operation, caller: Seq<u8>, v: VaultView) -> Result<
    (),
    RouterError,
> {
    if controller_gated(op) && caller != v.mpc {
        Err(RouterError::OnlyMPC)
    } else if op is ApplyMpc && caller != v.pending_mpc {
        Err(RouterError::ApplyWrongAccount)
    } else if pause_gated(op) && v.paused {
        Err(RouterError::HasBeenSuspended)
    } else {
        Ok(())
    }
}

pub fn is_pause_gated(op: Operation) -> (r: bool)
    ensures
        r == pause_gated(op),
{
    match op {
        Operation::SwapinMint => true,
        Operation::SwapinTransfer => true,
        Operation::SwapinNative => true,
        Operation::SwapoutBurn => true,
        Operation::SwapoutTransfer => true,
        Operation::SwapoutNative => true,
        _ => false,
    }
}

pub fn is_controller_gated(op: Operation) -> (r: bool)
    ensures
        r == controller_gated(op),
{
    match op {
        Operation::SwapinMint => true,
        Operation::SwapinTransfer => true,
        Operation::SwapinNative => true,
        Operation::SkimLamports => true,
        Operation::SetPaused => true,
        _ => false,
    }
}

/// Decide whether `caller` may run `op` against the vault in state `rec`.
pub fn authorize(op: Operation, caller: &Identity, rec: &RouterAccount) -> (r: Result<
    (),
    RouterError,
>)
    ensures
        r == authorize_spec(op, caller@, rec@),
{
    if is_controller_gated(op) && !caller.equals(&rec.mpc) {
        Err(RouterError::OnlyMPC)
    } else if matches!(op, Operation::ApplyMpc) && !caller.equals(&rec.pending_mpc) {
        Err(RouterError::ApplyWrongAccount)
    } else if is_pause_gated(op) && rec.paused {
        Err(RouterError::HasBeenSuspended)
    } else {
        Ok(())
    }
}

} // verus!
