use vstd::prelude::*;
use crate::errors::RouterError;
use crate::executor;
use crate::gate;
use crate::gate::Operation;
use crate::identity::zero_key;
use crate::vault;
use crate::vault::VaultView;

verus! {

/// An overwritten proposal is dead: after proposing `p1` and then `p2`
/// (two distinct identities), an apply by `p1` is refused and leaves the
/// record — in particular its controller — unchanged; only `p2` may still
/// complete the rotation.
pub proof fn lemma_superseded_proposal_cannot_apply(v: VaultView, p1: Seq<u8>, p2: Seq<u8>)
    requires
        p1 != p2,
    ensures
        ({
            let proposed = vault::change_mpc_step(vault::change_mpc_step(v, p1), p2);
            &&& !vault::apply_allowed(proposed, p1)
            &&& vault::apply_mpc_step(proposed, p1) == proposed
            &&& vault::apply_mpc_step(proposed, p1).mpc == v.mpc
            &&& vault::apply_allowed(proposed, p2)
        }),
{
}

/// Rotation round trip: proposing `x` and then applying as `x` makes `x`
/// the controller and clears the pending slot.
pub proof fn lemma_rotation_round_trip(v: VaultView, x: Seq<u8>)
    ensures
        ({
            let proposed = vault::change_mpc_step(v, x);
            &&& vault::apply_allowed(proposed, x)
            &&& vault::apply_mpc_step(proposed, x).mpc == x
            &&& vault::apply_mpc_step(proposed, x).pending_mpc == zero_key()
        }),
{
}

/// Once paused, every swap movement is refused for being suspended, even
/// for a caller that satisfies the operation's identity requirement.
pub proof fn lemma_pause_blocks_swaps(v: VaultView, caller: Seq<u8>, op: Operation)
    requires
        gate::pause_gated(op),
        gate::controller_gated(op) ==> caller == v.mpc,
    ensures
        gate::authorize_spec(op, caller, vault::set_paused_step(v, true)) == Err::<(), RouterError>(
            RouterError::HasBeenSuspended,
        ),
{
}

/// Pausing never blocks the controller's housekeeping skim, nor any
/// authority-management operation.
pub proof fn lemma_pause_spares_management(v: VaultView, caller: Seq<u8>, op: Operation)
    requires
        !gate::pause_gated(op),
        gate::controller_gated(op) ==> caller == v.mpc,
        op is ApplyMpc ==> caller == v.pending_mpc,
    ensures
        gate::authorize_spec(op, caller, vault::set_paused_step(v, true)) is Ok,
{
}

/// The vault is never left unowned: no authority operation unsets the
/// controller, provided appliers are real signers (never the all-zero
/// sentinel, which stands for "none" and cannot sign).
pub proof fn lemma_controller_never_unset(v: VaultView, caller: Seq<u8>, new: Seq<u8>, enable: bool)
    requires
        v.mpc != zero_key(),
        caller != zero_key(),
    ensures
        vault::change_mpc_step(v, new).mpc == v.mpc,
        vault::apply_mpc_step(v, caller).mpc != zero_key(),
        vault::set_paused_step(v, enable).mpc == v.mpc,
{
}

/// The reserve floor guards every vault debit: a request the balance cannot
/// cover on top of the floor fails with insufficient funds and moves
/// nothing, and a successful debit both leaves the vault at or above the
/// floor and conserves the total of the two balances.
pub proof fn lemma_reserve_guard(from: u64, to: u64, lamports: u64, rent_exemption: u64)
    ensures
        (from as int) < lamports + rent_exemption ==> executor::lamport_transfer_result(
            from,
            to,
            lamports,
            true,
            rent_exemption,
        ) == Err::<(u64, u64), RouterError>(RouterError::InsufficientFunds),
        executor::lamport_transfer_result(from, to, lamports, true, rent_exemption) matches Ok(p)
            ==> p.0 >= rent_exemption && p.0 + p.1 == from + to,
{
}

} // verus!
