use vstd::prelude::*;
use crate::chain;
use crate::errors::RouterError;
use crate::events;
use crate::identity::Identity;
use crate::identity::zero_key;

verus! {

/// The seed label from which the vault's deterministic address is derived:
/// the ASCII bytes of `Router`.
pub open spec fn router_seed() -> Seq<u8> {
    seq![82u8, 111u8, 117u8, 116u8, 101u8, 114u8]
}

pub fn router_seed_bytes() -> (r: Vec<u8>)
    ensures
        r@ == router_seed(),
{
    let mut v: Vec<u8> = Vec::new();
    v.push(82u8);
    v.push(111u8);
    v.push(117u8);
    v.push(116u8);
    v.push(101u8);
    v.push(114u8);
    proof {
        assert(v@ =~= router_seed());
    }
    v
}

/// The mathematical value of a vault record.
pub ghost struct VaultView {
    pub mpc: Seq<u8>,
    pub bump: u8,
    pub pending_mpc: Seq<u8>,
    pub paused: bool,
}

/// The sole durable record this core owns: the controller (`mpc`), the
/// derivation nonce of the vault's own address (`bump`), the proposed
/// successor controller (`pending_mpc`, all-zero when none) and the pause
/// flag.
#[derive(Clone, Copy, Debug)]
pub struct RouterAccount {
    pub mpc: Identity,
    pub bump: u8,
    pub pending_mpc: Identity,
    pub paused: bool,
}

impl View for RouterAccount {
    type V = VaultView;

    open spec fn view(&self) -> VaultView {
        VaultView {
            mpc: self.mpc@,
            bump: self.bump,
            pending_mpc: self.pending_mpc@,
            paused: self.paused,
        }
    }
}

/// The record as initialization leaves it: the given controller, the given
/// nonce, no pending controller, not paused.
pub open spec fn initialized_vault(mpc: Seq<u8>, bump: u8) -> VaultView {
    VaultView { mpc, bump, pending_mpc: zero_key(), paused: false }
}

/// Proposing a successor only overwrites the pending slot; anyone may do it,
/// since the authorization happens at the apply step.
pub open spec fn change_mpc_step(v: VaultView, new: Seq<u8>) -> VaultView {
    VaultView { pending_mpc: new, ..v }
}

/// A rotation completes only for the exact identity previously proposed.
pub open spec fn apply_allowed(v: VaultView, caller: Seq<u8>) -> bool {
    v.pending_mpc == caller
}

pub open spec fn apply_mpc_step(v: VaultView, caller: Seq<u8>) -> VaultView {
    if apply_allowed(v, caller) {
        VaultView { mpc: caller, pending_mpc: zero_key(), ..v }
    } else {
        v
    }
}

pub open spec fn set_paused_step(v: VaultView, enable: bool) -> VaultView {
    VaultView { paused: enable, ..v }
}

/// The canonical derivation nonce of the vault's address under `program_id`.
pub open spec fn canonical_bump(program_id: Seq<u8>) -> Option<u8> {
    match chain::pda_derivation(router_seed(), program_id) {
        Some(p) => Some(p.1),
        None => None,
    }
}

/// Create the vault record.  The caller supplies the derivation nonce it
/// expects; a value other than the canonical one is rejected, so a stale or
/// fabricated nonce can never seed the record.
pub fn initialize(program_id: &Identity, mpc: &Identity, bump_seed: u8) -> (r: Result<
    RouterAccount,
    RouterError,
>)
    ensures
        r is Ok <==> canonical_bump(program_id@) == Some(bump_seed),
        r matches Ok(rec) ==> rec@ == initialized_vault(mpc@, bump_seed),
        r matches Err(e) ==> e == RouterError::InvalidArgument,
{
    let seed = router_seed_bytes();
    match chain::try_find_pda(&seed, program_id) {
        Some(pda) => {
            if pda.1 == bump_seed {
                Ok(
                    RouterAccount {
                        mpc: *mpc,
                        bump: bump_seed,
                        pending_mpc: Identity::zeroed(),
                        paused: false,
                    },
                )
            } else {
                Err(RouterError::InvalidArgument)
            }
        },
        None => Err(RouterError::InvalidArgument),
    }
}

/// Propose a successor controller.  No authorization: the check happens when
/// the successor itself applies.  Overwrites any unconsumed proposal.
pub fn change_mpc(rec: &mut RouterAccount, new: &Identity) -> (r: Result<(), RouterError>)
    ensures
        r is Ok,
        final(rec)@ == change_mpc_step(old(rec)@, new@),
{
    rec.pending_mpc = *new;
    Ok(())
}

/// Complete a rotation.  The caller must be the exact identity previously
/// proposed; otherwise the record keeps its controller and its pending
/// proposal unchanged.  On success the completed handover is logged.
pub fn apply_mpc(rec: &mut RouterAccount, signer: &Identity) -> (r: Result<String, RouterError>)
    ensures
        final(rec)@ == apply_mpc_step(old(rec)@, signer@),
        r is Ok <==> apply_allowed(old(rec)@, signer@),
        r matches Ok(line) ==> line@ == events::apply_mpc_event(
            chain::base58_text(old(rec)@.mpc),
            chain::base58_text(signer@),
        ),
        r matches Err(e) ==> e == RouterError::ApplyWrongAccount && *final(rec) == *old(rec),
{
    if rec.pending_mpc.equals(signer) {
        let old_text = chain::identity_text(&rec.mpc);
        let new_text = chain::identity_text(signer);
        rec.mpc = *signer;
        rec.pending_mpc = Identity::zeroed();
        Ok(events::apply_mpc_event_text(old_text.as_str(), new_text.as_str()))
    } else {
        Err(RouterError::ApplyWrongAccount)
    }
}

/// Toggle the pause flag.  Only the current controller may do so.
pub fn set_paused(rec: &mut RouterAccount, signer: &Identity, enable: bool) -> (r: Result<
    String,
    RouterError,
>)
    ensures
        r is Ok <==> signer@ == old(rec)@.mpc,
        r is Ok ==> final(rec)@ == set_paused_step(old(rec)@, enable),
        r matches Ok(line) ==> line@ == events::set_paused_event(enable),
        r matches Err(e) ==> e == RouterError::OnlyMPC && *final(rec) == *old(rec),
{
    if rec.mpc.equals(signer) {
        rec.paused = enable;
        Ok(events::set_paused_event_text(enable))
    } else {
        Err(RouterError::OnlyMPC)
    }
}

} // verus!
