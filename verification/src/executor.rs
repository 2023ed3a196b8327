use vstd::prelude::*;
use crate::chain;
use crate::errors::RouterError;
use crate::events;
use crate::gate;
use crate::gate::Operation;
use crate::identity::Identity;
use crate::vault::RouterAccount;

verus! {

/// The outcome of a reserve-preserving native debit: the debited and the
/// credited balance, applied as one atomic pair or not at all.
pub open spec fn lamport_transfer_result(
    from_lamports: u64,
    to_lamports: u64,
    lamports: u64,
    keep_rent_exemption: bool,
    rent_exemption: u64,
) -> Result<(u64, u64), RouterError> {
    if keep_rent_exemption && (from_lamports as int) < lamports + rent_exemption {
        Err(RouterError::InsufficientFunds)
    } else if to_lamports + lamports > u64::MAX {
        Err(RouterError::AmountOverflow)
    } else if (from_lamports as int) < lamports {
        Err(RouterError::AmountOverflow)
    } else {
        Ok(((from_lamports - lamports) as u64, (to_lamports + lamports) as u64))
    }
}

/// Move `lamports` out of the vault's native balance.  With
/// `keep_rent_exemption` the debit succeeds only if the remaining balance
/// stays at or above `rent_exemption`, the ledger-mandated reserve floor for
/// the record's storage footprint.  Overflow of the credited side and
/// underflow of the debited side are fatal, never silently wrapped.
/// Returns the pair (new vault balance, new destination balance).
pub fn transfer_lamports_from_router(
    from_lamports: u64,
    to_lamports: u64,
    lamports: u64,
    keep_rent_exemption: bool,
    rent_exemption: u64,
) -> (r: Result<(u64, u64), RouterError>)
    ensures
        r == lamport_transfer_result(
            from_lamports,
            to_lamports,
            lamports,
            keep_rent_exemption,
            rent_exemption,
        ),
{
    if keep_rent_exemption {
        match lamports.checked_add(rent_exemption) {
            Some(needed) => {
                if from_lamports < needed {
                    return Err(RouterError::InsufficientFunds);
                }
            },
            None => {
                return Err(RouterError::InsufficientFunds);
            },
        }
    }
    match to_lamports.checked_add(lamports) {
        Some(new_to) => match from_lamports.checked_sub(lamports) {
            Some(new_from) => Ok((new_from, new_to)),
            None => Err(RouterError::AmountOverflow),
        },
        None => Err(RouterError::AmountOverflow),
    }
}

/// A native deposit into the vault, settled by the surrounding ledger's own
/// transfer: the depositing account only needs to cover the amount.
pub open spec fn native_deposit_result(
    from_lamports: u64,
    to_lamports: u64,
    lamports: u64,
) -> Result<(u64, u64), RouterError> {
    if (from_lamports as int) < lamports {
        Err(RouterError::InsufficientFunds)
    } else if to_lamports + lamports > u64::MAX {
        Err(RouterError::AmountOverflow)
    } else {
        Ok(((from_lamports - lamports) as u64, (to_lamports + lamports) as u64))
    }
}

/// A decided native-balance movement: both post-balances and the event line
/// to log, handed back to the shell that owns the accounts.
#[derive(Debug)]
pub struct NativeMove {
    pub from_balance: u64,
    pub to_balance: u64,
    pub event: String,
}

/// Swap-in by minting `amount` to the receiver, signed as the vault's own
/// authority.  Controller-only and pause-gated; the decided mint itself is
/// the ledger's.
pub fn swapin_mint(
    rec: &RouterAccount,
    caller: &Identity,
    tx: String,
    amount: u64,
    from_chainid: u64,
    to: &Identity,
) -> (r: Result<String, RouterError>)
    ensures
        r is Ok <==> gate::authorize_spec(Operation::SwapinMint, caller@, rec@) is Ok,
        r matches Err(e) ==> Err::<(), RouterError>(e) == gate::authorize_spec(
            Operation::SwapinMint,
            caller@,
            rec@,
        ),
        r matches Ok(line) ==> line@ == events::movement_event(
            "SwapinMint"@,
            tx@,
            chain::base58_text(to@),
            amount,
            from_chainid,
        ),
{
    match gate::authorize(Operation::SwapinMint, caller, rec) {
        Ok(_) => {
            let to_text = chain::identity_text(to);
            Ok(
                events::movement_event_text(
                    "SwapinMint",
                    tx.as_str(),
                    to_text.as_str(),
                    amount,
                    from_chainid,
                ),
            )
        },
        Err(e) => Err(e),
    }
}

/// Swap-in by transferring `amount` out of the vault's own token account,
/// which must be the canonical associated account for (vault, asset).
pub fn swapin_transfer(
    rec: &RouterAccount,
    caller: &Identity,
    tx: String,
    amount: u64,
    from_chainid: u64,
    router_key: &Identity,
    mint: &Identity,
    from: &Identity,
    to: &Identity,
) -> (r: Result<String, RouterError>)
    ensures
        r is Ok <==> gate::authorize_spec(Operation::SwapinTransfer, caller@, rec@) is Ok && from@
            == chain::associated_address(router_key@, mint@),
        gate::authorize_spec(Operation::SwapinTransfer, caller@, rec@) matches Err(e) ==> r == Err::<
            String,
            RouterError,
        >(e),
        gate::authorize_spec(Operation::SwapinTransfer, caller@, rec@) is Ok && from@
            != chain::associated_address(router_key@, mint@) ==> r == Err::<String, RouterError>(
            RouterError::SwapinTransferFromWrongAccount,
        ),
        r matches Ok(line) ==> line@ == events::movement_event(
            "SwapinTransfer"@,
            tx@,
            chain::base58_text(to@),
            amount,
            from_chainid,
        ),
{
    match gate::authorize(Operation::SwapinTransfer, caller, rec) {
        Ok(_) => {
            let ata = chain::associated_token_address(router_key, mint);
            if !from.equals(&ata) {
                return Err(RouterError::SwapinTransferFromWrongAccount);
            }
            let to_text = chain::identity_text(to);
            Ok(
                events::movement_event_text(
                    "SwapinTransfer",
                    tx.as_str(),
                    to_text.as_str(),
                    amount,
                    from_chainid,
                ),
            )
        },
        Err(e) => Err(e),
    }
}

/// Swap-in by moving native balance from the vault to the receiver, with
/// the vault's reserve floor preserved.
pub fn swapin_native(
    rec: &RouterAccount,
    caller: &Identity,
    tx: String,
    lamports: u64,
    from_chainid: u64,
    to: &Identity,
    vault_lamports: u64,
    to_lamports: u64,
    rent_exemption: u64,
) -> (r: Result<NativeMove, RouterError>)
    ensures
        gate::authorize_spec(Operation::SwapinNative, caller@, rec@) matches Err(e) ==> (r matches
            Err(e2) && e2 == e),
        gate::authorize_spec(Operation::SwapinNative, caller@, rec@) is Ok ==> match
        lamport_transfer_result(vault_lamports, to_lamports, lamports, true, rent_exemption) {
            Ok(p) => r matches Ok(m) && m.from_balance == p.0 && m.to_balance == p.1 && m.event@
                == events::movement_event(
                "SwapinNative"@,
                tx@,
                chain::base58_text(to@),
                lamports,
                from_chainid,
            ),
            Err(e) => r matches Err(e2) && e2 == e,
        },
{
    match gate::authorize(Operation::SwapinNative, caller, rec) {
        Ok(_) => match transfer_lamports_from_router(
            vault_lamports,
            to_lamports,
            lamports,
            true,
            rent_exemption,
        ) {
            Ok(balances) => {
                let to_text = chain::identity_text(to);
                let event = events::movement_event_text(
                    "SwapinNative",
                    tx.as_str(),
                    to_text.as_str(),
                    lamports,
                    from_chainid,
                );
                Ok(NativeMove { from_balance: balances.0, to_balance: balances.1, event })
            },
            Err(e) => Err(e),
        },
        Err(e) => Err(e),
    }
}

/// Swap-out by burning from the caller's account an asset whose issuance
/// authority must be the vault itself.  Permissionless at the caller level.
pub fn swapout_burn(
    rec: &RouterAccount,
    caller: &Identity,
    to: String,
    amount: u64,
    to_chainid: u64,
    router_key: &Identity,
    mint: &Identity,
    mint_authority: &Option<Identity>,
) -> (r: Result<String, RouterError>)
    ensures
        r is Ok <==> !rec@.paused && ((*mint_authority) matches Some(a) && a@ == router_key@),
        rec@.paused ==> r == Err::<String, RouterError>(RouterError::HasBeenSuspended),
        !rec@.paused && !((*mint_authority) matches Some(a) && a@ == router_key@) ==> r == Err::<
            String,
            RouterError,
        >(RouterError::InvalidRouterMintAuthority),
        r matches Ok(line) ==> line@ == events::movement_event(
            "SwapoutBurn"@,
            to@,
            chain::base58_text(mint@),
            amount,
            to_chainid,
        ),
{
    match gate::authorize(Operation::SwapoutBurn, caller, rec) {
        Ok(_) => {
            let authority_ok = match mint_authority {
                Some(a) => a.equals(router_key),
                None => false,
            };
            if !authority_ok {
                return Err(RouterError::InvalidRouterMintAuthority);
            }
            let mint_text = chain::identity_text(mint);
            Ok(
                events::movement_event_text(
                    "SwapoutBurn",
                    to.as_str(),
                    mint_text.as_str(),
                    amount,
                    to_chainid,
                ),
            )
        },
        Err(e) => Err(e),
    }
}

/// Swap-out by transferring the caller's tokens into the vault's canonical
/// associated account for the asset.
pub fn swapout_transfer(
    rec: &RouterAccount,
    caller: &Identity,
    to: String,
    amount: u64,
    to_chainid: u64,
    router_key: &Identity,
    mint: &Identity,
    to_account: &Identity,
) -> (r: Result<String, RouterError>)
    ensures
        r is Ok <==> !rec@.paused && to_account@ == chain::associated_address(router_key@, mint@),
        rec@.paused ==> r == Err::<String, RouterError>(RouterError::HasBeenSuspended),
        !rec@.paused && to_account@ != chain::associated_address(router_key@, mint@) ==> r == Err::<
            String,
            RouterError,
        >(RouterError::SwapoutTransferToWrongAccount),
        r matches Ok(line) ==> line@ == events::movement_event(
            "SwapoutTransfer"@,
            to@,
            chain::base58_text(mint@),
            amount,
            to_chainid,
        ),
{
    match gate::authorize(Operation::SwapoutTransfer, caller, rec) {
        Ok(_) => {
            let ata = chain::associated_token_address(router_key, mint);
            if !to_account.equals(&ata) {
                return Err(RouterError::SwapoutTransferToWrongAccount);
            }
            let mint_text = chain::identity_text(mint);
            Ok(
                events::movement_event_text(
                    "SwapoutTransfer",
                    to.as_str(),
                    mint_text.as_str(),
                    amount,
                    to_chainid,
                ),
            )
        },
        Err(e) => Err(e),
    }
}

/// Swap-out by depositing the caller's native balance into the vault.  The
/// vault is the receiver, so no reserve check applies.
pub fn swapout_native(
    rec: &RouterAccount,
    caller: &Identity,
    to: String,
    lamports: u64,
    to_chainid: u64,
    signer_lamports: u64,
    vault_lamports: u64,
) -> (r: Result<NativeMove, RouterError>)
    ensures
        rec@.paused ==> (r matches Err(e) && e == RouterError::HasBeenSuspended),
        !rec@.paused ==> match native_deposit_result(signer_lamports, vault_lamports, lamports) {
            Ok(p) => r matches Ok(m) && m.from_balance == p.0 && m.to_balance == p.1 && m.event@
                == events::movement_event(
                "SwapoutNative"@,
                to@,
                "native"@,
                lamports,
                to_chainid,
            ),
            Err(e) => r matches Err(e2) && e2 == e,
        },
{
    match gate::authorize(Operation::SwapoutNative, caller, rec) {
        Ok(_) => {
            if signer_lamports < lamports {
                return Err(RouterError::InsufficientFunds);
            }
            match vault_lamports.checked_add(lamports) {
                Some(new_vault) => {
                    let event = events::movement_event_text(
                        "SwapoutNative",
                        to.as_str(),
                        "native",
                        lamports,
                        to_chainid,
                    );
                    Ok(
                        NativeMove {
                            from_balance: signer_lamports - lamports,
                            to_balance: new_vault,
                            event,
                        },
                    )
                },
                None => Err(RouterError::AmountOverflow),
            }
        },
        Err(e) => Err(e),
    }
}

/// The controller's housekeeping withdrawal of native balance above the
/// reserve floor, to itself.  Controller-only, never pause-gated.
/// Returns the pair (new vault balance, new controller balance).
pub fn skim_lamports(
    rec: &RouterAccount,
    caller: &Identity,
    lamports: u64,
    vault_lamports: u64,
    mpc_lamports: u64,
    rent_exemption: u64,
) -> (r: Result<(u64, u64), RouterError>)
    ensures
        gate::authorize_spec(Operation::SkimLamports, caller@, rec@) matches Err(e) ==> (r matches
            Err(e2) && e2 == e),
        gate::authorize_spec(Operation::SkimLamports, caller@, rec@) is Ok ==> r
            == lamport_transfer_result(vault_lamports, mpc_lamports, lamports, true, rent_exemption),
{
    match gate::authorize(Operation::SkimLamports, caller, rec) {
        Ok(_) => transfer_lamports_from_router(
            vault_lamports,
            mpc_lamports,
            lamports,
            true,
            rent_exemption,
        ),
        Err(e) => Err(e),
    }
}

} // verus!
