use router::Identity;
use router::RouterAccount;
use router::RouterError;
use router::set_paused;
use router::skim_lamports;
use router::swapin_mint;
use router::swapin_native;
use router::swapin_transfer;
use router::swapout_burn;
use router::swapout_native;
use router::swapout_transfer;
use router::transfer_lamports_from_router;

fn id(n: u8) -> Identity {
    Identity::new([n; 32])
}

fn fresh_vault(mpc: Identity) -> RouterAccount {
    RouterAccount { mpc, bump: 0, pending_mpc: Identity::zeroed(), paused: false }
}

fn pubkey_of(i: &Identity) -> anchor_lang::prelude::Pubkey {
    anchor_lang::prelude::Pubkey::new_from_array(i.key)
}

fn router_ata(router_key: &Identity, mint: &Identity) -> Identity {
    let ata = anchor_spl::associated_token::get_associated_token_address(
        &pubkey_of(router_key),
        &pubkey_of(mint),
    );
    Identity::new(ata.to_bytes())
}

#[test]
fn swapin_mint_requires_controller() {
    let mpc = id(1);
    let rec = fresh_vault(mpc);
    let err = swapin_mint(&rec, &id(9), "0xabc".to_string(), 5, 56, &id(4)).unwrap_err();
    assert_eq!(err, RouterError::OnlyMPC);
}

#[test]
fn swapin_mint_emits_event_line() {
    let mpc = id(1);
    let rec = fresh_vault(mpc);
    let to = id(4);
    let line = swapin_mint(&rec, &mpc, "0xabc".to_string(), 1500, 56, &to).unwrap();
    assert_eq!(line, format!("SwapinMint 0xabc {} 1500 56", pubkey_of(&to)));
}

#[test]
fn swapin_mint_renders_extreme_amounts() {
    let mpc = id(1);
    let rec = fresh_vault(mpc);
    let to = id(4);
    let line = swapin_mint(&rec, &mpc, "t".to_string(), u64::MAX, 0, &to).unwrap();
    assert_eq!(line, format!("SwapinMint t {} 18446744073709551615 0", pubkey_of(&to)));
}

#[test]
fn paused_vault_refuses_every_swap() {
    let mpc = id(1);
    let mut rec = fresh_vault(mpc);
    set_paused(&mut rec, &mpc, true).unwrap();
    let router_key = id(2);
    let mint = id(3);
    let other = id(4);
    let ata = router_ata(&router_key, &mint);
    assert_eq!(
        swapin_mint(&rec, &mpc, "t".to_string(), 1, 1, &other).unwrap_err(),
        RouterError::HasBeenSuspended
    );
    assert_eq!(
        swapin_transfer(&rec, &mpc, "t".to_string(), 1, 1, &router_key, &mint, &ata, &other)
            .unwrap_err(),
        RouterError::HasBeenSuspended
    );
    assert_eq!(
        swapin_native(&rec, &mpc, "t".to_string(), 1, 1, &other, 100, 0, 0).unwrap_err(),
        RouterError::HasBeenSuspended
    );
    assert_eq!(
        swapout_burn(&rec, &other, "d".to_string(), 1, 1, &router_key, &mint, &Some(router_key))
            .unwrap_err(),
        RouterError::HasBeenSuspended
    );
    assert_eq!(
        swapout_transfer(&rec, &other, "d".to_string(), 1, 1, &router_key, &mint, &ata)
            .unwrap_err(),
        RouterError::HasBeenSuspended
    );
    assert_eq!(
        swapout_native(&rec, &other, "d".to_string(), 1, 1, 100, 0).unwrap_err(),
        RouterError::HasBeenSuspended
    );
    // The controller's housekeeping skim stays available while paused.
    let (vault_after, mpc_after) = skim_lamports(&rec, &mpc, 10, 100, 0, 50).unwrap();
    assert_eq!((vault_after, mpc_after), (90, 10));
}

#[test]
fn swapin_transfer_demands_canonical_source() {
    let mpc = id(1);
    let rec = fresh_vault(mpc);
    let router_key = id(2);
    let mint = id(3);
    let to = id(4);
    let ata = router_ata(&router_key, &mint);
    let line =
        swapin_transfer(&rec, &mpc, "0x1".to_string(), 7, 66, &router_key, &mint, &ata, &to)
            .unwrap();
    assert_eq!(line, format!("SwapinTransfer 0x1 {} 7 66", pubkey_of(&to)));
    let err =
        swapin_transfer(&rec, &mpc, "0x1".to_string(), 7, 66, &router_key, &mint, &id(8), &to)
            .unwrap_err();
    assert_eq!(err, RouterError::SwapinTransferFromWrongAccount);
}

#[test]
fn swapin_native_preserves_reserve() {
    let mpc = id(1);
    let rec = fresh_vault(mpc);
    let to = id(4);
    // 100 - 20 would fall below the 90 floor: refused, nothing moves.
    let err = swapin_native(&rec, &mpc, "t".to_string(), 20, 1, &to, 100, 5, 90).unwrap_err();
    assert_eq!(err, RouterError::InsufficientFunds);
    // 100 - 10 == 90 stays exactly at the floor: allowed.
    let mv = swapin_native(&rec, &mpc, "t".to_string(), 10, 1, &to, 100, 5, 90).unwrap();
    assert_eq!((mv.from_balance, mv.to_balance), (90, 15));
    assert_eq!(mv.event, format!("SwapinNative t {} 10 1", pubkey_of(&to)));
}

#[test]
fn swapout_burn_demands_vault_issuance_authority() {
    let mpc = id(1);
    let rec = fresh_vault(mpc);
    let router_key = id(2);
    let mint = id(3);
    let caller = id(9);
    let err = swapout_burn(&rec, &caller, "dest".to_string(), 4, 2, &router_key, &mint, &Some(id(8)))
        .unwrap_err();
    assert_eq!(err, RouterError::InvalidRouterMintAuthority);
    let err =
        swapout_burn(&rec, &caller, "dest".to_string(), 4, 2, &router_key, &mint, &None).unwrap_err();
    assert_eq!(err, RouterError::InvalidRouterMintAuthority);
    let line =
        swapout_burn(&rec, &caller, "dest".to_string(), 4, 2, &router_key, &mint, &Some(router_key))
            .unwrap();
    assert_eq!(line, format!("SwapoutBurn dest {} 4 2", pubkey_of(&mint)));
}

#[test]
fn swapout_transfer_demands_canonical_destination() {
    let mpc = id(1);
    let rec = fresh_vault(mpc);
    let router_key = id(2);
    let mint = id(3);
    let caller = id(9);
    let ata = router_ata(&router_key, &mint);
    let line =
        swapout_transfer(&rec, &caller, "dest".to_string(), 4, 2, &router_key, &mint, &ata)
            .unwrap();
    assert_eq!(line, format!("SwapoutTransfer dest {} 4 2", pubkey_of(&mint)));
    let err =
        swapout_transfer(&rec, &caller, "dest".to_string(), 4, 2, &router_key, &mint, &id(8))
            .unwrap_err();
    assert_eq!(err, RouterError::SwapoutTransferToWrongAccount);
}

#[test]
fn swapout_native_moves_deposit_into_vault() {
    let mpc = id(1);
    let rec = fresh_vault(mpc);
    let caller = id(9);
    let mv = swapout_native(&rec, &caller, "dest".to_string(), 30, 2, 100, 7).unwrap();
    assert_eq!((mv.from_balance, mv.to_balance), (70, 37));
    assert_eq!(mv.event, "SwapoutNative dest native 30 2");
    let err = swapout_native(&rec, &caller, "dest".to_string(), 101, 2, 100, 7).unwrap_err();
    assert_eq!(err, RouterError::InsufficientFunds);
}

#[test]
fn skim_requires_controller_and_reserve() {
    let mpc = id(1);
    let rec = fresh_vault(mpc);
    let err = skim_lamports(&rec, &id(9), 10, 100, 0, 0).unwrap_err();
    assert_eq!(err, RouterError::OnlyMPC);
    // A vault at 1,000,000 with a floor of 890,880 can spare 50,000 ...
    let (vault_after, mpc_after) = skim_lamports(&rec, &mpc, 50_000, 1_000_000, 0, 890_880).unwrap();
    assert_eq!((vault_after, mpc_after), (950_000, 50_000));
    // ... but not 200,000 more.
    let err = skim_lamports(&rec, &mpc, 200_000, 950_000, 50_000, 890_880).unwrap_err();
    assert_eq!(err, RouterError::InsufficientFunds);
}

#[test]
fn lamport_transfer_never_wraps() {
    // Credit side would overflow: fatal error, never silently wrapped.
    let err = transfer_lamports_from_router(u64::MAX, u64::MAX, 1, false, 0).unwrap_err();
    assert_eq!(err, RouterError::AmountOverflow);
    // Debit side would underflow when the reserve check is off.
    let err = transfer_lamports_from_router(3, 0, 4, false, 0).unwrap_err();
    assert_eq!(err, RouterError::AmountOverflow);
    // Reserve requirement larger than any balance can cover.
    let err = transfer_lamports_from_router(u64::MAX, 0, u64::MAX, true, 1).unwrap_err();
    assert_eq!(err, RouterError::InsufficientFunds);
    // Plain success.
    assert_eq!(transfer_lamports_from_router(10, 5, 4, true, 6).unwrap(), (6, 9));
}
