use router::Identity;
use router::RouterAccount;
use router::RouterError;
use router::apply_mpc;
use router::change_mpc;
use router::initialize;
use router::set_paused;

fn id(n: u8) -> Identity {
    Identity::new([n; 32])
}

fn fresh_vault(mpc: Identity) -> RouterAccount {
    RouterAccount { mpc, bump: 0, pending_mpc: Identity::zeroed(), paused: false }
}

fn pubkey_of(i: &Identity) -> anchor_lang::prelude::Pubkey {
    anchor_lang::prelude::Pubkey::new_from_array(i.key)
}

#[test]
fn initialize_accepts_canonical_nonce() {
    let program_id = id(7);
    let (_, bump) =
        anchor_lang::prelude::Pubkey::find_program_address(&[b"Router"], &pubkey_of(&program_id));
    let mpc = id(1);
    let rec = initialize(&program_id, &mpc, bump).unwrap();
    assert!(rec.mpc.equals(&mpc));
    assert_eq!(rec.bump, bump);
    assert!(rec.pending_mpc.equals(&Identity::zeroed()));
    assert!(!rec.paused);
}

#[test]
fn initialize_rejects_stale_nonce() {
    let program_id = id(7);
    let (_, bump) =
        anchor_lang::prelude::Pubkey::find_program_address(&[b"Router"], &pubkey_of(&program_id));
    let mpc = id(1);
    let err = initialize(&program_id, &mpc, bump.wrapping_sub(1)).unwrap_err();
    assert_eq!(err, RouterError::InvalidArgument);
}

#[test]
fn change_then_apply_rotates_controller() {
    let mpc = id(1);
    let successor = id(2);
    let mut rec = fresh_vault(mpc);
    change_mpc(&mut rec, &successor).unwrap();
    assert!(rec.pending_mpc.equals(&successor));
    let line = apply_mpc(&mut rec, &successor).unwrap();
    assert!(rec.mpc.equals(&successor));
    assert!(rec.pending_mpc.is_zeroed());
    assert_eq!(
        line,
        format!("ApplyNewMpc transfer from {} to {}", pubkey_of(&mpc), pubkey_of(&successor))
    );
}

#[test]
fn superseded_proposal_cannot_apply() {
    let mpc = id(1);
    let p1 = id(2);
    let p2 = id(3);
    let mut rec = fresh_vault(mpc);
    change_mpc(&mut rec, &p1).unwrap();
    change_mpc(&mut rec, &p2).unwrap();
    let err = apply_mpc(&mut rec, &p1).unwrap_err();
    assert_eq!(err, RouterError::ApplyWrongAccount);
    assert!(rec.mpc.equals(&mpc));
    assert!(rec.pending_mpc.equals(&p2));
    apply_mpc(&mut rec, &p2).unwrap();
    assert!(rec.mpc.equals(&p2));
}

#[test]
fn apply_without_proposal_is_refused() {
    let mpc = id(1);
    let intruder = id(9);
    let mut rec = fresh_vault(mpc);
    let err = apply_mpc(&mut rec, &intruder).unwrap_err();
    assert_eq!(err, RouterError::ApplyWrongAccount);
    assert!(rec.mpc.equals(&mpc));
}

#[test]
fn set_paused_requires_controller() {
    let mpc = id(1);
    let intruder = id(9);
    let mut rec = fresh_vault(mpc);
    let err = set_paused(&mut rec, &intruder, true).unwrap_err();
    assert_eq!(err, RouterError::OnlyMPC);
    assert!(!rec.paused);
}

#[test]
fn set_paused_toggles_and_logs() {
    let mpc = id(1);
    let mut rec = fresh_vault(mpc);
    let line = set_paused(&mut rec, &mpc, true).unwrap();
    assert!(rec.paused);
    assert_eq!(line, "set paused to true");
    let line = set_paused(&mut rec, &mpc, false).unwrap();
    assert!(!rec.paused);
    assert_eq!(line, "set paused to false");
}
