//! Authorization and custody core of a cross-chain bridge router.
//!
//! A single pooled vault, controlled by a rotating administrative key (the
//! MPC controller), mediates minting, burning and transferring of value in
//! response to cross-chain swap events.  This crate holds the policy layer:
//! which caller may invoke which operation, under what vault state, with the
//! vault's native reserve preserved on every debit, and how authority is
//! rotated in two phases without a window where the vault is unowned.
//!
//! The asset ledger itself (mint / burn / transfer mechanics) is an external
//! collaborator; the decisions this crate makes are handed back to a thin
//! on-chain shell that performs the actual calls.

pub mod chain;
pub mod errors;
pub mod events;
pub mod executor;
pub mod gate;
pub mod identity;
pub mod laws;
pub mod vault;

pub use errors::RouterError;
pub use executor::NativeMove;
pub use executor::skim_lamports;
pub use executor::swapin_mint;
pub use executor::swapin_native;
pub use executor::swapin_transfer;
pub use executor::swapout_burn;
pub use executor::swapout_native;
pub use executor::swapout_transfer;
pub use executor::transfer_lamports_from_router;
pub use gate::Operation;
pub use gate::authorize;
pub use identity::Identity;
pub use identity::zero_key;
pub use vault::RouterAccount;
pub use vault::VaultView;
pub use vault::apply_mpc;
pub use vault::change_mpc;
pub use vault::initialize;
pub use vault::set_paused;
