//! A custodial collateral ledger.
//!
//! Each owner has one vault per asset. A vault splits the funds it holds into
//! a locked part, reserved against open obligations, and an available part,
//! free to withdraw. The transitions of a vault (deposit, withdraw, lock,
//! unlock, transfer between vaults, creation and closure) are guarded by
//! authorization rules and use checked arithmetic throughout, so that
//! `available + locked == total` holds after every one of them.
//!
//! The library decides and records; it moves no funds and stores nothing.
//! A transition that moves funds hands back the order for the asset-transfer
//! service, and the caller reports how that order fared.

pub mod address;
pub mod authority;
pub mod context;
pub mod engine;
pub mod error;
pub mod events;
pub mod lemmas;
pub mod pending;
pub mod transfer;
pub mod vault;

pub use address::Address;
pub use authority::{VaultAuthority, MAX_AUTHORIZED_PROGRAMS};
pub use context::{
    CloseVault, Deposit, InitializeAuthority, InitializeVault, LockCollateral, TransferCollateral,
    UnlockCollateral, UpdateAuthority, Withdraw,
};
pub use engine::{
    add_authorized_program, close_vault, deposit, initialize_authority, initialize_vault,
    lock_collateral, remove_authorized_program, transfer_collateral, unlock_collateral, withdraw,
};
pub use error::VaultError;
pub use events::{
    AuthorityInitialized, DepositEvent, LockEvent, ProgramAuthorized, ProgramDeauthorized,
    TransferEvent, UnlockEvent, VaultClosed, VaultInitialized, WithdrawEvent,
};
pub use pending::{PendingDeposit, PendingTransfer, PendingWithdraw};
pub use transfer::{TransferOrder, VaultSigner, VAULT_SEED};
pub use vault::CollateralVault;
