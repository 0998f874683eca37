use crate::address::Address;
use vstd::prelude::*;

verus! {

/// A vault was created.
#[derive(Clone, Copy, Debug, PartialEq, Eq)]
pub struct VaultInitialized {
    pub user: Address,
    pub vault: Address,
    pub token_mint: Address,
    pub timestamp: i64,
}

/// Funds entered a vault.
#[derive(Clone, Copy, Debug, PartialEq, Eq)]
pub struct DepositEvent {
    pub user: Address,
    pub vault: Address,
    pub amount: u64,
    /// The vault's total after the deposit.
    pub new_balance: u64,
    pub timestamp: i64,
}

/// Funds left a vault for its owner.
#[derive(Clone, Copy, Debug, PartialEq, Eq)]
pub struct WithdrawEvent {
    pub user: Address,
    pub vault: Address,
    pub amount: u64,
    /// The vault's total after the withdrawal.
    pub new_balance: u64,
    pub timestamp: i64,
}

/// Available funds were reserved.
#[derive(Clone, Copy, Debug, PartialEq, Eq)]
pub struct LockEvent {
    pub vault: Address,
    pub amount: u64,
    pub locked_balance: u64,
    pub available_balance: u64,
    pub caller: Address,
    pub timestamp: i64,
}

/// Reserved funds were released.
#[derive(Clone, Copy, Debug, PartialEq, Eq)]
pub struct UnlockEvent {
    pub vault: Address,
    pub amount: u64,
    pub locked_balance: u64,
    pub available_balance: u64,
    pub caller: Address,
    pub timestamp: i64,
}

/// Funds moved from one vault to another.
#[derive(Clone, Copy, Debug, PartialEq, Eq)]
pub struct TransferEvent {
    pub from_vault: Address,
    pub to_vault: Address,
    pub amount: u64,
    pub caller: Address,
    pub timestamp: i64,
}

/// A vault was closed.
#[derive(Clone, Copy, Debug, PartialEq, Eq)]
pub struct VaultClosed {
    pub user: Address,
    pub vault: Address,
    pub timestamp: i64,
}

/// The registry of authorized programs was created.
#[derive(Clone, Debug, PartialEq, Eq)]
pub struct AuthorityInitialized {
    pub admin: Address,
    pub authority: Address,
    pub authorized_programs: Vec<Address>,
    pub timestamp: i64,
}

/// A program was added to the registry.
#[derive(Clone, Copy, Debug, PartialEq, Eq)]
pub struct ProgramAuthorized {
    pub admin: Address,
    pub program: Address,
    pub timestamp: i64,
}

/// A program was removed from the registry.
#[derive(Clone, Copy, Debug, PartialEq, Eq)]
pub struct ProgramDeauthorized {
    pub admin: Address,
    pub program: Address,
    pub timestamp: i64,
}

} // verus!
