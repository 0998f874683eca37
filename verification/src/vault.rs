use crate::address::Address;
use crate::error::VaultError;
use vstd::prelude::*;

verus! {

/// The ledger record of one owner for one asset.
///
/// `owner`, `token_account`, `token_mint`, `created_at` and `bump` are set when
/// the vault is created and never change. `total_deposited` and
/// `total_withdrawn` only grow and no rule reads them.
#[derive(Clone, Copy, Debug, PartialEq, Eq)]
pub struct CollateralVault {
    /// Who controls the vault.
    pub owner: Address,
    /// Where the vault's funds are held in custody.
    pub token_account: Address,
    /// All funds held for the owner.
    pub total_balance: u64,
    /// The part of the total reserved against open obligations.
    pub locked_balance: u64,
    /// The part of the total free to withdraw or to lock.
    pub available_balance: u64,
    /// Sum of all deposits ever made.
    pub total_deposited: u64,
    /// Sum of all withdrawals ever made.
    pub total_withdrawn: u64,
    /// When the vault was created.
    pub created_at: i64,
    /// The bump of the vault's own signing authority.
    pub bump: u8,
    /// The asset the vault holds.
    pub token_mint: Address,
}

impl CollateralVault {
    /// The bookkeeping invariant: the available and the locked part make up the total.
    pub open spec fn balanced(&self) -> bool {
        self.available_balance + self.locked_balance == self.total_balance
    }

    /// A vault as it stands right after its creation.
    pub open spec fn opened(
        owner: Address,
        token_account: Address,
        token_mint: Address,
        bump: u8,
        created_at: i64,
    ) -> CollateralVault {
        CollateralVault {
            owner,
            token_account,
            total_balance: 0,
            locked_balance: 0,
            available_balance: 0,
            total_deposited: 0,
            total_withdrawn: 0,
            created_at,
            bump,
            token_mint,
        }
    }

    /// The vault after `amount` came in from its owner.
    pub open spec fn after_deposit(self, amount: u64) -> Result<CollateralVault, VaultError> {
        if amount == 0 {
            Err(VaultError::InvalidAmount)
        } else if self.total_balance + amount > u64::MAX || self.available_balance + amount
            > u64::MAX || self.total_deposited + amount > u64::MAX {
            Err(VaultError::Overflow)
        } else {
            Ok(
                CollateralVault {
                    total_balance: (self.total_balance + amount) as u64,
                    available_balance: (self.available_balance + amount) as u64,
                    total_deposited: (self.total_deposited + amount) as u64,
                    ..self
                },
            )
        }
    }

    /// The vault after `amount` went out to its owner.
    pub open spec fn after_withdraw(self, amount: u64) -> Result<CollateralVault, VaultError> {
        if amount == 0 {
            Err(VaultError::InvalidAmount)
        } else if self.available_balance < amount {
            Err(VaultError::InsufficientAvailableBalance)
        } else if self.total_balance < amount {
            Err(VaultError::Underflow)
        } else if self.total_withdrawn + amount > u64::MAX {
            Err(VaultError::Overflow)
        } else {
            Ok(
                CollateralVault {
                    total_balance: (self.total_balance - amount) as u64,
                    available_balance: (self.available_balance - amount) as u64,
                    total_withdrawn: (self.total_withdrawn + amount) as u64,
                    ..self
                },
            )
        }
    }

    /// The vault after `amount` of its available funds was reserved.
    pub open spec fn after_lock(self, amount: u64) -> Result<CollateralVault, VaultError> {
        if amount == 0 {
            Err(VaultError::InvalidAmount)
        } else if self.available_balance < amount {
            Err(VaultError::InsufficientAvailableBalance)
        } else if self.locked_balance + amount > u64::MAX {
            Err(VaultError::Overflow)
        } else {
            Ok(
                CollateralVault {
                    available_balance: (self.available_balance - amount) as u64,
                    locked_balance: (self.locked_balance + amount) as u64,
                    ..self
                },
            )
        }
    }

    /// The vault after `amount` of its locked funds was released.
    pub open spec fn after_unlock(self, amount: u64) -> Result<CollateralVault, VaultError> {
        if amount == 0 {
            Err(VaultError::InvalidAmount)
        } else if self.locked_balance < amount {
            Err(VaultError::InsufficientLockedBalance)
        } else if self.available_balance + amount > u64::MAX {
            Err(VaultError::Overflow)
        } else {
            Ok(
                CollateralVault {
                    locked_balance: (self.locked_balance - amount) as u64,
                    available_balance: (self.available_balance + amount) as u64,
                    ..self
                },
            )
        }
    }

    /// The vault after `amount` of its available funds left for another vault.
    pub open spec fn after_debit(self, amount: u64) -> Result<CollateralVault, VaultError> {
        if amount == 0 {
            Err(VaultError::InvalidAmount)
        } else if self.available_balance < amount {
            Err(VaultError::InsufficientAvailableBalance)
        } else if self.total_balance < amount {
            Err(VaultError::Underflow)
        } else {
            Ok(
                CollateralVault {
                    total_balance: (self.total_balance - amount) as u64,
                    available_balance: (self.available_balance - amount) as u64,
                    ..self
                },
            )
        }
    }

    /// The vault after `amount` arrived from another vault.
    pub open spec fn after_credit(self, amount: u64) -> Result<CollateralVault, VaultError> {
        if self.total_balance + amount > u64::MAX || self.available_balance + amount > u64::MAX {
            Err(VaultError::Overflow)
        } else {
            Ok(
                CollateralVault {
                    total_balance: (self.total_balance + amount) as u64,
                    available_balance: (self.available_balance + amount) as u64,
                    ..self
                },
            )
        }
    }

    /// Whether the vault may be closed, and if not, why.
    pub open spec fn closable(self) -> Result<(), VaultError> {
        if self.total_balance != 0 {
            Err(VaultError::VaultNotEmpty)
        } else if self.locked_balance != 0 {
            Err(VaultError::HasLockedCollateral)
        } else {
            Ok(())
        }
    }
}

} // verus!
