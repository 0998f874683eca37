use crate::address::Address;
use crate::authority::VaultAuthority;
use crate::error::VaultError;
use crate::transfer::{TransferOrder, VaultSigner};
use crate::vault::CollateralVault;
use vstd::prelude::*;

verus! {

/// What the creation of the registry works on. `admin` is the verified caller.
#[derive(Clone, Copy, Debug, PartialEq, Eq)]
pub struct InitializeAuthority {
    pub admin: Address,
    /// Where the registry is stored.
    pub vault_authority_key: Address,
    /// The bump of that address.
    pub bump: u8,
}

/// What the creation of a vault works on. `user` is the verified caller and
/// becomes the owner.
#[derive(Clone, Copy, Debug, PartialEq, Eq)]
pub struct InitializeVault {
    pub user: Address,
    pub token_mint: Address,
    /// Where the vault is stored.
    pub vault_key: Address,
    /// The bump of that address.
    pub bump: u8,
    /// The custodial holding of the new vault.
    pub vault_token_account: Address,
}

/// What a deposit works on. `user` is the verified caller.
#[derive(Clone, Copy, Debug, PartialEq, Eq)]
pub struct Deposit {
    pub user: Address,
    /// Where the vault is stored.
    pub vault_key: Address,
    pub vault: CollateralVault,
    /// The asset offered.
    pub token_mint: Address,
    pub token_decimals: u8,
    /// The owner's own holding, which is debited.
    pub user_token_account: Address,
    /// The vault's custodial holding, which is credited.
    pub vault_token_account: Address,
}

/// What a lock works on. `signer` is the verified caller.
#[derive(Clone, Debug, PartialEq, Eq)]
pub struct LockCollateral {
    pub signer: Address,
    /// Where the vault is stored.
    pub vault_key: Address,
    pub vault: CollateralVault,
    pub vault_authority: VaultAuthority,
}

/// What an unlock works on. `signer` is the verified caller.
#[derive(Clone, Debug, PartialEq, Eq)]
pub struct UnlockCollateral {
    pub signer: Address,
    /// Where the vault is stored.
    pub vault_key: Address,
    pub vault: CollateralVault,
    pub vault_authority: VaultAuthority,
}

/// What a withdrawal works on. `user` is the verified caller.
#[derive(Clone, Copy, Debug, PartialEq, Eq)]
pub struct Withdraw {
    pub user: Address,
    /// Where the vault is stored.
    pub vault_key: Address,
    pub vault: CollateralVault,
    /// The asset asked for.
    pub token_mint: Address,
    pub token_decimals: u8,
    /// The owner's own holding, which is credited.
    pub user_token_account: Address,
    /// The vault's custodial holding, which is debited.
    pub vault_token_account: Address,
}

/// What a transfer between two vaults works on. `signer` is the verified caller.
#[derive(Clone, Debug, PartialEq, Eq)]
pub struct TransferCollateral {
    pub signer: Address,
    /// Where the source vault is stored.
    pub from_vault_key: Address,
    pub from_vault: CollateralVault,
    /// Where the destination vault is stored.
    pub to_vault_key: Address,
    pub to_vault: CollateralVault,
    pub vault_authority: VaultAuthority,
    pub token_mint: Address,
    pub token_decimals: u8,
    /// The custodial holding of the source vault, which is debited.
    pub from_vault_token_account: Address,
    /// The custodial holding of the destination vault, which is credited.
    pub to_vault_token_account: Address,
}

/// What the closure of a vault works on. `user` is the verified caller.
#[derive(Clone, Copy, Debug, PartialEq, Eq)]
pub struct CloseVault {
    pub user: Address,
    /// Where the vault is stored.
    pub vault_key: Address,
    pub vault: CollateralVault,
}

/// What a change of the registry works on. `admin` is the verified caller.
#[derive(Clone, Debug, PartialEq, Eq)]
pub struct UpdateAuthority {
    pub admin: Address,
    pub vault_authority: VaultAuthority,
}

impl Deposit {
    /// Whether the caller may deposit this asset into this vault, and if not, why.
    pub open spec fn admission(&self) -> Result<(), VaultError> {
        if self.vault.owner != self.user {
            Err(VaultError::Unauthorized)
        } else if self.token_mint != self.vault.token_mint {
            Err(VaultError::InvalidTokenMint)
        } else {
            Ok(())
        }
    }

    /// The vault after the deposit, or why the deposit is rejected.
    pub open spec fn outcome(&self, amount: u64) -> Result<CollateralVault, VaultError> {
        match self.admission() {
            Err(e) => Err(e),
            Ok(_) => self.vault.after_deposit(amount),
        }
    }

    /// The order that moves the funds from the owner's holding into custody,
    /// signed by the owner.
    pub open spec fn order(&self, amount: u64) -> TransferOrder {
        TransferOrder {
            from: self.user_token_account,
            mint: self.token_mint,
            to: self.vault_token_account,
            authority: self.user,
            amount,
            decimals: self.token_decimals,
            signer: None,
        }
    }
}

impl Withdraw {
    /// Whether the caller may withdraw this asset from this vault, and if not, why.
    pub open spec fn admission(&self) -> Result<(), VaultError> {
        if self.vault.owner != self.user {
            Err(VaultError::Unauthorized)
        } else if self.token_mint != self.vault.token_mint {
            Err(VaultError::InvalidTokenMint)
        } else {
            Ok(())
        }
    }

    /// The vault after the withdrawal, or why the withdrawal is rejected.
    pub open spec fn outcome(&self, amount: u64) -> Result<CollateralVault, VaultError> {
        match self.admission() {
            Err(e) => Err(e),
            Ok(_) => self.vault.after_withdraw(amount),
        }
    }

    /// The order that moves the funds out of custody into the owner's
    /// holding, signed by the vault itself.
    pub open spec fn order(&self, amount: u64) -> TransferOrder {
        TransferOrder {
            from: self.vault_token_account,
            mint: self.token_mint,
            to: self.user_token_account,
            authority: self.vault_key,
            amount,
            decimals: self.token_decimals,
            signer: Some(VaultSigner { owner: self.vault.owner, bump: self.vault.bump }),
        }
    }
}

impl LockCollateral {
    /// The vault after the lock, or why the lock is rejected.
    pub open spec fn outcome(&self, amount: u64) -> Result<CollateralVault, VaultError> {
        if !self.vault_authority.authorizes(self.signer) {
            Err(VaultError::UnauthorizedProgram)
        } else {
            self.vault.after_lock(amount)
        }
    }
}

impl UnlockCollateral {
    /// The vault after the unlock, or why the unlock is rejected.
    pub open spec fn outcome(&self, amount: u64) -> Result<CollateralVault, VaultError> {
        if !self.vault_authority.authorizes(self.signer) {
            Err(VaultError::UnauthorizedProgram)
        } else {
            self.vault.after_unlock(amount)
        }
    }
}

impl TransferCollateral {
    /// The two vaults after the transfer, source first, or why it is rejected.
    pub open spec fn outcome(&self, amount: u64) -> Result<
        (CollateralVault, CollateralVault),
        VaultError,
    > {
        if !self.vault_authority.authorizes(self.signer) {
            Err(VaultError::UnauthorizedProgram)
        } else {
            match self.from_vault.after_debit(amount) {
                Err(e) => Err(e),
                Ok(from) => match self.to_vault.after_credit(amount) {
                    Err(e) => Err(e),
                    Ok(to) => Ok((from, to)),
                },
            }
        }
    }

    /// The order that moves the funds between the two custodial holdings,
    /// signed by the source vault itself.
    pub open spec fn order(&self, amount: u64) -> TransferOrder {
        TransferOrder {
            from: self.from_vault_token_account,
            mint: self.token_mint,
            to: self.to_vault_token_account,
            authority: self.from_vault_key,
            amount,
            decimals: self.token_decimals,
            signer: Some(VaultSigner { owner: self.from_vault.owner, bump: self.from_vault.bump }),
        }
    }
}

impl CloseVault {
    /// Whether the caller may close the vault, and if not, why.
    pub open spec fn outcome(&self) -> Result<(), VaultError> {
        if self.vault.owner != self.user {
            Err(VaultError::Unauthorized)
        } else {
            self.vault.closable()
        }
    }
}

impl UpdateAuthority {
    /// The list after `program` was added, or why the addition is rejected.
    pub open spec fn addition(&self, program: Address) -> Result<Seq<Address>, VaultError> {
        if self.vault_authority.admin != self.admin {
            Err(VaultError::Unauthorized)
        } else {
            self.vault_authority.after_add(program)
        }
    }

    /// The list after `program` was removed, or why the removal is rejected.
    pub open spec fn removal(&self, program: Address) -> Result<Seq<Address>, VaultError> {
        if self.vault_authority.admin != self.admin {
            Err(VaultError::Unauthorized)
        } else {
            Ok(self.vault_authority.after_remove(program))
        }
    }
}

} // verus!
