use vstd::prelude::*;

verus! {

/// Why a transition was rejected. A rejected transition changes nothing.
#[derive(Clone, Copy, Debug, PartialEq, Eq, Structural)]
pub enum VaultError {
    /// The amount is zero.
    InvalidAmount,
    /// The available balance is smaller than the amount.
    InsufficientAvailableBalance,
    /// The locked balance is smaller than the amount.
    InsufficientLockedBalance,
    /// The caller is neither the owner of the vault nor the admin of the registry.
    Unauthorized,
    /// The caller is not on the registry's list of authorized programs.
    UnauthorizedProgram,
    /// A balance or counter would exceed `u64::MAX`.
    Overflow,
    /// A balance would fall below zero.
    Underflow,
    /// The asset offered is not the asset the vault holds.
    InvalidTokenMint,
    /// The registry would hold more than ten programs.
    TooManyPrograms,
    /// The program is on the registry's list already, or a list names it twice.
    ProgramAlreadyAuthorized,
    /// The vault still holds funds.
    VaultNotEmpty,
    /// The vault still has locked collateral.
    HasLockedCollateral,
}

impl VaultError {
    /// The text of `message`.
    pub open spec fn message_text(self) -> Seq<char> {
        match self {
            VaultError::InvalidAmount => "Invalid amount - must be greater than zero"@,
            VaultError::InsufficientAvailableBalance => "Insufficient available balance"@,
            VaultError::InsufficientLockedBalance => "Insufficient locked balance"@,
            VaultError::Unauthorized => "Unauthorized - you do not have permission"@,
            VaultError::UnauthorizedProgram => "Unauthorized program - caller is not in authorized list"@,
            VaultError::Overflow => "Integer overflow occurred"@,
            VaultError::Underflow => "Integer underflow occurred"@,
            VaultError::InvalidTokenMint => "Invalid token mint - does not match vault token"@,
            VaultError::TooManyPrograms => "Too many programs - maximum 10 allowed"@,
            VaultError::ProgramAlreadyAuthorized => "Program already authorized"@,
            VaultError::VaultNotEmpty => "Vault is not empty - cannot close"@,
            VaultError::HasLockedCollateral => "Vault has locked collateral - unlock before closing"@,
        }
    }

    /// A sentence that says what went wrong.
    pub fn message(&self) -> (text: &'static str)
        ensures
            text@ == self.message_text(),
    {
        match self {
            VaultError::InvalidAmount => "Invalid amount - must be greater than zero",
            VaultError::InsufficientAvailableBalance => "Insufficient available balance",
            VaultError::InsufficientLockedBalance => "Insufficient locked balance",
            VaultError::Unauthorized => "Unauthorized - you do not have permission",
            VaultError::UnauthorizedProgram => "Unauthorized program - caller is not in authorized list",
            VaultError::Overflow => "Integer overflow occurred",
            VaultError::Underflow => "Integer underflow occurred",
            VaultError::InvalidTokenMint => "Invalid token mint - does not match vault token",
            VaultError::TooManyPrograms => "Too many programs - maximum 10 allowed",
            VaultError::ProgramAlreadyAuthorized => "Program already authorized",
            VaultError::VaultNotEmpty => "Vault is not empty - cannot close",
            VaultError::HasLockedCollateral => "Vault has locked collateral - unlock before closing",
        }
    }
}

} // verus!
