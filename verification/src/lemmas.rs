use crate::address::Address;
use crate::authority::{lemma_remove_absent_is_noop, VaultAuthority, MAX_AUTHORIZED_PROGRAMS};
use crate::context::{LockCollateral, UnlockCollateral, UpdateAuthority};
use crate::error::VaultError;
use crate::vault::CollateralVault;
use vstd::prelude::*;

verus! {

/// A vault is balanced when it is created.
pub proof fn lemma_opened_vault_is_balanced(
    owner: Address,
    token_account: Address,
    token_mint: Address,
    bump: u8,
    created_at: i64,
)
    ensures
        CollateralVault::opened(owner, token_account, token_mint, bump, created_at).balanced(),
{
}

/// Every transition takes a balanced vault to a balanced vault.
pub proof fn lemma_transitions_keep_balanced(vault: CollateralVault, amount: u64)
    requires
        vault.balanced(),
    ensures
        vault.after_deposit(amount) matches Ok(next) ==> next.balanced(),
        vault.after_withdraw(amount) matches Ok(next) ==> next.balanced(),
        vault.after_lock(amount) matches Ok(next) ==> next.balanced(),
        vault.after_unlock(amount) matches Ok(next) ==> next.balanced(),
        vault.after_debit(amount) matches Ok(next) ==> next.balanced(),
        vault.after_credit(amount) matches Ok(next) ==> next.balanced(),
{
}

/// On a balanced vault the checked arithmetic fails at the ceiling of `u64`
/// and nowhere else: no transition underflows, lock and unlock never
/// overflow, and a deposit or a credit overflows only where the total or the
/// sum of all deposits would pass `u64::MAX`.
pub proof fn lemma_balanced_vault_fails_only_at_ceiling(vault: CollateralVault, amount: u64)
    requires
        vault.balanced(),
    ensures
        vault.after_withdraw(amount) != Err::<CollateralVault, VaultError>(VaultError::Underflow),
        vault.after_debit(amount) != Err::<CollateralVault, VaultError>(VaultError::Underflow),
        vault.after_lock(amount) != Err::<CollateralVault, VaultError>(VaultError::Overflow),
        vault.after_unlock(amount) != Err::<CollateralVault, VaultError>(VaultError::Overflow),
        vault.after_deposit(amount) == Err::<CollateralVault, VaultError>(VaultError::Overflow)
            <==> amount > 0 && (vault.total_balance + amount > u64::MAX || vault.total_deposited
            + amount > u64::MAX),
        vault.after_credit(amount) == Err::<CollateralVault, VaultError>(VaultError::Overflow)
            <==> vault.total_balance + amount > u64::MAX,
{
}

/// A lock followed by an unlock of the same amount, by the same program,
/// gives back the vault as it stood.
pub proof fn lemma_lock_then_unlock_restores(ctx: LockCollateral, amount: u64)
    requires
        ctx.outcome(amount) is Ok,
    ensures
        (UnlockCollateral {
            signer: ctx.signer,
            vault_key: ctx.vault_key,
            vault: ctx.outcome(amount)->Ok_0,
            vault_authority: ctx.vault_authority,
        }).outcome(amount) == Ok::<CollateralVault, VaultError>(ctx.vault),
{
}

/// An unlock followed by a lock of the same amount, by the same program,
/// gives back the vault as it stood.
pub proof fn lemma_unlock_then_lock_restores(ctx: UnlockCollateral, amount: u64)
    requires
        ctx.outcome(amount) is Ok,
    ensures
        (LockCollateral {
            signer: ctx.signer,
            vault_key: ctx.vault_key,
            vault: ctx.outcome(amount)->Ok_0,
            vault_authority: ctx.vault_authority,
        }).outcome(amount) == Ok::<CollateralVault, VaultError>(ctx.vault),
{
}

/// No registry starts out with a list that names a program at two places,
/// and none with a list of more than ten; every other list is taken as it is.
pub proof fn lemma_registry_starts_distinct(list: Seq<Address>, first: int, second: int)
    ensures
        VaultAuthority::admits(list) is Ok <==> list.len() <= MAX_AUTHORIZED_PROGRAMS
            && list.no_duplicates(),
        list.len() <= MAX_AUTHORIZED_PROGRAMS && 0 <= first < second < list.len() && list[first]
            == list[second] ==> VaultAuthority::admits(list) == Err::<(), VaultError>(
            VaultError::ProgramAlreadyAuthorized,
        ),
{
}

/// A registry that holds ten programs takes no other, whichever it is.
pub proof fn lemma_full_registry_takes_no_more(ctx: UpdateAuthority, program: Address)
    requires
        ctx.vault_authority.admin == ctx.admin,
        ctx.vault_authority.authorized_programs@.len() >= MAX_AUTHORIZED_PROGRAMS,
    ensures
        ctx.addition(program) == Err::<Seq<Address>, VaultError>(VaultError::TooManyPrograms),
{
}

/// A registry with room left refuses a program that it lists already.
pub proof fn lemma_listed_program_is_not_added_again(ctx: UpdateAuthority, program: Address)
    requires
        ctx.vault_authority.admin == ctx.admin,
        ctx.vault_authority.authorized_programs@.len() < MAX_AUTHORIZED_PROGRAMS,
        ctx.vault_authority.authorizes(program),
    ensures
        ctx.addition(program) == Err::<Seq<Address>, VaultError>(
            VaultError::ProgramAlreadyAuthorized,
        ),
{
}

/// The removal of a program that is not listed succeeds and leaves the list
/// as it is.
pub proof fn lemma_unlisted_program_is_removed_in_vain(ctx: UpdateAuthority, program: Address)
    requires
        ctx.vault_authority.admin == ctx.admin,
        !ctx.vault_authority.authorizes(program),
    ensures
        ctx.removal(program) == Ok::<Seq<Address>, VaultError>(
            ctx.vault_authority.authorized_programs@,
        ),
{
    lemma_remove_absent_is_noop(ctx.vault_authority.authorized_programs@, program);
}

} // verus!
