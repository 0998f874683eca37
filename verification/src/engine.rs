use crate::address::Address;
use crate::authority::{without, VaultAuthority, MAX_AUTHORIZED_PROGRAMS};
use crate::authority::{
    lemma_remove_absent_is_noop, lemma_remove_keeps_distinct, lemma_without_membership,
    lemma_without_push,
};
use crate::context::{
    CloseVault, Deposit, InitializeAuthority, InitializeVault, LockCollateral, TransferCollateral,
    UnlockCollateral, UpdateAuthority, Withdraw,
};
use crate::error::VaultError;
use crate::events::{
    AuthorityInitialized, DepositEvent, LockEvent, ProgramAuthorized, ProgramDeauthorized,
    TransferEvent, UnlockEvent, VaultClosed, VaultInitialized, WithdrawEvent,
};
use crate::pending::{PendingDeposit, PendingTransfer, PendingWithdraw};
use crate::transfer::{TransferOrder, VaultSigner};
use crate::vault::CollateralVault;
use vstd::prelude::*;

verus! {

/// Moves `amount` of available funds from one vault to another, on behalf of
/// an authorized program.
///
/// Both vaults are updated together or not at all. The funds themselves move
/// between the two custodial holdings by the order handed back, which the
/// source vault signs itself.
pub fn transfer_collateral(ctx: &mut TransferCollateral, amount: u64, timestamp: i64) -> (res:
    Result<PendingTransfer, VaultError>)
    ensures
        match (res, old(ctx).outcome(amount)) {
            (Ok(pending), Ok((from, to))) => {
                &&& *final(ctx) == (TransferCollateral {
                    from_vault: from,
                    to_vault: to,
                    ..*old(ctx)
                })
                &&& pending == (PendingTransfer {
                    order: old(ctx).order(amount),
                    event: TransferEvent {
                        from_vault: old(ctx).from_vault_key,
                        to_vault: old(ctx).to_vault_key,
                        amount,
                        caller: old(ctx).signer,
                        timestamp,
                    },
                    prior_from: old(ctx).from_vault,
                    prior_to: old(ctx).to_vault,
                })
            },
            (Err(e), Err(expected)) => e == expected && *final(ctx) == *old(ctx),
            _ => false,
        },
        res is Ok ==> {
            &&& final(ctx).from_vault.total_balance == old(ctx).from_vault.total_balance - amount
            &&& final(ctx).to_vault.total_balance == old(ctx).to_vault.total_balance + amount
            &&& final(ctx).from_vault.total_balance + final(ctx).to_vault.total_balance
                == old(ctx).from_vault.total_balance + old(ctx).to_vault.total_balance
        },
        old(ctx).from_vault.balanced() ==> final(ctx).from_vault.balanced(),
        old(ctx).to_vault.balanced() ==> final(ctx).to_vault.balanced(),
{
    if !ctx.vault_authority.is_authorized(&ctx.signer) {
        return Err(VaultError::UnauthorizedProgram);
    }
    if amount == 0 {
        return Err(VaultError::InvalidAmount);
    }
    if ctx.from_vault.available_balance < amount {
        return Err(VaultError::InsufficientAvailableBalance);
    }
    let from_total = match ctx.from_vault.total_balance.checked_sub(amount) {
        Some(left) => left,
        None => return Err(VaultError::Underflow),
    };
    let from_available = match ctx.from_vault.available_balance.checked_sub(amount) {
        Some(left) => left,
        None => return Err(VaultError::Underflow),
    };
    let to_total = match ctx.to_vault.total_balance.checked_add(amount) {
        Some(sum) => sum,
        None => return Err(VaultError::Overflow),
    };
    let to_available = match ctx.to_vault.available_balance.checked_add(amount) {
        Some(sum) => sum,
        None => return Err(VaultError::Overflow),
    };
    let prior_from = ctx.from_vault;
    let prior_to = ctx.to_vault;
    ctx.from_vault.total_balance = from_total;
    ctx.from_vault.available_balance = from_available;
    ctx.to_vault.total_balance = to_total;
    ctx.to_vault.available_balance = to_available;
    Ok(
        PendingTransfer {
            order: TransferOrder {
                from: ctx.from_vault_token_account,
                mint: ctx.token_mint,
                to: ctx.to_vault_token_account,
                authority: ctx.from_vault_key,
                amount,
                decimals: ctx.token_decimals,
                signer: Some(VaultSigner { owner: prior_from.owner, bump: prior_from.bump }),
            },
            event: TransferEvent {
                from_vault: ctx.from_vault_key,
                to_vault: ctx.to_vault_key,
                amount,
                caller: ctx.signer,
                timestamp,
            },
            prior_from,
            prior_to,
        },
    )
}

/// Takes `amount` of available funds out of the owner's vault.
///
/// The vault is updated before the funds move. They move out of custody by
/// the order handed back, which the vault signs itself.
pub fn withdraw(ctx: &mut Withdraw, amount: u64, timestamp: i64) -> (res: Result<
    PendingWithdraw,
    VaultError,
>)
    ensures
        match (res, old(ctx).outcome(amount)) {
            (Ok(pending), Ok(vault)) => {
                &&& *final(ctx) == (Withdraw { vault, ..*old(ctx) })
                &&& pending == (PendingWithdraw {
                    order: old(ctx).order(amount),
                    event: WithdrawEvent {
                        user: old(ctx).user,
                        vault: old(ctx).vault_key,
                        amount,
                        new_balance: vault.total_balance,
                        timestamp,
                    },
                    prior: old(ctx).vault,
                })
            },
            (Err(e), Err(expected)) => e == expected && *final(ctx) == *old(ctx),
            _ => false,
        },
        res is Ok ==> {
            &&& final(ctx).vault.total_balance == old(ctx).vault.total_balance - amount
            &&& final(ctx).vault.available_balance == old(ctx).vault.available_balance - amount
            &&& final(ctx).vault.locked_balance == old(ctx).vault.locked_balance
        },
        old(ctx).admission() is Ok && amount > old(ctx).vault.available_balance ==> res == Err::<
            PendingWithdraw,
            VaultError,
        >(VaultError::InsufficientAvailableBalance),
        old(ctx).vault.balanced() ==> final(ctx).vault.balanced(),
{
    if ctx.vault.owner != ctx.user {
        return Err(VaultError::Unauthorized);
    }
    if ctx.token_mint != ctx.vault.token_mint {
        return Err(VaultError::InvalidTokenMint);
    }
    if amount == 0 {
        return Err(VaultError::InvalidAmount);
    }
    if ctx.vault.available_balance < amount {
        return Err(VaultError::InsufficientAvailableBalance);
    }
    let total = match ctx.vault.total_balance.checked_sub(amount) {
        Some(left) => left,
        None => return Err(VaultError::Underflow),
    };
    let available = match ctx.vault.available_balance.checked_sub(amount) {
        Some(left) => left,
        None => return Err(VaultError::Underflow),
    };
    let withdrawn = match ctx.vault.total_withdrawn.checked_add(amount) {
        Some(sum) => sum,
        None => return Err(VaultError::Overflow),
    };
    let prior = ctx.vault;
    ctx.vault.total_balance = total;
    ctx.vault.available_balance = available;
    ctx.vault.total_withdrawn = withdrawn;
    Ok(
        PendingWithdraw {
            order: TransferOrder {
                from: ctx.vault_token_account,
                mint: ctx.token_mint,
                to: ctx.user_token_account,
                authority: ctx.vault_key,
                amount,
                decimals: ctx.token_decimals,
                signer: Some(VaultSigner { owner: prior.owner, bump: prior.bump }),
            },
            event: WithdrawEvent {
                user: ctx.user,
                vault: ctx.vault_key,
                amount,
                new_balance: total,
                timestamp,
            },
            prior,
        },
    )
}

/// Puts `amount` of the owner's funds into the owner's vault.
///
/// The vault is updated before the funds move. They move into custody by the
/// order handed back, which the owner signs.
pub fn deposit(ctx: &mut Deposit, amount: u64, timestamp: i64) -> (res: Result<
    PendingDeposit,
    VaultError,
>)
    ensures
        match (res, old(ctx).outcome(amount)) {
            (Ok(pending), Ok(vault)) => {
                &&& *final(ctx) == (Deposit { vault, ..*old(ctx) })
                &&& pending == (PendingDeposit {
                    order: old(ctx).order(amount),
                    event: DepositEvent {
                        user: old(ctx).user,
                        vault: old(ctx).vault_key,
                        amount,
                        new_balance: vault.total_balance,
                        timestamp,
                    },
                    prior: old(ctx).vault,
                })
            },
            (Err(e), Err(expected)) => e == expected && *final(ctx) == *old(ctx),
            _ => false,
        },
        res is Ok ==> {
            &&& final(ctx).vault.total_balance == old(ctx).vault.total_balance + amount
            &&& final(ctx).vault.available_balance == old(ctx).vault.available_balance + amount
            &&& final(ctx).vault.locked_balance == old(ctx).vault.locked_balance
        },
        old(ctx).admission() is Ok && amount > 0 && old(ctx).vault.total_balance + amount
            > u64::MAX ==> res == Err::<PendingDeposit, VaultError>(VaultError::Overflow),
        old(ctx).vault.balanced() ==> final(ctx).vault.balanced(),
{
    if ctx.vault.owner != ctx.user {
        return Err(VaultError::Unauthorized);
    }
    if ctx.token_mint != ctx.vault.token_mint {
        return Err(VaultError::InvalidTokenMint);
    }
    if amount == 0 {
        return Err(VaultError::InvalidAmount);
    }
    let total = match ctx.vault.total_balance.checked_add(amount) {
        Some(sum) => sum,
        None => return Err(VaultError::Overflow),
    };
    let available = match ctx.vault.available_balance.checked_add(amount) {
        Some(sum) => sum,
        None => return Err(VaultError::Overflow),
    };
    let deposited = match ctx.vault.total_deposited.checked_add(amount) {
        Some(sum) => sum,
        None => return Err(VaultError::Overflow),
    };
    let prior = ctx.vault;
    ctx.vault.total_balance = total;
    ctx.vault.available_balance = available;
    ctx.vault.total_deposited = deposited;
    Ok(
        PendingDeposit {
            order: TransferOrder {
                from: ctx.user_token_account,
                mint: ctx.token_mint,
                to: ctx.vault_token_account,
                authority: ctx.user,
                amount,
                decimals: ctx.token_decimals,
                signer: None,
            },
            event: DepositEvent {
                user: ctx.user,
                vault: ctx.vault_key,
                amount,
                new_balance: total,
                timestamp,
            },
            prior,
        },
    )
}

/// Reserves `amount` of a vault's available funds, on behalf of an authorized
/// program. No funds move.
pub fn lock_collateral(ctx: &mut LockCollateral, amount: u64, timestamp: i64) -> (res: Result<
    LockEvent,
    VaultError,
>)
    ensures
        match (res, old(ctx).outcome(amount)) {
            (Ok(event), Ok(vault)) => {
                &&& *final(ctx) == (LockCollateral { vault, ..*old(ctx) })
                &&& event == (LockEvent {
                    vault: old(ctx).vault_key,
                    amount,
                    locked_balance: vault.locked_balance,
                    available_balance: vault.available_balance,
                    caller: old(ctx).signer,
                    timestamp,
                })
            },
            (Err(e), Err(expected)) => e == expected && *final(ctx) == *old(ctx),
            _ => false,
        },
        res is Ok ==> {
            &&& final(ctx).vault.available_balance == old(ctx).vault.available_balance - amount
            &&& final(ctx).vault.locked_balance == old(ctx).vault.locked_balance + amount
            &&& final(ctx).vault.total_balance == old(ctx).vault.total_balance
        },
        old(ctx).vault.balanced() ==> final(ctx).vault.balanced(),
{
    if !ctx.vault_authority.is_authorized(&ctx.signer) {
        return Err(VaultError::UnauthorizedProgram);
    }
    if amount == 0 {
        return Err(VaultError::InvalidAmount);
    }
    if ctx.vault.available_balance < amount {
        return Err(VaultError::InsufficientAvailableBalance);
    }
    let available = match ctx.vault.available_balance.checked_sub(amount) {
        Some(left) => left,
        None => return Err(VaultError::Underflow),
    };
    let locked = match ctx.vault.locked_balance.checked_add(amount) {
        Some(sum) => sum,
        None => return Err(VaultError::Overflow),
    };
    ctx.vault.available_balance = available;
    ctx.vault.locked_balance = locked;
    Ok(
        LockEvent {
            vault: ctx.vault_key,
            amount,
            locked_balance: locked,
            available_balance: available,
            caller: ctx.signer,
            timestamp,
        },
    )
}

/// Releases `amount` of a vault's locked funds, on behalf of an authorized
/// program. No funds move.
pub fn unlock_collateral(ctx: &mut UnlockCollateral, amount: u64, timestamp: i64) -> (res:
    Result<UnlockEvent, VaultError>)
    ensures
        match (res, old(ctx).outcome(amount)) {
            (Ok(event), Ok(vault)) => {
                &&& *final(ctx) == (UnlockCollateral { vault, ..*old(ctx) })
                &&& event == (UnlockEvent {
                    vault: old(ctx).vault_key,
                    amount,
                    locked_balance: vault.locked_balance,
                    available_balance: vault.available_balance,
                    caller: old(ctx).signer,
                    timestamp,
                })
            },
            (Err(e), Err(expected)) => e == expected && *final(ctx) == *old(ctx),
            _ => false,
        },
        res is Ok ==> {
            &&& final(ctx).vault.locked_balance == old(ctx).vault.locked_balance - amount
            &&& final(ctx).vault.available_balance == old(ctx).vault.available_balance + amount
            &&& final(ctx).vault.total_balance == old(ctx).vault.total_balance
        },
        old(ctx).vault.balanced() ==> final(ctx).vault.balanced(),
{
    if !ctx.vault_authority.is_authorized(&ctx.signer) {
        return Err(VaultError::UnauthorizedProgram);
    }
    if amount == 0 {
        return Err(VaultError::InvalidAmount);
    }
    if ctx.vault.locked_balance < amount {
        return Err(VaultError::InsufficientLockedBalance);
    }
    let locked = match ctx.vault.locked_balance.checked_sub(amount) {
        Some(left) => left,
        None => return Err(VaultError::Underflow),
    };
    let available = match ctx.vault.available_balance.checked_add(amount) {
        Some(sum) => sum,
        None => return Err(VaultError::Overflow),
    };
    ctx.vault.locked_balance = locked;
    ctx.vault.available_balance = available;
    Ok(
        UnlockEvent {
            vault: ctx.vault_key,
            amount,
            locked_balance: locked,
            available_balance: available,
            caller: ctx.signer,
            timestamp,
        },
    )
}

/// Creates the vault of `ctx.user` for `ctx.token_mint`, with all balances at zero.
pub fn initialize_vault(ctx: &InitializeVault, timestamp: i64) -> (created: (
    CollateralVault,
    VaultInitialized,
))
    ensures
        created.0 == CollateralVault::opened(
            ctx.user,
            ctx.vault_token_account,
            ctx.token_mint,
            ctx.bump,
            timestamp,
        ),
        created.1 == (VaultInitialized {
            user: ctx.user,
            vault: ctx.vault_key,
            token_mint: ctx.token_mint,
            timestamp,
        }),
        created.0.balanced(),
{
    let vault = CollateralVault {
        owner: ctx.user,
        token_account: ctx.vault_token_account,
        total_balance: 0,
        locked_balance: 0,
        available_balance: 0,
        total_deposited: 0,
        total_withdrawn: 0,
        created_at: timestamp,
        bump: ctx.bump,
        token_mint: ctx.token_mint,
    };
    let event = VaultInitialized {
        user: ctx.user,
        vault: ctx.vault_key,
        token_mint: ctx.token_mint,
        timestamp,
    };
    (vault, event)
}

/// Adds `program` at the end of the registry's list. Only the admin may.
pub fn add_authorized_program(ctx: &mut UpdateAuthority, program: Address, timestamp: i64) -> (res:
    Result<ProgramAuthorized, VaultError>)
    ensures
        match (res, old(ctx).addition(program)) {
            (Ok(event), Ok(list)) => {
                &&& final(ctx).vault_authority.authorized_programs@ == list
                &&& final(ctx).vault_authority.admin == old(ctx).vault_authority.admin
                &&& final(ctx).vault_authority.bump == old(ctx).vault_authority.bump
                &&& final(ctx).admin == old(ctx).admin
                &&& event == (ProgramAuthorized { admin: old(ctx).admin, program, timestamp })
            },
            (Err(e), Err(expected)) => e == expected && *final(ctx) == *old(ctx),
            _ => false,
        },
        res is Ok ==> final(ctx).vault_authority.authorizes(program),
        old(ctx).vault_authority.within_capacity() ==> final(ctx).vault_authority.within_capacity(),
        old(ctx).vault_authority.distinct() ==> final(ctx).vault_authority.distinct(),
{
    if ctx.vault_authority.admin != ctx.admin {
        return Err(VaultError::Unauthorized);
    }
    if ctx.vault_authority.authorized_programs.len() >= MAX_AUTHORIZED_PROGRAMS {
        return Err(VaultError::TooManyPrograms);
    }
    if ctx.vault_authority.is_authorized(&program) {
        return Err(VaultError::ProgramAlreadyAuthorized);
    }
    ctx.vault_authority.authorized_programs.push(program);
    assert(final(ctx).vault_authority.authorized_programs@.last() == program);
    Ok(ProgramAuthorized { admin: ctx.admin, program, timestamp })
}

/// Creates the registry with `ctx.admin` as its admin and `authorized_programs`
/// as its list. A list of more than ten programs is refused, and so is one
/// that names a program twice.
pub fn initialize_authority(
    ctx: &InitializeAuthority,
    authorized_programs: Vec<Address>,
    timestamp: i64,
) -> (res: Result<(VaultAuthority, AuthorityInitialized), VaultError>)
    ensures
        match (res, VaultAuthority::admits(authorized_programs@)) {
            (Ok((registry, event)), Ok(_)) => {
                &&& registry.admin == ctx.admin
                &&& registry.authorized_programs@ == authorized_programs@
                &&& registry.bump == ctx.bump
                &&& event.admin == ctx.admin
                &&& event.authority == ctx.vault_authority_key
                &&& event.authorized_programs@ == authorized_programs@
                &&& event.timestamp == timestamp
            },
            (Err(e), Err(expected)) => e == expected,
            _ => false,
        },
        res matches Ok((registry, _)) ==> registry.within_capacity() && registry.distinct(),
{
    if authorized_programs.len() > MAX_AUTHORIZED_PROGRAMS {
        return Err(VaultError::TooManyPrograms);
    }
    if names_one_twice(&authorized_programs) {
        return Err(VaultError::ProgramAlreadyAuthorized);
    }
    let registry = VaultAuthority {
        admin: ctx.admin,
        authorized_programs: copy_of(&authorized_programs),
        bump: ctx.bump,
    };
    let event = AuthorityInitialized {
        admin: ctx.admin,
        authority: ctx.vault_authority_key,
        authorized_programs,
        timestamp,
    };
    Ok((registry, event))
}

/// Decides whether the owner may close the vault: only when it holds nothing
/// and nothing is locked. The vault itself is left as it is; on `Ok` the
/// caller releases the record.
pub fn close_vault(ctx: &CloseVault, timestamp: i64) -> (res: Result<VaultClosed, VaultError>)
    ensures
        match (res, ctx.outcome()) {
            (Ok(event), Ok(_)) => event == (VaultClosed {
                user: ctx.user,
                vault: ctx.vault_key,
                timestamp,
            }),
            (Err(e), Err(expected)) => e == expected,
            _ => false,
        },
        res is Ok <==> ctx.vault.owner == ctx.user && ctx.vault.total_balance == 0
            && ctx.vault.locked_balance == 0,
{
    if ctx.vault.owner != ctx.user {
        return Err(VaultError::Unauthorized);
    }
    if ctx.vault.total_balance != 0 {
        return Err(VaultError::VaultNotEmpty);
    }
    if ctx.vault.locked_balance != 0 {
        return Err(VaultError::HasLockedCollateral);
    }
    Ok(VaultClosed { user: ctx.user, vault: ctx.vault_key, timestamp })
}

/// Takes `program` off the registry's list. Only the admin may. Where the
/// program is not listed, the list stays as it is and the removal succeeds
/// all the same.
pub fn remove_authorized_program(ctx: &mut UpdateAuthority, program: Address, timestamp: i64) -> (res:
    Result<ProgramDeauthorized, VaultError>)
    ensures
        match (res, old(ctx).removal(program)) {
            (Ok(event), Ok(list)) => {
                &&& final(ctx).vault_authority.authorized_programs@ == list
                &&& final(ctx).vault_authority.admin == old(ctx).vault_authority.admin
                &&& final(ctx).vault_authority.bump == old(ctx).vault_authority.bump
                &&& final(ctx).admin == old(ctx).admin
                &&& event == (ProgramDeauthorized { admin: old(ctx).admin, program, timestamp })
            },
            (Err(e), Err(expected)) => e == expected && *final(ctx) == *old(ctx),
            _ => false,
        },
        res is Ok ==> !final(ctx).vault_authority.authorizes(program),
        res is Ok && !old(ctx).vault_authority.authorizes(program)
            ==> final(ctx).vault_authority.authorized_programs@
            == old(ctx).vault_authority.authorized_programs@,
        old(ctx).vault_authority.within_capacity() ==> final(ctx).vault_authority.within_capacity(),
        old(ctx).vault_authority.distinct() ==> final(ctx).vault_authority.distinct(),
{
    if ctx.vault_authority.admin != ctx.admin {
        return Err(VaultError::Unauthorized);
    }
    proof {
        let list = ctx.vault_authority.authorized_programs@;
        lemma_without_membership(list, program, program);
        lemma_remove_keeps_distinct(list, program);
        if !list.contains(program) {
            lemma_remove_absent_is_noop(list, program);
        }
    }
    let kept = others(&ctx.vault_authority.authorized_programs, &program);
    ctx.vault_authority.authorized_programs = kept;
    Ok(ProgramDeauthorized { admin: ctx.admin, program, timestamp })
}

/// The entries of `list` that differ from `program`, in their order.
fn others(list: &Vec<Address>, program: &Address) -> (kept: Vec<Address>)
    ensures
        kept@ == without(list@, *program),
{
    let mut kept: Vec<Address> = Vec::new();
    let mut i: usize = 0;
    assert(list@.take(0) =~= Seq::<Address>::empty());
    assert(without(Seq::<Address>::empty(), *program) =~= Seq::<Address>::empty()) by {
        reveal(Seq::filter);
    }
    while i < list.len()
        invariant
            i <= list@.len(),
            kept@ == without(list@.take(i as int), *program),
        decreases list@.len() - i,
    {
        let listed = list[i];
        proof {
            assert(list@.take(i + 1) =~= list@.take(i as int).push(listed));
            lemma_without_push(list@.take(i as int), listed, *program);
        }
        if listed != *program {
            kept.push(listed);
        }
        i += 1;
    }
    assert(list@.take(i as int) =~= list@);
    kept
}

/// Whether some program occurs at two places of `list`.
fn names_one_twice(list: &Vec<Address>) -> (found: bool)
    ensures
        found == !list@.no_duplicates(),
{
    let mut i: usize = 0;
    while i < list.len()
        invariant
            i <= list@.len(),
            forall|a: int, b: int| 0 <= a < b < i ==> list@[a] != list@[b],
        decreases list@.len() - i,
    {
        let mut j: usize = 0;
        while j < i
            invariant
                j <= i < list@.len(),
                forall|a: int| 0 <= a < j ==> list@[a] != list@[i as int],
            decreases i - j,
        {
            if list[j] == list[i] {
                return true;
            }
            j += 1;
        }
        i += 1;
    }
    assert forall|a: int, b: int|
        0 <= a < list@.len() && 0 <= b < list@.len() && a != b implies list@[a] != list@[b] by {
        if a < b {
        } else {
            assert(list@[b] != list@[a]);
        }
    }
    false
}

/// A copy of `list`.
fn copy_of(list: &Vec<Address>) -> (copy: Vec<Address>)
    ensures
        copy@ == list@,
{
    let mut copy: Vec<Address> = Vec::new();
    let mut i: usize = 0;
    while i < list.len()
        invariant
            i <= list@.len(),
            copy@ == list@.take(i as int),
        decreases list@.len() - i,
    {
        copy.push(list[i]);
        assert(list@.take(i + 1) =~= list@.take(i as int).push(list@[i as int]));
        i += 1;
    }
    assert(list@.take(i as int) =~= list@);
    copy
}

} // verus!
