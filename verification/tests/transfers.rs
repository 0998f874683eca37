use collateral_vault::{
    transfer_collateral, Address, CollateralVault, PendingTransfer, TransferCollateral,
    TransferEvent, TransferOrder, VaultAuthority, VaultError, VaultSigner, VAULT_SEED,
};

fn addr(n: u8) -> Address {
    Address::new([n; 32])
}

fn vault_of(owner: u8, bump: u8, total: u64, locked: u64, available: u64) -> CollateralVault {
    CollateralVault {
        owner: addr(owner),
        token_account: addr(owner + 50),
        total_balance: total,
        locked_balance: locked,
        available_balance: available,
        total_deposited: 1000,
        total_withdrawn: 20,
        created_at: 5,
        bump,
        token_mint: addr(2),
    }
}

fn ctx_of(from: CollateralVault, to: CollateralVault) -> TransferCollateral {
    TransferCollateral {
        signer: addr(6),
        from_vault_key: addr(31),
        from_vault: from,
        to_vault_key: addr(32),
        to_vault: to,
        vault_authority: VaultAuthority {
            admin: addr(100),
            authorized_programs: vec![addr(8), addr(6)],
            bump: 255,
        },
        token_mint: addr(2),
        token_decimals: 9,
        from_vault_token_account: addr(41),
        to_vault_token_account: addr(42),
    }
}

#[test]
fn transfer_debits_the_source_and_credits_the_destination() {
    let from = vault_of(10, 250, 70, 30, 40);
    let to = vault_of(11, 251, 5, 5, 0);
    let mut ctx = ctx_of(from, to);
    let pending = transfer_collateral(&mut ctx, 25, 77).unwrap();
    assert_eq!(ctx.from_vault.total_balance, 45);
    assert_eq!(ctx.from_vault.available_balance, 15);
    assert_eq!(ctx.from_vault.locked_balance, 30);
    assert_eq!(ctx.to_vault.total_balance, 30);
    assert_eq!(ctx.to_vault.available_balance, 25);
    assert_eq!(ctx.to_vault.locked_balance, 5);
    assert_eq!(ctx.from_vault.total_balance + ctx.to_vault.total_balance, 75);
    assert_eq!(ctx.from_vault.total_deposited, 1000);
    assert_eq!(ctx.from_vault.total_withdrawn, 20);
    assert_eq!(ctx.to_vault.total_deposited, 1000);
    assert_eq!(ctx.to_vault.total_withdrawn, 20);
    assert_eq!(
        pending,
        PendingTransfer {
            order: TransferOrder {
                from: addr(41),
                mint: addr(2),
                to: addr(42),
                authority: addr(31),
                amount: 25,
                decimals: 9,
                signer: Some(VaultSigner { owner: addr(10), bump: 250 }),
            },
            event: TransferEvent {
                from_vault: addr(31),
                to_vault: addr(32),
                amount: 25,
                caller: addr(6),
                timestamp: 77,
            },
            prior_from: from,
            prior_to: to,
        }
    );
}

#[test]
fn transfer_rejections_change_nothing() {
    let from = vault_of(10, 250, 70, 30, 40);
    let to = vault_of(11, 251, 5, 5, 0);
    let mut ctx = ctx_of(from, to);
    let before = ctx.clone();
    assert_eq!(transfer_collateral(&mut ctx, 0, 1), Err(VaultError::InvalidAmount));
    assert_eq!(transfer_collateral(&mut ctx, 41, 1), Err(VaultError::InsufficientAvailableBalance));
    assert_eq!(ctx, before);

    ctx.signer = addr(10);
    assert_eq!(transfer_collateral(&mut ctx, 10, 1), Err(VaultError::UnauthorizedProgram));
    assert_eq!(transfer_collateral(&mut ctx, 0, 1), Err(VaultError::UnauthorizedProgram));
    assert_eq!(ctx.from_vault, from);
    assert_eq!(ctx.to_vault, to);
}

#[test]
fn transfer_that_overflows_the_destination_debits_nobody() {
    let from = vault_of(10, 250, 70, 30, 40);
    let to = vault_of(11, 251, u64::MAX - 3, 0, u64::MAX - 3);
    let mut ctx = ctx_of(from, to);
    let before = ctx.clone();
    assert_eq!(transfer_collateral(&mut ctx, 4, 1), Err(VaultError::Overflow));
    assert_eq!(ctx, before);
    assert!(transfer_collateral(&mut ctx, 3, 1).is_ok());
    assert_eq!(ctx.to_vault.total_balance, u64::MAX);
    assert_eq!(ctx.from_vault.total_balance, 67);
}

#[test]
fn transfer_overflows_on_available_of_an_unbalanced_destination() {
    let from = vault_of(10, 250, 70, 30, 40);
    let to = vault_of(11, 251, 0, 0, u64::MAX);
    let mut ctx = ctx_of(from, to);
    let before = ctx.clone();
    assert_eq!(transfer_collateral(&mut ctx, 1, 1), Err(VaultError::Overflow));
    assert_eq!(ctx, before);
}

#[test]
fn transfer_underflows_on_an_unbalanced_source() {
    let from = vault_of(10, 250, 5, 0, 40);
    let to = vault_of(11, 251, 5, 5, 0);
    let mut ctx = ctx_of(from, to);
    let before = ctx.clone();
    assert_eq!(transfer_collateral(&mut ctx, 6, 1), Err(VaultError::Underflow));
    assert_eq!(ctx, before);
}

#[test]
fn transfer_whose_order_failed_puts_both_vaults_back() {
    let from = vault_of(10, 250, 70, 30, 40);
    let to = vault_of(11, 251, 5, 5, 0);
    let mut ctx = ctx_of(from, to);
    let before = ctx.clone();
    let pending = transfer_collateral(&mut ctx, 25, 1).unwrap();
    assert_ne!(ctx, before);
    assert_eq!(pending.settle(&mut ctx, false), None);
    assert_eq!(ctx, before);
}

#[test]
fn transfer_whose_order_went_through_is_published() {
    let from = vault_of(10, 250, 70, 30, 40);
    let to = vault_of(11, 251, 5, 5, 0);
    let mut ctx = ctx_of(from, to);
    let pending = transfer_collateral(&mut ctx, 25, 1).unwrap();
    let after = ctx.clone();
    assert_eq!(pending.settle(&mut ctx, true), Some(pending.event));
    assert_eq!(ctx, after);
}

#[test]
fn vault_signer_seeds_are_word_owner_and_bump() {
    let mut bytes = [0u8; 32];
    for (i, b) in bytes.iter_mut().enumerate() {
        *b = i as u8 + 1;
    }
    let signer = VaultSigner { owner: Address::new(bytes), bump: 253 };
    let seeds = signer.seeds();
    assert_eq!(seeds.len(), 3);
    assert_eq!(seeds[0], b"vault".to_vec());
    assert_eq!(seeds[0], VAULT_SEED.to_vec());
    assert_eq!(seeds[1], bytes.to_vec());
    assert_eq!(seeds[2], vec![253u8]);
}

#[test]
fn addresses_are_equal_when_all_bytes_agree() {
    let a = Address::new([7; 32]);
    let b = Address::new([7; 32]);
    assert!(a == b);
    assert_eq!(a.to_bytes(), [7u8; 32]);
    let mut last = [7u8; 32];
    last[31] = 8;
    assert!(a != Address::new(last));
    let mut first = [7u8; 32];
    first[0] = 6;
    assert!(a != Address::new(first));
    let mut middle = [7u8; 32];
    middle[16] = 0;
    assert!(Address::new(middle) != a);
}
