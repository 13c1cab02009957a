use anchor_lang::prelude::Pubkey;
use asset_pool::address::Address;
use asset_pool::ledger::{transfer, Signers, TokenAccount, TokenError};
use asset_pool::pool::{create, pool_seeds, verify_pool_address, AssetPair, Create, InstructionError, PoolAccount, PoolError};
use asset_pool::transfer::{deposit, withdraw, Deposit, Transfer, Withdraw};

fn addr(b: u8) -> Address {
    Address::new([b; 32])
}

fn program_id() -> Address {
    addr(7)
}

fn tag(pair: AssetPair) -> &'static [u8] {
    match pair {
        AssetPair::BtcUsdc => b"btcusdc",
        AssetPair::EthUsdc => b"ethusdc",
        _ => unreachable!(),
    }
}

/// The canonical pool address and bump, as the runtime finds them.
fn find_pool(owner: &Address, pair: AssetPair) -> (Address, u8) {
    let pid = Pubkey::new_from_array(program_id().bytes);
    let (k, bump) = Pubkey::find_program_address(&[b"pool", &owner.bytes, tag(pair)], &pid);
    (Address::new(k.to_bytes()), bump)
}

fn fresh(owner: Address, pair: AssetPair) -> (Create, u8) {
    let (pool_key, bump) = find_pool(&owner, pair);
    let ctx = Create {
        payer: owner,
        owner,
        pool_key,
        pool: None,
        mint: addr(50),
        vault_key: addr(51),
        vault: None,
    };
    (ctx, bump)
}

fn created_transfer(owner: Address, payer: Address, token_amount: u64) -> Transfer {
    let (mut ctx, bump) = fresh(owner, AssetPair::BtcUsdc);
    assert_eq!(create(&mut ctx, &program_id(), AssetPair::BtcUsdc, bump), Ok(()));
    Transfer {
        payer,
        pool_key: ctx.pool_key,
        pool: ctx.pool.unwrap(),
        token_key: addr(60),
        token: TokenAccount { mint: addr(50), authority: payer, amount: token_amount, frozen: false },
        vault_key: ctx.vault_key,
        vault: ctx.vault.unwrap(),
    }
}

#[test]
fn scenario_btc_usdc_pool() {
    let owner = addr(1);
    let t = created_transfer(owner, owner, 1000);
    let mut d = Deposit { accounts: t };
    assert_eq!(deposit(&mut d, 1000), Ok(()));
    assert_eq!(d.accounts.vault.amount, 1000);
    assert_eq!(d.accounts.token.amount, 0);
    let mut w = Withdraw { accounts: d.accounts };
    assert_eq!(withdraw(&mut w, &program_id(), 400), Ok(()));
    assert_eq!(w.accounts.vault.amount, 600);
    assert_eq!(w.accounts.token.amount, 400);
    assert_eq!(
        withdraw(&mut w, &program_id(), 700),
        Err(InstructionError::Token(TokenError::InsufficientFunds))
    );
    assert_eq!(w.accounts.vault.amount, 600);
    assert_eq!(w.accounts.token.amount, 400);
}

#[test]
fn create_sets_every_field() {
    let owner = addr(2);
    let (mut ctx, bump) = fresh(owner, AssetPair::EthUsdc);
    assert_eq!(create(&mut ctx, &program_id(), AssetPair::EthUsdc, bump), Ok(()));
    let p: PoolAccount = ctx.pool.unwrap();
    assert!(p.initialized);
    assert_eq!(p.pair, AssetPair::EthUsdc);
    assert_eq!(p.pool_bump, bump);
    assert!(p.owner == owner);
    assert_eq!(p.balance, 0);
    assert!(p.vault == addr(51));
    assert!(p.mint == addr(50));
}

#[test]
fn vault_authority_is_pool_for_every_pair() {
    for pair in [AssetPair::BtcUsdc, AssetPair::EthUsdc] {
        let (mut ctx, bump) = fresh(addr(3), pair);
        assert_eq!(create(&mut ctx, &program_id(), pair, bump), Ok(()));
        let v = ctx.vault.unwrap();
        assert!(v.authority == ctx.pool_key);
        assert!(v.mint == ctx.mint);
        assert_eq!(v.amount, 0);
        assert!(!v.frozen);
    }
}

#[test]
fn create_twice_fails() {
    let (mut ctx, bump) = fresh(addr(4), AssetPair::BtcUsdc);
    assert_eq!(create(&mut ctx, &program_id(), AssetPair::BtcUsdc, bump), Ok(()));
    let before = ctx;
    assert_eq!(
        create(&mut ctx, &program_id(), AssetPair::BtcUsdc, bump),
        Err(InstructionError::AccountInUse)
    );
    assert_eq!(ctx.pool.unwrap().pool_bump, before.pool.unwrap().pool_bump);
}

#[test]
fn create_with_other_bumps_fails() {
    let (ctx, bump) = fresh(addr(5), AssetPair::BtcUsdc);
    for b in 0..=255u8 {
        if b == bump {
            continue;
        }
        let mut c = ctx;
        assert_eq!(
            create(&mut c, &program_id(), AssetPair::BtcUsdc, b),
            Err(InstructionError::Pool(PoolError::InvalidBump))
        );
        assert!(c.pool.is_none() && c.vault.is_none());
    }
}

#[test]
fn create_with_other_pair_fails() {
    let (mut ctx, bump) = fresh(addr(5), AssetPair::BtcUsdc);
    assert_eq!(
        create(&mut ctx, &program_id(), AssetPair::EthUsdc, bump),
        Err(InstructionError::Pool(PoolError::InvalidBump))
    );
}

#[test]
fn deposit_then_withdraw_restores_balances() {
    let owner = addr(6);
    let t = created_transfer(owner, owner, 500);
    let mut d = Deposit { accounts: t };
    assert_eq!(deposit(&mut d, 321), Ok(()));
    let mut w = Withdraw { accounts: d.accounts };
    assert_eq!(withdraw(&mut w, &program_id(), 321), Ok(()));
    assert_eq!(w.accounts.vault.amount, t.vault.amount);
    assert_eq!(w.accounts.token.amount, t.token.amount);
}

#[test]
fn withdraw_by_non_owner_succeeds() {
    let owner = addr(8);
    let stranger = addr(9);
    let mut t = created_transfer(owner, stranger, 0);
    t.vault.amount = 250;
    let mut w = Withdraw { accounts: t };
    assert_eq!(withdraw(&mut w, &program_id(), 250), Ok(()));
    assert_eq!(w.accounts.vault.amount, 0);
    assert_eq!(w.accounts.token.amount, 250);
}

#[test]
fn withdraw_with_forged_record_fails() {
    let owner = addr(10);
    let mut t = created_transfer(owner, owner, 0);
    t.vault.amount = 10;
    t.pool.owner = addr(11);
    let mut w = Withdraw { accounts: t };
    assert_eq!(
        withdraw(&mut w, &program_id(), 5),
        Err(InstructionError::Pool(PoolError::InvalidBump))
    );
    assert_eq!(w.accounts.vault.amount, 10);
}

#[test]
fn deposit_insufficient_funds_changes_nothing() {
    let owner = addr(12);
    let t = created_transfer(owner, owner, 99);
    let mut d = Deposit { accounts: t };
    assert_eq!(
        deposit(&mut d, 100),
        Err(InstructionError::Token(TokenError::InsufficientFunds))
    );
    assert_eq!(d.accounts.token.amount, 99);
    assert_eq!(d.accounts.vault.amount, 0);
}

#[test]
fn deposit_from_account_of_another_authority_fails() {
    let owner = addr(13);
    let mut t = created_transfer(owner, owner, 99);
    t.token.authority = addr(14);
    let mut d = Deposit { accounts: t };
    assert_eq!(deposit(&mut d, 1), Err(InstructionError::Token(TokenError::OwnerMismatch)));
}

#[test]
fn frozen_vault_refuses() {
    let owner = addr(15);
    let mut t = created_transfer(owner, owner, 99);
    t.vault.frozen = true;
    let mut d = Deposit { accounts: t };
    assert_eq!(deposit(&mut d, 1), Err(InstructionError::Token(TokenError::AccountFrozen)));
}

#[test]
fn other_mint_refuses() {
    let owner = addr(16);
    let mut t = created_transfer(owner, owner, 99);
    t.token.mint = addr(17);
    let mut d = Deposit { accounts: t };
    assert_eq!(deposit(&mut d, 1), Err(InstructionError::Token(TokenError::MintMismatch)));
}

#[test]
fn transfer_overflow_and_missing_signature() {
    let mut a = TokenAccount { mint: addr(1), authority: addr(2), amount: 10, frozen: false };
    let mut b = TokenAccount { mint: addr(1), authority: addr(3), amount: u64::MAX - 5, frozen: false };
    let me = Signers { direct: addr(2), derived: None };
    assert_eq!(transfer(&mut a, &mut b, &addr(2), &me, 6), Err(TokenError::Overflow));
    let other = Signers { direct: addr(4), derived: Some(addr(5)) };
    assert_eq!(transfer(&mut a, &mut b, &addr(2), &other, 1), Err(TokenError::MissingRequiredSignature));
    assert_eq!(transfer(&mut a, &mut b, &addr(2), &me, 5), Ok(()));
    assert_eq!(a.amount, 5);
    assert_eq!(b.amount, u64::MAX);
}

#[test]
fn seeds_and_layout() {
    let owner = addr(20);
    let s = pool_seeds(&owner, AssetPair::EthUsdc, 254);
    assert_eq!(s.len(), 4);
    assert_eq!(s[0], b"pool".to_vec());
    assert_eq!(s[1], vec![20u8; 32]);
    assert_eq!(s[2], b"ethusdc".to_vec());
    assert_eq!(s[3], vec![254u8]);
    assert_eq!(AssetPair::BtcUsdc.into(), b"btcusdc".to_vec());
    assert_eq!(PoolAccount::LEN, 107);
}

#[test]
fn verify_pool_address_returns_derived_key() {
    let (mut ctx, bump) = fresh(addr(21), AssetPair::BtcUsdc);
    assert_eq!(create(&mut ctx, &program_id(), AssetPair::BtcUsdc, bump), Ok(()));
    let p = ctx.pool.unwrap();
    let k = verify_pool_address(&p, &ctx.pool_key, &program_id()).unwrap();
    assert!(k == ctx.pool_key);
    assert!(!(k == addr(0)));
    assert_eq!(
        verify_pool_address(&p, &addr(0), &program_id()),
        Err(PoolError::InvalidBump)
    );
}

#[test]
fn inactive_record_refuses_deposit_and_withdraw() {
    let owner = addr(22);
    let mut t = created_transfer(owner, owner, 100);
    t.vault.amount = 50;
    t.pool.initialized = false;
    let mut d = Deposit { accounts: t };
    assert_eq!(deposit(&mut d, 10), Err(InstructionError::Pool(PoolError::InvalidPool)));
    assert_eq!(d.accounts.token.amount, 100);
    assert_eq!(d.accounts.vault.amount, 50);
    let mut w = Withdraw { accounts: t };
    assert_eq!(
        withdraw(&mut w, &program_id(), 10),
        Err(InstructionError::Pool(PoolError::InvalidPool))
    );
    assert_eq!(w.accounts.vault.amount, 50);
}

#[test]
fn vault_as_token_account_is_refused() {
    let owner = addr(23);
    let mut t = created_transfer(owner, owner, 100);
    t.vault.amount = 50;
    t.token_key = t.vault_key;
    let mut d = Deposit { accounts: t };
    assert_eq!(deposit(&mut d, 10), Err(InstructionError::SelfTransfer));
    assert_eq!(d.accounts.vault.amount, 50);
    let mut w = Withdraw { accounts: t };
    assert_eq!(withdraw(&mut w, &program_id(), 10), Err(InstructionError::SelfTransfer));
    assert_eq!(w.accounts.vault.amount, 50);
}
