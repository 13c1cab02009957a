use vstd::prelude::*;
use crate::address::Address;
use crate::ledger::{TokenAccount, TokenError, Signers, transfer, transfer_outcome, debited, credited};
use crate::pool::{PoolAccount, PoolError, InstructionError, verify_pool_address, derives_to};

verus! {

/// The accounts that a deposit or a withdrawal touches.
#[derive(Clone, Copy, Debug)]
pub struct Transfer {
    pub payer: Address,
    pub pool_key: Address,
    pub pool: PoolAccount,
    /// The outside token account that pays in or receives.
    pub token_key: Address,
    pub token: TokenAccount,
    pub vault_key: Address,
    pub vault: TokenAccount,
}

#[derive(Clone, Copy, Debug)]
pub struct Deposit {
    pub accounts: Transfer,
}

#[derive(Clone, Copy, Debug)]
pub struct Withdraw {
    pub accounts: Transfer,
}

/// A transfer handed to the token program: source, destination, authority.
#[derive(Clone, Copy, Debug)]
pub struct TransferContext {
    pub from: Address,
    pub to: Address,
    pub authority: Address,
}

impl Deposit {
    /// From the payer's token account into the vault, under the payer's signature.
    pub fn into_transfer_context(&self) -> (r: TransferContext)
        ensures
            r == (TransferContext { from: self.accounts.token_key, to: self.accounts.vault_key, authority: self.accounts.payer }),
    {
        TransferContext { from: self.accounts.token_key, to: self.accounts.vault_key, authority: self.accounts.payer }
    }
}

impl Withdraw {
    /// From the vault into the token account, under the pool record's authority.
    pub fn into_transfer_context(&self) -> (r: TransferContext)
        ensures
            r == (TransferContext { from: self.accounts.vault_key, to: self.accounts.token_key, authority: self.accounts.pool_key }),
    {
        TransferContext { from: self.accounts.vault_key, to: self.accounts.token_key, authority: self.accounts.pool_key }
    }
}

pub open spec fn deposit_signers(t: Transfer) -> Signers {
    Signers { direct: t.payer, derived: None }
}

pub open spec fn withdraw_signers(t: Transfer) -> Signers {
    Signers { direct: t.payer, derived: Some(t.pool_key) }
}

/// Why the accounts of a transfer are refused before any token moves: a record
/// that is not active, or a token account that is the vault itself.
pub open spec fn accounts_refusal(t: Transfer) -> Option<InstructionError> {
    if !t.pool.initialized {
        Some(InstructionError::Pool(PoolError::InvalidPool))
    } else if t.token_key@ == t.vault_key@ {
        Some(InstructionError::SelfTransfer)
    } else {
        None
    }
}

pub open spec fn deposit_outcome(t: Transfer, amount: u64) -> Result<(), InstructionError> {
    if accounts_refusal(t) is Some {
        Err(accounts_refusal(t)->Some_0)
    } else {
        match transfer_outcome(t.token, t.vault, t.payer@, deposit_signers(t), amount) {
            Ok(()) => Ok(()),
            Err(e) => Err(InstructionError::Token(e)),
        }
    }
}

pub open spec fn deposited(t: Transfer, amount: u64) -> Transfer {
    Transfer { token: debited(t.token, amount), vault: credited(t.vault, amount), ..t }
}

pub open spec fn withdraw_outcome(t: Transfer, program_id: Seq<u8>, amount: u64) -> Result<(), InstructionError> {
    if accounts_refusal(t) is Some {
        Err(accounts_refusal(t)->Some_0)
    } else if !derives_to(t.pool, t.pool_key@, program_id) {
        Err(InstructionError::Pool(PoolError::InvalidBump))
    } else {
        match transfer_outcome(t.vault, t.token, t.pool_key@, withdraw_signers(t), amount) {
            Ok(()) => Ok(()),
            Err(e) => Err(InstructionError::Token(e)),
        }
    }
}

pub open spec fn withdrawn(t: Transfer, amount: u64) -> Transfer {
    Transfer { vault: debited(t.vault, amount), token: credited(t.token, amount), ..t }
}

/// Refuses a record that is not active, then a token account that is the vault.
pub fn check_accounts(t: &Transfer) -> (r: Result<(), InstructionError>)
    ensures
        r is Err <==> accounts_refusal(*t) is Some,
        r is Err ==> r->Err_0 == accounts_refusal(*t)->Some_0,
{
    if !t.pool.initialized {
        return Err(InstructionError::Pool(PoolError::InvalidPool));
    }
    if t.token_key == t.vault_key {
        return Err(InstructionError::SelfTransfer);
    }
    Ok(())
}

/// Moves `amount` from the payer's token account into the vault of an active
/// record; the payer's own signature is the authority.
pub fn deposit(ctx: &mut Deposit, amount: u64) -> (r: Result<(), InstructionError>)
    ensures
        r == deposit_outcome(old(ctx).accounts, amount),
        r is Ok ==> final(ctx).accounts == deposited(old(ctx).accounts, amount),
        r is Err ==> *final(ctx) == *old(ctx),
{
    check_accounts(&ctx.accounts)?;
    let cpi = ctx.into_transfer_context();
    let signers = Signers { direct: ctx.accounts.payer, derived: None };
    match transfer(&mut ctx.accounts.token, &mut ctx.accounts.vault, &cpi.authority, &signers, amount) {
        Ok(()) => Ok(()),
        Err(e) => Err(InstructionError::Token(e)),
    }
}

/// Moves `amount` from the vault of an active record into the token account,
/// which may not be the vault itself. The record signs by
/// re-deriving its own address; no signature of the owner is asked for.
pub fn withdraw(ctx: &mut Withdraw, program_id: &Address, amount: u64) -> (r: Result<(), InstructionError>)
    ensures
        r == withdraw_outcome(old(ctx).accounts, program_id@, amount),
        r is Ok ==> final(ctx).accounts == withdrawn(old(ctx).accounts, amount),
        r is Err ==> *final(ctx) == *old(ctx),
{
    check_accounts(&ctx.accounts)?;
    let signer = match verify_pool_address(&ctx.accounts.pool, &ctx.accounts.pool_key, program_id) {
        Ok(a) => a,
        Err(e) => {
            return Err(InstructionError::Pool(e));
        },
    };
    let cpi = ctx.into_transfer_context();
    let signers = Signers { direct: ctx.accounts.payer, derived: Some(signer) };
    match transfer(&mut ctx.accounts.vault, &mut ctx.accounts.token, &cpi.authority, &signers, amount) {
        Ok(()) => Ok(()),
        Err(e) => Err(InstructionError::Token(e)),
    }
}

/// A deposit followed by a withdrawal of the same amount leaves the vault and
/// the token account with what they held before.
pub proof fn lemma_deposit_then_withdraw_restores(t: Transfer, program_id: Seq<u8>, amount: u64)
    requires
        deposit_outcome(t, amount) is Ok,
        withdraw_outcome(deposited(t, amount), program_id, amount) is Ok,
    ensures
        withdrawn(deposited(t, amount), amount).vault == t.vault,
        withdrawn(deposited(t, amount), amount).token == t.token,
        withdrawn(deposited(t, amount), amount).pool == t.pool,
{
}

/// A withdrawal needs no signature but the record's own: with a record whose
/// address re-derives, a vault under that address, enough funds and no frozen
/// account, it succeeds whoever submits it.
pub proof fn lemma_withdraw_by_record_authority(t: Transfer, program_id: Seq<u8>, amount: u64)
    requires
        t.pool.initialized,
        t.token_key@ != t.vault_key@,
        derives_to(t.pool, t.pool_key@, program_id),
        t.vault.authority == t.pool_key,
        t.vault.mint@ == t.token.mint@,
        !t.vault.frozen,
        !t.token.frozen,
        amount <= t.vault.amount,
        t.token.amount + amount <= u64::MAX,
    ensures
        withdraw_outcome(t, program_id, amount) is Ok,
{
}

/// A deposit of more than the source holds fails with the token program's
/// insufficient-funds error (on an active record, with no account frozen).
pub proof fn lemma_deposit_insufficient_funds(t: Transfer, amount: u64)
    requires
        t.pool.initialized,
        t.token_key@ != t.vault_key@,
        !t.token.frozen,
        !t.vault.frozen,
        amount > t.token.amount,
    ensures
        deposit_outcome(t, amount) == Err::<(), InstructionError>(InstructionError::Token(TokenError::InsufficientFunds)),
{
}

/// Only an active record takes deposits and withdrawals: with a record that
/// was never initialized both fail with `InvalidPool`.
pub proof fn lemma_inactive_record_refuses(t: Transfer, program_id: Seq<u8>, amount: u64)
    requires
        !t.pool.initialized,
    ensures
        deposit_outcome(t, amount) == Err::<(), InstructionError>(InstructionError::Pool(PoolError::InvalidPool)),
        withdraw_outcome(t, program_id, amount) == Err::<(), InstructionError>(InstructionError::Pool(PoolError::InvalidPool)),
{
}

} // verus!
