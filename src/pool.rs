use vstd::prelude::*;
use vstd::slice::slice_to_vec;
use crate::address::{Address, program_address, create_program_address};
use crate::ledger::{TokenAccount, TokenError};

verus! {

/// Errors of the pool's own rules.
#[derive(Clone, Copy, Debug, PartialEq, Eq, Structural)]
pub enum PoolError {
    InvalidPool,
    InvalidBump,
    InvalidOwner,
}

/// Any error an instruction can end in.
#[derive(Clone, Copy, Debug, PartialEq, Eq, Structural)]
pub enum InstructionError {
    Pool(PoolError),
    Token(TokenError),
    /// The account to be created exists already.
    AccountInUse,
    /// The token account named for a deposit or a withdrawal is the vault itself.
    SelfTransfer,
}

/// The token pair a pool custodies.
#[derive(Clone, Copy, Debug, PartialEq, Eq, Structural)]
#[non_exhaustive]
pub enum AssetPair {
    BtcUsdc,
    EthUsdc,
}

impl AssetPair {
    pub open spec fn tag_spec(self) -> Seq<u8> {
        match self {
            AssetPair::BtcUsdc => seq![98u8, 116, 99, 117, 115, 100, 99],
            AssetPair::EthUsdc => seq![101u8, 116, 104, 117, 115, 100, 99],
        }
    }

    /// The pair's seed tag: `btcusdc` or `ethusdc`.
    pub fn into(self) -> (r: Vec<u8>)
        ensures
            r@ == self.tag_spec(),
    {
        match self {
            AssetPair::BtcUsdc => vec![98u8, 116, 99, 117, 115, 100, 99],
            AssetPair::EthUsdc => vec![101u8, 116, 104, 117, 115, 100, 99],
        }
    }
}

/// The domain tag `pool` that opens every pool derivation.
pub open spec fn pool_key() -> Seq<u8> {
    seq![112u8, 111, 111, 108]
}

/// The seeds of a pool's address, in their one order: tag, owner, pair, bump.
pub open spec fn pool_seeds_spec(owner: Seq<u8>, pair: AssetPair, bump: u8) -> Seq<Seq<u8>> {
    seq![pool_key(), owner, pair.tag_spec(), seq![bump]]
}

pub fn pool_seeds(owner: &Address, pair: AssetPair, bump: u8) -> (r: Vec<Vec<u8>>)
    ensures
        r.deep_view() == pool_seeds_spec(owner@, pair, bump),
{
    let mut r: Vec<Vec<u8>> = Vec::new();
    r.push(vec![112u8, 111, 111, 108]);
    r.push(slice_to_vec(owner.bytes.as_slice()));
    r.push(pair.into());
    r.push(vec![bump]);
    assert(r@[0].deep_view() =~= pool_key());
    assert(r@[1].deep_view() =~= owner@);
    assert(r@[2].deep_view() =~= pair.tag_spec());
    assert(r@[3].deep_view() =~= seq![bump]);
    assert(r.deep_view() =~= pool_seeds_spec(owner@, pair, bump));
    r
}

proof fn lemma_pool_seeds_within_limits(owner: Seq<u8>, pair: AssetPair, bump: u8)
    requires
        owner.len() == 32,
    ensures
        pool_seeds_spec(owner, pair, bump).len() <= 16,
        forall|i: int| 0 <= i < pool_seeds_spec(owner, pair, bump).len() ==> (#[trigger] pool_seeds_spec(owner, pair, bump)[i]).len() <= 32,
{
    assert(pool_seeds_spec(owner, pair, bump)[0].len() == 4);
    assert(pool_seeds_spec(owner, pair, bump)[2].len() == 7);
    assert(pool_seeds_spec(owner, pair, bump)[3].len() == 1);
}

/// The persistent custody record of a pool.
#[derive(Clone, Copy, Debug)]
pub struct PoolAccount {
    pub initialized: bool,
    pub pair: AssetPair,
    pub pool_bump: u8,
    pub owner: Address,
    /// Advisory total; the vault's own amount is authoritative.
    pub balance: u64,
    pub vault: Address,
    pub mint: Address,
}

impl PoolAccount {
    /// Bytes of a record, without the 8-byte discriminator.
    pub const LEN: usize = 1 + 1 + 1 + 32 + 8 + 32 + 32;
}

/// Whether `key` is the address derived for `pool` under `program_id`.
pub open spec fn derives_to(pool: PoolAccount, key: Seq<u8>, program_id: Seq<u8>) -> bool {
    program_address(pool_seeds_spec(pool.owner@, pool.pair, pool.pool_bump), program_id) == Some(key)
}

/// Re-derives a record's address from what it stores, and returns it where it
/// is `pool_key`; `InvalidBump` otherwise.
pub fn verify_pool_address(pool: &PoolAccount, pool_key: &Address, program_id: &Address) -> (r: Result<Address, PoolError>)
    ensures
        r is Ok <==> derives_to(*pool, pool_key@, program_id@),
        r is Ok ==> r->Ok_0 == *pool_key,
        r is Err ==> r->Err_0 == PoolError::InvalidBump,
{
    let seeds = pool_seeds(&pool.owner, pool.pair, pool.pool_bump);
    proof {
        lemma_pool_seeds_within_limits(pool.owner@, pool.pair, pool.pool_bump);
    }
    match create_program_address(&seeds, program_id) {
        Ok(addr) => {
            if addr == *pool_key {
                Ok(*pool_key)
            } else {
                Err(PoolError::InvalidBump)
            }
        },
        Err(_) => Err(PoolError::InvalidBump),
    }
}

/// The accounts of a pool's creation; `None` where an account does not exist yet.
#[derive(Clone, Copy, Debug)]
pub struct Create {
    pub payer: Address,
    pub owner: Address,
    pub pool_key: Address,
    pub pool: Option<PoolAccount>,
    pub mint: Address,
    pub vault_key: Address,
    pub vault: Option<TokenAccount>,
}

pub open spec fn create_outcome(ctx: Create, program_id: Seq<u8>, pair: AssetPair, bump: u8) -> Result<(), InstructionError> {
    if ctx.pool is Some || ctx.vault is Some {
        Err(InstructionError::AccountInUse)
    } else if program_address(pool_seeds_spec(ctx.owner@, pair, bump), program_id) != Some(ctx.pool_key@) {
        Err(InstructionError::Pool(PoolError::InvalidBump))
    } else {
        Ok(())
    }
}

pub open spec fn created_record(ctx: Create, pair: AssetPair, bump: u8) -> PoolAccount {
    PoolAccount {
        initialized: true,
        pair,
        pool_bump: bump,
        owner: ctx.owner,
        balance: 0,
        vault: ctx.vault_key,
        mint: ctx.mint,
    }
}

pub open spec fn created_vault(ctx: Create) -> TokenAccount {
    TokenAccount { mint: ctx.mint, authority: ctx.pool_key, amount: 0, frozen: false }
}

/// The accounts after a successful creation.
pub open spec fn created(ctx: Create, pair: AssetPair, bump: u8) -> Create {
    Create { pool: Some(created_record(ctx, pair, bump)), vault: Some(created_vault(ctx)), ..ctx }
}

/// Creates the pool record at `pool_key` and its empty vault, whose authority
/// is the record's own address. Succeeds exactly when neither account exists
/// and `pool_key` is the address derived from `pool`, owner, pair and bump.
pub fn create(ctx: &mut Create, program_id: &Address, asset_pair: AssetPair, bump: u8) -> (r: Result<(), InstructionError>)
    ensures
        r == create_outcome(*old(ctx), program_id@, asset_pair, bump),
        r is Ok ==> *final(ctx) == created(*old(ctx), asset_pair, bump),
        r is Ok ==> final(ctx).vault->Some_0.authority == old(ctx).pool_key,
        r is Err ==> *final(ctx) == *old(ctx),
{
    if ctx.pool.is_some() || ctx.vault.is_some() {
        return Err(InstructionError::AccountInUse);
    }
    let seeds = pool_seeds(&ctx.owner, asset_pair, bump);
    proof {
        lemma_pool_seeds_within_limits(ctx.owner@, asset_pair, bump);
    }
    match create_program_address(&seeds, program_id) {
        Ok(addr) => {
            if !(addr == ctx.pool_key) {
                return Err(InstructionError::Pool(PoolError::InvalidBump));
            }
        },
        Err(_) => {
            return Err(InstructionError::Pool(PoolError::InvalidBump));
        },
    }
    ctx.pool = Some(PoolAccount {
        initialized: true,
        pair: asset_pair,
        pool_bump: bump,
        owner: ctx.owner,
        balance: 0,
        vault: ctx.vault_key,
        mint: ctx.mint,
    });
    ctx.vault = Some(TokenAccount { mint: ctx.mint, authority: ctx.pool_key, amount: 0, frozen: false });
    Ok(())
}

/// With neither account present, `create` accepts a bump exactly when the
/// derivation from that bump gives the address being created, and refuses
/// every other bump with `InvalidBump`.
pub proof fn lemma_create_accepts_only_deriving_bump(ctx: Create, program_id: Seq<u8>, pair: AssetPair, bump: u8)
    requires
        ctx.pool is None,
        ctx.vault is None,
    ensures
        create_outcome(ctx, program_id, pair, bump) is Ok
            <==> program_address(pool_seeds_spec(ctx.owner@, pair, bump), program_id) == Some(ctx.pool_key@),
        create_outcome(ctx, program_id, pair, bump) is Ok
            || create_outcome(ctx, program_id, pair, bump) == Err::<(), InstructionError>(InstructionError::Pool(PoolError::InvalidBump)),
{
}

/// Two different bumps accepted for one pool address would be two different
/// seed lists that the derivation sends to the same address.
pub proof fn lemma_two_accepted_bumps_collide(ctx: Create, program_id: Seq<u8>, pair: AssetPair, b1: u8, b2: u8)
    requires
        b1 != b2,
        create_outcome(ctx, program_id, pair, b1) is Ok,
        create_outcome(ctx, program_id, pair, b2) is Ok,
    ensures
        pool_seeds_spec(ctx.owner@, pair, b1) != pool_seeds_spec(ctx.owner@, pair, b2),
        program_address(pool_seeds_spec(ctx.owner@, pair, b1), program_id)
            == program_address(pool_seeds_spec(ctx.owner@, pair, b2), program_id),
{
    assert(pool_seeds_spec(ctx.owner@, pair, b1)[3][0] == b1);
    assert(pool_seeds_spec(ctx.owner@, pair, b2)[3][0] == b2);
}

/// A pool is created once: after a successful `create`, every later `create`
/// on the same accounts fails, whatever pair and bump it names.
pub proof fn lemma_create_exactly_once(ctx: Create, program_id: Seq<u8>, pair: AssetPair, bump: u8, pair2: AssetPair, bump2: u8)
    requires
        create_outcome(ctx, program_id, pair, bump) is Ok,
    ensures
        create_outcome(created(ctx, pair, bump), program_id, pair2, bump2) == Err::<(), InstructionError>(InstructionError::AccountInUse),
{
}

/// Right after `create`, the vault's authority is the record's own address
/// and the vault holds the record's mint and nothing else.
pub proof fn lemma_created_vault_pinned_to_record(ctx: Create, pair: AssetPair, bump: u8)
    ensures
        created(ctx, pair, bump).vault->Some_0.authority == created(ctx, pair, bump).pool_key,
        created(ctx, pair, bump).vault->Some_0.mint == created(ctx, pair, bump).pool->Some_0.mint,
        created(ctx, pair, bump).vault->Some_0.amount == 0,
        created(ctx, pair, bump).pool->Some_0.initialized,
{
}

} // verus!
