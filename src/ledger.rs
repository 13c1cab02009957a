use vstd::prelude::*;
use crate::address::Address;

verus! {

/// A token account as the token program keeps it.
#[derive(Clone, Copy, Debug)]
pub struct TokenAccount {
    pub mint: Address,
    /// The address whose signature may move funds out of this account.
    pub authority: Address,
    pub amount: u64,
    pub frozen: bool,
}

/// How a token transfer can be refused.
#[derive(Clone, Copy, Debug, PartialEq, Eq, Structural)]
pub enum TokenError {
    AccountFrozen,
    InsufficientFunds,
    MintMismatch,
    OwnerMismatch,
    MissingRequiredSignature,
    Overflow,
}

/// The signatures an instruction carries: the submitter's own, and at most
/// one derived by the program from its seeds.
#[derive(Clone, Copy, Debug)]
pub struct Signers {
    pub direct: Address,
    pub derived: Option<Address>,
}

pub open spec fn signs(s: Signers, a: Seq<u8>) -> bool {
    s.direct@ == a || (s.derived is Some && s.derived->Some_0@ == a)
}

/// What a transfer of `amount` from `from` to `to`, under `authority`, returns.
pub open spec fn transfer_outcome(
    from: TokenAccount,
    to: TokenAccount,
    authority: Seq<u8>,
    signers: Signers,
    amount: u64,
) -> Result<(), TokenError> {
    if from.frozen || to.frozen {
        Err(TokenError::AccountFrozen)
    } else if from.amount < amount {
        Err(TokenError::InsufficientFunds)
    } else if from.mint@ != to.mint@ {
        Err(TokenError::MintMismatch)
    } else if from.authority@ != authority {
        Err(TokenError::OwnerMismatch)
    } else if !signs(signers, authority) {
        Err(TokenError::MissingRequiredSignature)
    } else if to.amount + amount > u64::MAX {
        Err(TokenError::Overflow)
    } else {
        Ok(())
    }
}

pub open spec fn debited(a: TokenAccount, amount: u64) -> TokenAccount {
    TokenAccount { amount: (a.amount - amount) as u64, ..a }
}

pub open spec fn credited(a: TokenAccount, amount: u64) -> TokenAccount {
    TokenAccount { amount: (a.amount + amount) as u64, ..a }
}

/// Moves `amount` from `from` to `to` where the token program would accept it:
/// neither account frozen, enough funds, one mint, `authority` is the source's
/// authority and has signed, and the destination does not overflow.
pub fn transfer(
    from: &mut TokenAccount,
    to: &mut TokenAccount,
    authority: &Address,
    signers: &Signers,
    amount: u64,
) -> (r: Result<(), TokenError>)
    ensures
        r == transfer_outcome(*old(from), *old(to), authority@, *signers, amount),
        r is Ok ==> *final(from) == debited(*old(from), amount) && *final(to) == credited(*old(to), amount),
        r is Err ==> *final(from) == *old(from) && *final(to) == *old(to),
{
    if from.frozen || to.frozen {
        return Err(TokenError::AccountFrozen);
    }
    if from.amount < amount {
        return Err(TokenError::InsufficientFunds);
    }
    if !(from.mint == to.mint) {
        return Err(TokenError::MintMismatch);
    }
    if !(from.authority == *authority) {
        return Err(TokenError::OwnerMismatch);
    }
    let signed = signers.direct == *authority || match signers.derived {
        Some(d) => d == *authority,
        None => false,
    };
    if !signed {
        return Err(TokenError::MissingRequiredSignature);
    }
    if to.amount > u64::MAX - amount {
        return Err(TokenError::Overflow);
    }
    from.amount = from.amount - amount;
    to.amount = to.amount + amount;
    Ok(())
}

} // verus!
