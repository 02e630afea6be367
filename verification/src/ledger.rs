use vstd::prelude::*;
use crate::account::{
    Account, check_token_account, check_vacant, fresh_token_account_data, is_token_account,
    is_vacant, spec_token_amount, spec_token_authority, spec_token_mint, token_amount,
    token_authority, token_mint, write_token_amount, TOKEN_ACCOUNT_LEN,
};
use crate::addr::{addr_eq, spec_system_program_id, spec_token_program_id, system_program_id, token_program_id};
use crate::errors::EscrowError;

verus! {

/// `r` reports exactly the condition `c`: success when no condition holds,
/// and otherwise precisely the first failing one.
pub open spec fn reports(r: Result<(), EscrowError>, c: Option<EscrowError>) -> bool {
    match r {
        Ok(u) => c is None,
        Err(e) => c == Some(e),
    }
}

/// The fields of a holding account that a balance move may not touch.
pub open spec fn same_token_slot(pre: Account, post: Account) -> bool {
    &&& post.address == pre.address
    &&& post.owner == pre.owner
    &&& post.is_signer == pre.is_signer
    &&& post.lamports == pre.lamports
    &&& post.data@.len() == pre.data@.len()
    &&& spec_token_mint(post.data@) == spec_token_mint(pre.data@)
    &&& spec_token_authority(post.data@) == spec_token_authority(pre.data@)
}

/// An account after its storage was released: vacant, with its deposit gone.
pub open spec fn closed_out(pre: Account, post: Account) -> bool {
    &&& post.address == pre.address
    &&& post.is_signer == pre.is_signer
    &&& post.owner@ == spec_system_program_id()
    &&& post.data@.len() == 0
    &&& post.lamports == 0
    &&& is_vacant(post)
}

/// A deposit-receiving account after a close: credited, otherwise untouched.
pub open spec fn credited(pre: Account, post: Account, lamports: u64) -> bool {
    &&& post.address == pre.address
    &&& post.owner == pre.owner
    &&& post.is_signer == pre.is_signer
    &&& post.data@ == pre.data@
    &&& post.lamports == pre.lamports + lamports
}

/// A paying account after funding a creation: debited, otherwise untouched.
pub open spec fn debited(pre: Account, post: Account, lamports: u64) -> bool {
    &&& post.address == pre.address
    &&& post.owner == pre.owner
    &&& post.is_signer == pre.is_signer
    &&& post.data@ == pre.data@
    &&& post.lamports == pre.lamports - lamports
}

/// On which inputs the asset ledger refuses `transfer(from, to, authority,
/// amount)`, and with which condition.
pub open spec fn token_transfer_check(
    from: Account,
    to: Account,
    authority: Seq<u8>,
    amount: u64,
) -> Option<EscrowError> {
    if !is_token_account(from) || !is_token_account(to) {
        Some(EscrowError::InvalidAccountData)
    } else if spec_token_authority(from.data@) != authority {
        Some(EscrowError::InvalidAccountOwner)
    } else if spec_token_mint(from.data@) != spec_token_mint(to.data@) {
        Some(EscrowError::InvalidAccountData)
    } else if spec_token_amount(from.data@) < amount {
        Some(EscrowError::InsufficientFunds)
    } else if spec_token_amount(to.data@) + amount > u64::MAX {
        Some(EscrowError::ArithmeticOverflow)
    } else {
        None
    }
}

/// Decide, without touching anything, whether the asset ledger would
/// accept `transfer(from, to, authority, amount)`: handlers validate every
/// step before the first mutation.
pub fn token_transfer_would(
    from: &Account,
    to: &Account,
    authority: &[u8; 32],
    amount: u64,
) -> (r: Result<(), EscrowError>)
    ensures
        reports(r, token_transfer_check(*from, *to, authority@, amount)),
{
    if !check_token_account(from) || !check_token_account(to) {
        return Err(EscrowError::InvalidAccountData);
    }
    let from_authority = token_authority(from);
    if !addr_eq(&from_authority, authority) {
        return Err(EscrowError::InvalidAccountOwner);
    }
    let from_mint = token_mint(from);
    let to_mint = token_mint(to);
    if !addr_eq(&from_mint, &to_mint) {
        return Err(EscrowError::InvalidAccountData);
    }
    let from_amount = token_amount(from);
    if from_amount < amount {
        return Err(EscrowError::InsufficientFunds);
    }
    let to_amount = token_amount(to);
    if to_amount > u64::MAX - amount {
        return Err(EscrowError::ArithmeticOverflow);
    }
    Ok(())
}

/// Move `amount` between two holding accounts of the same asset type, on
/// behalf of `authority`. This is the engine's model of the asset ledger's
/// transfer operation: it succeeds exactly when the ledger would, and then
/// moves exactly `amount` and nothing else.
pub fn token_transfer(
    from: &mut Account,
    to: &mut Account,
    authority: &[u8; 32],
    amount: u64,
) -> (r: Result<(), EscrowError>)
    ensures
        reports(r, token_transfer_check(*old(from), *old(to), authority@, amount)),
        r is Ok ==> {
            &&& same_token_slot(*old(from), *final(from))
            &&& same_token_slot(*old(to), *final(to))
            &&& spec_token_amount(final(from).data@) == spec_token_amount(old(from).data@)
                - amount
            &&& spec_token_amount(final(to).data@) == spec_token_amount(old(to).data@) + amount
        },
        r is Err ==> *final(from) == *old(from) && *final(to) == *old(to),
{
    if !check_token_account(from) || !check_token_account(to) {
        return Err(EscrowError::InvalidAccountData);
    }
    let from_authority = token_authority(from);
    if !addr_eq(&from_authority, authority) {
        return Err(EscrowError::InvalidAccountOwner);
    }
    let from_mint = token_mint(from);
    let to_mint = token_mint(to);
    if !addr_eq(&from_mint, &to_mint) {
        return Err(EscrowError::InvalidAccountData);
    }
    let from_amount = token_amount(from);
    if from_amount < amount {
        return Err(EscrowError::InsufficientFunds);
    }
    let to_amount = token_amount(to);
    if to_amount > u64::MAX - amount {
        return Err(EscrowError::ArithmeticOverflow);
    }
    write_token_amount(from, from_amount - amount);
    write_token_amount(to, to_amount + amount);
    Ok(())
}

/// On which inputs the asset ledger refuses `close(account, destination)`,
/// and with which condition.
pub open spec fn token_close_check(
    acc: Account,
    dest: Account,
    authority: Seq<u8>,
) -> Option<EscrowError> {
    if !is_token_account(acc) {
        Some(EscrowError::InvalidAccountData)
    } else if spec_token_authority(acc.data@) != authority {
        Some(EscrowError::InvalidAccountOwner)
    } else if spec_token_amount(acc.data@) != 0 {
        Some(EscrowError::InvalidAccountData)
    } else if dest.lamports + acc.lamports > u64::MAX {
        Some(EscrowError::ArithmeticOverflow)
    } else {
        None
    }
}

/// Close an emptied holding account on behalf of `authority`, returning its
/// storage deposit to `dest`. Models the asset ledger's close operation.
pub fn close_token_account(
    acc: &mut Account,
    dest: &mut Account,
    authority: &[u8; 32],
) -> (r: Result<(), EscrowError>)
    ensures
        reports(r, token_close_check(*old(acc), *old(dest), authority@)),
        r is Ok ==> closed_out(*old(acc), *final(acc)) && credited(
            *old(dest),
            *final(dest),
            old(acc).lamports,
        ),
        r is Err ==> *final(acc) == *old(acc) && *final(dest) == *old(dest),
{
    if !check_token_account(acc) {
        return Err(EscrowError::InvalidAccountData);
    }
    let acc_authority = token_authority(acc);
    if !addr_eq(&acc_authority, authority) {
        return Err(EscrowError::InvalidAccountOwner);
    }
    if token_amount(acc) != 0 {
        return Err(EscrowError::InvalidAccountData);
    }
    if dest.lamports > u64::MAX - acc.lamports {
        return Err(EscrowError::ArithmeticOverflow);
    }
    dest.lamports = dest.lamports + acc.lamports;
    acc.lamports = 0;
    acc.owner = system_program_id();
    acc.data = Vec::new();
    Ok(())
}

/// On which inputs closing a record account of this program fails.
pub open spec fn record_close_check(acc: Account, dest: Account) -> Option<EscrowError> {
    if dest.lamports + acc.lamports > u64::MAX {
        Some(EscrowError::ArithmeticOverflow)
    } else {
        None
    }
}

/// Close a record account this program owns, returning its storage deposit
/// to `dest` and releasing its storage.
pub fn close_record_account(acc: &mut Account, dest: &mut Account) -> (r: Result<
    (),
    EscrowError,
>)
    ensures
        reports(r, record_close_check(*old(acc), *old(dest))),
        r is Ok ==> closed_out(*old(acc), *final(acc)) && credited(
            *old(dest),
            *final(dest),
            old(acc).lamports,
        ),
        r is Err ==> *final(acc) == *old(acc) && *final(dest) == *old(dest),
{
    if dest.lamports > u64::MAX - acc.lamports {
        return Err(EscrowError::ArithmeticOverflow);
    }
    dest.lamports = dest.lamports + acc.lamports;
    acc.lamports = 0;
    acc.owner = system_program_id();
    acc.data = Vec::new();
    Ok(())
}

/// On which inputs the storage-allocation service refuses to create a fresh
/// account funded by `payer`.
pub open spec fn create_check(payer: Account, acc: Account, lamports: u64) -> Option<
    EscrowError,
> {
    if !is_vacant(acc) || acc.lamports != 0 {
        Some(EscrowError::AccountAlreadyInitialized)
    } else if payer.lamports < lamports {
        Some(EscrowError::InsufficientFunds)
    } else {
        None
    }
}

/// A freshly allocated record account: owned by `owner`, zero-filled data of
/// length `space`, holding the funded deposit.
pub open spec fn fresh_record(pre: Account, post: Account, owner: Seq<u8>, space: usize, lamports: u64) -> bool {
    &&& post.address == pre.address
    &&& post.is_signer == pre.is_signer
    &&& post.owner@ == owner
    &&& post.lamports == lamports
    &&& post.data@ == Seq::new(space as nat, |i: int| 0u8)
}

/// Allocate storage for a fresh record account: `payer` funds the deposit,
/// the account becomes owned by `owner` with `space` zeroed bytes. Models
/// the storage-allocation service's create operation.
pub fn create_record_account(
    payer: &mut Account,
    acc: &mut Account,
    owner: &[u8; 32],
    space: usize,
    lamports: u64,
) -> (r: Result<(), EscrowError>)
    ensures
        reports(r, create_check(*old(payer), *old(acc), lamports)),
        r is Ok ==> fresh_record(*old(acc), *final(acc), owner@, space, lamports) && debited(
            *old(payer),
            *final(payer),
            lamports,
        ),
        r is Err ==> *final(acc) == *old(acc) && *final(payer) == *old(payer),
{
    if !check_vacant(acc) || acc.lamports != 0 {
        return Err(EscrowError::AccountAlreadyInitialized);
    }
    if payer.lamports < lamports {
        return Err(EscrowError::InsufficientFunds);
    }
    payer.lamports = payer.lamports - lamports;
    acc.lamports = lamports;
    acc.owner = *owner;
    let mut data: Vec<u8> = Vec::new();
    let mut i: usize = 0;
    while i < space
        invariant
            i <= space,
            data@ == Seq::new(i as nat, |j: int| 0u8),
        decreases space - i,
    {
        data.push(0u8);
        proof {
            assert(data@ =~= Seq::new((i + 1) as nat, |j: int| 0u8));
        }
        i += 1;
    }
    acc.data = data;
    Ok(())
}

/// A freshly created holding account for `mint` under `authority`, with
/// balance 0 and the funded deposit.
pub open spec fn fresh_holding(
    pre: Account,
    post: Account,
    mint: Seq<u8>,
    authority: Seq<u8>,
    lamports: u64,
) -> bool {
    &&& post.address == pre.address
    &&& post.is_signer == pre.is_signer
    &&& post.owner@ == spec_token_program_id()
    &&& post.lamports == lamports
    &&& post.data@.len() == TOKEN_ACCOUNT_LEN
    &&& is_token_account(post)
    &&& spec_token_mint(post.data@) == mint
    &&& spec_token_authority(post.data@) == authority
    &&& spec_token_amount(post.data@) == 0
}

/// Create a fresh holding account for `mint` under `authority`, funded by
/// `payer`. Models the deterministic-account service's create operation.
pub fn create_token_account(
    payer: &mut Account,
    acc: &mut Account,
    mint: &[u8; 32],
    authority: &[u8; 32],
    lamports: u64,
) -> (r: Result<(), EscrowError>)
    ensures
        reports(r, create_check(*old(payer), *old(acc), lamports)),
        r is Ok ==> fresh_holding(*old(acc), *final(acc), mint@, authority@, lamports)
            && debited(*old(payer), *final(payer), lamports),
        r is Err ==> *final(acc) == *old(acc) && *final(payer) == *old(payer),
{
    if !check_vacant(acc) || acc.lamports != 0 {
        return Err(EscrowError::AccountAlreadyInitialized);
    }
    if payer.lamports < lamports {
        return Err(EscrowError::InsufficientFunds);
    }
    payer.lamports = payer.lamports - lamports;
    acc.lamports = lamports;
    acc.owner = token_program_id();
    acc.data = fresh_token_account_data(mint, authority);
    Ok(())
}

} // verus!
