use vstd::prelude::*;
use crate::account::{
    Account, check_token_account, check_vacant, is_token_account, is_vacant, spec_token_authority,
    spec_token_mint, token_authority, token_mint, MINT_LEN,
};
use crate::addr::{addr_eq, program_id, spec_program_id, spec_token_program_id, token_program_id};
use crate::errors::EscrowError;
use crate::ledger::{create_token_account, debited, fresh_holding, reports};
use crate::pda::{find_associated_address, spec_found_ata};
use crate::state::RECORD_LEN;

verus! {

/// The first failing condition of two checks performed in order.
pub open spec fn first_of(a: Option<EscrowError>, b: Option<EscrowError>) -> Option<EscrowError> {
    if a is Some {
        a
    } else {
        b
    }
}

/// Signer check: fails unless the account's signature bit is set.
pub open spec fn signer_check_spec(a: Account) -> Option<EscrowError> {
    if !a.is_signer {
        Some(EscrowError::MissingRequiredSignature)
    } else {
        None
    }
}

pub fn signer_check(a: &Account) -> (r: Result<(), EscrowError>)
    ensures
        reports(r, signer_check_spec(*a)),
{
    if a.is_signer {
        Ok(())
    } else {
        Err(EscrowError::MissingRequiredSignature)
    }
}

/// Program-owned check: fails unless the account is owned by this program
/// and its data length matches the record size.
pub open spec fn program_account_check_spec(a: Account) -> Option<EscrowError> {
    if a.owner@ != spec_program_id() {
        Some(EscrowError::InvalidAccountOwner)
    } else if a.data@.len() != RECORD_LEN {
        Some(EscrowError::InvalidAccountData)
    } else {
        None
    }
}

pub fn program_account_check(a: &Account) -> (r: Result<(), EscrowError>)
    ensures
        reports(r, program_account_check_spec(*a)),
{
    let pid = program_id();
    if !addr_eq(&a.owner, &pid) {
        return Err(EscrowError::InvalidAccountOwner);
    }
    if a.data.len() != RECORD_LEN {
        return Err(EscrowError::InvalidAccountData);
    }
    Ok(())
}

/// Mint-interface check: fails unless the account is owned by the
/// recognized asset-ledger program and has the expected mint data length.
pub open spec fn mint_interface_check_spec(a: Account) -> Option<EscrowError> {
    if a.owner@ != spec_token_program_id() {
        Some(EscrowError::InvalidAccountOwner)
    } else if a.data@.len() != MINT_LEN {
        Some(EscrowError::InvalidAccountData)
    } else {
        None
    }
}

pub fn mint_interface_check(a: &Account) -> (r: Result<(), EscrowError>)
    ensures
        reports(r, mint_interface_check_spec(*a)),
{
    let tid = token_program_id();
    if !addr_eq(&a.owner, &tid) {
        return Err(EscrowError::InvalidAccountOwner);
    }
    if a.data.len() != MINT_LEN {
        return Err(EscrowError::InvalidAccountData);
    }
    Ok(())
}

/// Associated-account check: recompute the deterministic address for
/// (owner, mint, asset-ledger program) and fail unless it equals the
/// supplied account's address.
pub open spec fn associated_check_spec(
    a: Account,
    owner: Seq<u8>,
    mint: Seq<u8>,
    token_prog: Seq<u8>,
) -> Option<EscrowError> {
    match spec_found_ata(owner, token_prog, mint) {
        None => Some(EscrowError::InvalidSeeds),
        Some(ab) => if a.address@ != ab.0 {
            Some(EscrowError::InvalidAccountData)
        } else {
            None
        },
    }
}

pub fn associated_check(
    a: &Account,
    owner: &Account,
    mint: &Account,
    token_prog: &Account,
) -> (r: Result<(), EscrowError>)
    ensures
        reports(r, associated_check_spec(*a, owner.address@, mint.address@, token_prog.address@)),
{
    match find_associated_address(&owner.address, &token_prog.address, &mint.address) {
        None => Err(EscrowError::InvalidSeeds),
        Some(ab) => {
            if !addr_eq(&a.address, &ab.0) {
                Err(EscrowError::InvalidAccountData)
            } else {
                Ok(())
            }
        },
    }
}

/// A holding account that is ready to be used as the deterministic account
/// of `owner` for `mint`: initialized under the asset-ledger program and
/// recording that mint and authority.
pub open spec fn ata_ready(a: Account, owner: Seq<u8>, mint: Seq<u8>) -> bool {
    &&& is_token_account(a)
    &&& spec_token_mint(a.data@) == mint
    &&& spec_token_authority(a.data@) == owner
}

/// Decide whether `a` is ready as the deterministic holding account of
/// `owner` for `mint`.
pub fn check_ata_ready(a: &Account, owner: &[u8; 32], mint: &[u8; 32]) -> (r: bool)
    ensures
        r == ata_ready(*a, owner@, mint@),
{
    if !check_token_account(a) {
        return false;
    }
    let m = token_mint(a);
    let auth = token_authority(a);
    addr_eq(&m, mint) && addr_eq(&auth, owner)
}

/// On which inputs preparing (validating, or creating when absent) the
/// deterministic holding account fails, and with which condition. The
/// paying account enters only through its balance.
pub open spec fn ata_init_check(
    payer_lamports: u64,
    a: Account,
    owner: Seq<u8>,
    mint: Seq<u8>,
    token_prog: Seq<u8>,
    lamports: u64,
) -> Option<EscrowError> {
    match spec_found_ata(owner, token_prog, mint) {
        None => Some(EscrowError::InvalidSeeds),
        Some(ab) => if a.address@ != ab.0 {
            Some(EscrowError::InvalidAccountData)
        } else if ata_ready(a, owner, mint) {
            None
        } else if !(is_vacant(a) && a.lamports == 0) {
            Some(EscrowError::AccountAlreadyInitialized)
        } else if payer_lamports < lamports {
            Some(EscrowError::InsufficientFunds)
        } else {
            None
        },
    }
}

/// Validate the deterministic holding account of `owner` for `mint`, and
/// create it (funded by `payer` with `lamports`) when it does not exist yet.
pub fn ata_init_if_needed(
    payer: &mut Account,
    a: &mut Account,
    owner: &[u8; 32],
    mint: &[u8; 32],
    token_prog: &[u8; 32],
    lamports: u64,
) -> (r: Result<(), EscrowError>)
    ensures
        reports(
            r,
            ata_init_check(old(payer).lamports, *old(a), owner@, mint@, token_prog@, lamports),
        ),
        r is Ok ==> ata_ready(*final(a), owner@, mint@) && final(a).address == old(a).address
            && if ata_ready(*old(a), owner@, mint@) {
            *final(a) == *old(a) && *final(payer) == *old(payer)
        } else {
            fresh_holding(*old(a), *final(a), mint@, owner@, lamports) && debited(
                *old(payer),
                *final(payer),
                lamports,
            )
        },
        r is Err ==> *final(a) == *old(a) && *final(payer) == *old(payer),
{
    match find_associated_address(owner, token_prog, mint) {
        None => Err(EscrowError::InvalidSeeds),
        Some(ab) => {
            if !addr_eq(&a.address, &ab.0) {
                return Err(EscrowError::InvalidAccountData);
            }
            if check_token_account(a) {
                let m = token_mint(a);
                let auth = token_authority(a);
                if addr_eq(&m, mint) && addr_eq(&auth, owner) {
                    return Ok(());
                }
            }
            if !check_vacant(a) || a.lamports != 0 {
                return Err(EscrowError::AccountAlreadyInitialized);
            }
            match create_token_account(payer, a, mint, owner, lamports) {
                Ok(u) => Ok(()),
                Err(e) => Err(e),
            }
        },
    }
}

} // verus!
