use vstd::prelude::*;
use vstd::bytes::{
    lemma_auto_spec_u64_to_from_le_bytes, spec_u64_from_le_bytes, u64_from_le_bytes,
    u64_to_le_bytes,
};
use vstd::slice::slice_subrange;
use crate::addr::{spec_system_program_id, spec_token_program_id, system_program_id, token_program_id, addr_eq, read_addr};

verus! {

/// Number of bytes of an asset-ledger holding account.
pub const TOKEN_ACCOUNT_LEN: usize = 165;

/// Number of bytes of an asset-ledger mint account.
pub const MINT_LEN: usize = 82;

/// The engine's view of one ledger account at the start of an instruction:
/// its address, the program that owns it, whether it signed the instruction,
/// its storage-deposit balance, and its raw data bytes.
///
/// Accounts that do not exist in initialized form are represented as vacant:
/// owned by the storage-allocation program with empty data.
pub struct Account {
    pub address: [u8; 32],
    pub owner: [u8; 32],
    pub is_signer: bool,
    pub lamports: u64,
    pub data: Vec<u8>,
}

impl Account {
    /// An identical copy, for callers that must keep the pre-state around.
    pub fn duplicate(&self) -> (r: Account)
        ensures
            r.address == self.address,
            r.owner == self.owner,
            r.is_signer == self.is_signer,
            r.lamports == self.lamports,
            r.data@ == self.data@,
    {
        let mut data: Vec<u8> = Vec::new();
        let mut i: usize = 0;
        while i < self.data.len()
            invariant
                i <= self.data@.len(),
                data@ == self.data@.subrange(0, i as int),
            decreases self.data@.len() - i,
        {
            data.push(self.data[i]);
            proof {
                assert(data@ =~= self.data@.subrange(0, i + 1));
            }
            i += 1;
        }
        proof {
            assert(data@ =~= self.data@);
        }
        Account {
            address: self.address,
            owner: self.owner,
            is_signer: self.is_signer,
            lamports: self.lamports,
            data,
        }
    }
}

/// An account that does not exist in initialized form: owned by the
/// storage-allocation program and holding no data.
pub open spec fn is_vacant(a: Account) -> bool {
    &&& a.owner@ == spec_system_program_id()
    &&& a.data@.len() == 0
}

/// An initialized holding account of the recognized asset-ledger program.
pub open spec fn is_token_account(a: Account) -> bool {
    &&& a.owner@ == spec_token_program_id()
    &&& a.data@.len() == TOKEN_ACCOUNT_LEN
}

/// Asset type recorded in a holding account's data.
pub open spec fn spec_token_mint(data: Seq<u8>) -> Seq<u8> {
    data.subrange(0, 32)
}

/// Authority recorded in a holding account's data.
pub open spec fn spec_token_authority(data: Seq<u8>) -> Seq<u8> {
    data.subrange(32, 64)
}

/// Balance recorded in a holding account's data.
pub open spec fn spec_token_amount(data: Seq<u8>) -> u64 {
    spec_u64_from_le_bytes(data.subrange(64, 72))
}

/// Read the asset type of a holding account.
pub fn token_mint(a: &Account) -> (r: [u8; 32])
    requires
        is_token_account(*a),
    ensures
        r@ == spec_token_mint(a.data@),
{
    read_addr(&a.data, 0)
}

/// Read the authority of a holding account.
pub fn token_authority(a: &Account) -> (r: [u8; 32])
    requires
        is_token_account(*a),
    ensures
        r@ == spec_token_authority(a.data@),
{
    read_addr(&a.data, 32)
}

/// Read the balance of a holding account.
pub fn token_amount(a: &Account) -> (r: u64)
    requires
        is_token_account(*a),
    ensures
        r == spec_token_amount(a.data@),
{
    u64_from_le_bytes(slice_subrange(a.data.as_slice(), 64, 72))
}

/// Decide whether `a` is an initialized holding account.
pub fn check_token_account(a: &Account) -> (r: bool)
    ensures
        r == is_token_account(*a),
{
    let tid = token_program_id();
    addr_eq(&a.owner, &tid) && a.data.len() == TOKEN_ACCOUNT_LEN
}

/// Decide whether `a` is vacant.
pub fn check_vacant(a: &Account) -> (r: bool)
    ensures
        r == is_vacant(*a),
{
    let sid = system_program_id();
    addr_eq(&a.owner, &sid) && a.data.len() == 0
}

/// Fresh holding-account data for `mint` under `authority`, with balance 0.
pub fn fresh_token_account_data(mint: &[u8; 32], authority: &[u8; 32]) -> (r: Vec<u8>)
    ensures
        r@.len() == TOKEN_ACCOUNT_LEN,
        spec_token_mint(r@) == mint@,
        spec_token_authority(r@) == authority@,
        spec_token_amount(r@) == 0,
{
    let mut v: Vec<u8> = Vec::new();
    v.extend_from_slice(mint.as_slice());
    v.extend_from_slice(authority.as_slice());
    let zero_bytes = u64_to_le_bytes(0u64);
    v.extend_from_slice(zero_bytes.as_slice());
    let mut i: usize = 0;
    while i < 93
        invariant
            v@.len() == 72 + i,
            i <= 93,
            v@.subrange(0, 32) == mint@,
            v@.subrange(32, 64) == authority@,
            v@.subrange(64, 72) == zero_bytes@,
        decreases 93 - i,
    {
        let ghost old_v = v@;
        v.push(0u8);
        proof {
            assert(v@.subrange(0, 32) =~= old_v.subrange(0, 32));
            assert(v@.subrange(32, 64) =~= old_v.subrange(32, 64));
            assert(v@.subrange(64, 72) =~= old_v.subrange(64, 72));
        }
        i += 1;
    }
    proof {
        lemma_auto_spec_u64_to_from_le_bytes();
    }
    v
}

/// Overwrite the balance field of a holding account's data, leaving every
/// other byte as it was.
pub fn write_token_amount(a: &mut Account, amount: u64)
    requires
        is_token_account(*old(a)),
    ensures
        is_token_account(*final(a)),
        spec_token_amount(final(a).data@) == amount,
        spec_token_mint(final(a).data@) == spec_token_mint(old(a).data@),
        spec_token_authority(final(a).data@) == spec_token_authority(old(a).data@),
        final(a).address == old(a).address,
        final(a).owner == old(a).owner,
        final(a).is_signer == old(a).is_signer,
        final(a).lamports == old(a).lamports,
        final(a).data@.len() == old(a).data@.len(),
{
    let bytes = u64_to_le_bytes(amount);
    let ghost pre = a.data@;
    let mut i: usize = 0;
    while i < 8
        invariant
            i <= 8,
            bytes@.len() == 8,
            a.data@.len() == pre.len(),
            pre.len() == TOKEN_ACCOUNT_LEN,
            forall|j: int| 0 <= j < 64 ==> a.data@[j] == pre[j],
            forall|j: int| 72 <= j < 165 ==> a.data@[j] == pre[j],
            forall|j: int| 0 <= j < i ==> a.data@[64 + j] == bytes@[j],
            a.address == old(a).address,
            a.owner == old(a).owner,
            a.is_signer == old(a).is_signer,
            a.lamports == old(a).lamports,
        decreases 8 - i,
    {
        let b = bytes[i];
        a.data.set(64 + i, b);
        i += 1;
    }
    proof {
        lemma_auto_spec_u64_to_from_le_bytes();
        assert(a.data@.subrange(64, 72) =~= bytes@);
        assert(a.data@.subrange(0, 32) =~= pre.subrange(0, 32));
        assert(a.data@.subrange(32, 64) =~= pre.subrange(32, 64));
    }
}

} // verus!
