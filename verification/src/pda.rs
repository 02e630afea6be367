use vstd::prelude::*;
use vstd::bytes::{spec_u64_to_le_bytes, u64_to_le_bytes};
use vstd::slice::slice_to_vec;
use crate::addr::{ata_program_id, program_id, spec_ata_program_id, spec_program_id};

verus! {

/// What the derivation service returns for a seed list plus program
/// identity: the derived 32-byte address, or nothing when the seed list
/// yields no valid keyless address. The result depends on the arguments
/// alone.
pub uninterp spec fn derived_address(seeds: Seq<Seq<u8>>, program: Seq<u8>) -> Option<Seq<u8>>;

/// What the derivation service's search step returns for a seed list plus
/// program identity: a derived address together with the bump that makes it
/// valid, or nothing when no bump works. The result depends on the
/// arguments alone.
pub uninterp spec fn found_address(seeds: Seq<Seq<u8>>, program: Seq<u8>) -> Option<(Seq<u8>, u8)>;

/// Relies on solana_address::Address::create_program_address: the derived
/// address is a deterministic digest of the seed list and program identity;
/// the call fails exactly when the seeds yield no valid keyless address.
#[verifier::external_body]
pub(crate) fn create_program_address(seeds: &Vec<Vec<u8>>, program: &[u8; 32]) -> (r: Option<
    [u8; 32],
>)
    ensures
        r matches Some(a) ==> derived_address(seeds.deep_view(), program@) == Some(a@),
        r is None ==> derived_address(seeds.deep_view(), program@) is None,
{
    let mut refs: Vec<&[u8]> = Vec::new();
    for s in seeds.iter() {
        refs.push(s.as_slice());
    }
    let pid = solana_address::Address::new_from_array(*program);
    match solana_address::Address::create_program_address(&refs, &pid) {
        Ok(a) => Some(a.to_bytes()),
        Err(_) => None,
    }
}

/// Relies on solana_address::Address::try_find_program_address: it returns a
/// bump and the address derived from the seed list with that bump appended
/// (so a later create_program_address on seeds-plus-bump re-derives the same
/// address), or nothing when no bump works.
#[verifier::external_body]
pub(crate) fn try_find_program_address(seeds: &Vec<Vec<u8>>, program: &[u8; 32]) -> (r: Option<
    ([u8; 32], u8),
>)
    ensures
        r matches Some(ab) ==> found_address(seeds.deep_view(), program@) == Some((ab.0@, ab.1))
            && derived_address(seeds.deep_view().push(seq![ab.1]), program@) == Some(ab.0@),
        r is None ==> found_address(seeds.deep_view(), program@) is None,
{
    let mut refs: Vec<&[u8]> = Vec::new();
    for s in seeds.iter() {
        refs.push(s.as_slice());
    }
    let pid = solana_address::Address::new_from_array(*program);
    solana_address::Address::try_find_program_address(&refs, &pid).map(|(a, b)| (a.to_bytes(), b))
}

/// The domain-separation tag that starts every escrow seed list.
pub open spec fn spec_escrow_tag() -> Seq<u8> {
    seq![101u8, 115u8, 99u8, 114u8, 111u8, 119u8]
}

pub fn escrow_tag() -> (r: Vec<u8>)
    ensures
        r@ == spec_escrow_tag(),
{
    let mut r: Vec<u8> = Vec::new();
    r.push(101);
    r.push(115);
    r.push(99);
    r.push(114);
    r.push(111);
    r.push(119);
    proof {
        assert(r@ =~= spec_escrow_tag());
    }
    r
}

/// The seed list of an escrow: tag, maker address, nonce bytes.
pub open spec fn spec_escrow_seeds(maker: Seq<u8>, seed: u64) -> Seq<Seq<u8>> {
    seq![spec_escrow_tag(), maker, spec_u64_to_le_bytes(seed)]
}

/// The address an escrow record must live at, given its stored fields.
pub open spec fn spec_escrow_address(maker: Seq<u8>, seed: u64, bump: u8) -> Option<Seq<u8>> {
    derived_address(spec_escrow_seeds(maker, seed).push(seq![bump]), spec_program_id())
}

/// The address-and-bump pair the search step yields for an escrow seed list.
pub open spec fn spec_found_escrow(maker: Seq<u8>, seed: u64) -> Option<(Seq<u8>, u8)> {
    found_address(spec_escrow_seeds(maker, seed), spec_program_id())
}

/// The seed list of a deterministic holding account for (owner, asset-ledger
/// program, mint).
pub open spec fn spec_ata_seeds(owner: Seq<u8>, token_prog: Seq<u8>, mint: Seq<u8>) -> Seq<
    Seq<u8>,
> {
    seq![owner, token_prog, mint]
}

/// The address-and-bump pair of the deterministic holding account for
/// (owner, asset-ledger program, mint).
pub open spec fn spec_found_ata(owner: Seq<u8>, token_prog: Seq<u8>, mint: Seq<u8>) -> Option<
    (Seq<u8>, u8),
> {
    found_address(spec_ata_seeds(owner, token_prog, mint), spec_ata_program_id())
}

/// A capability to act as an escrow's derived (keyless) address: the
/// domain-separated seed inputs together with the verified bump. No private
/// key exists for such an address; holding the inputs that re-derive it is
/// what authorizes actions on its behalf.
pub struct SigningAuthority {
    /// Maker address used as a seed.
    pub maker: [u8; 32],
    /// Client-chosen nonce used as a seed.
    pub seed: u64,
    /// Salt making the derived address a valid keyless address.
    pub bump: u8,
    /// The derived address itself.
    pub address: [u8; 32],
}

/// Well-formedness of a signing authority: its seed inputs re-derive
/// exactly its address.
pub open spec fn authority_wf(s: SigningAuthority) -> bool {
    spec_escrow_address(s.maker@, s.seed, s.bump) == Some(s.address@)
}

/// Copy an address into an owned seed.
pub fn addr_seed(a: &[u8; 32]) -> (r: Vec<u8>)
    ensures
        r@ == a@,
{
    slice_to_vec(a.as_slice())
}

/// Re-derive the escrow address from stored fields.
pub fn derive_escrow_address(maker: &[u8; 32], seed: u64, bump: u8) -> (r: Option<[u8; 32]>)
    ensures
        r matches Some(a) ==> spec_escrow_address(maker@, seed, bump) == Some(a@),
        r is None ==> spec_escrow_address(maker@, seed, bump) is None,
{
    let mut seeds: Vec<Vec<u8>> = Vec::new();
    seeds.push(escrow_tag());
    seeds.push(addr_seed(maker));
    seeds.push(u64_to_le_bytes(seed));
    let mut bump_seed: Vec<u8> = Vec::new();
    bump_seed.push(bump);
    seeds.push(bump_seed);
    proof {
        assert(seeds.deep_view() =~~= spec_escrow_seeds(maker@, seed).push(seq![bump]));
    }
    let pid = program_id();
    create_program_address(&seeds, &pid)
}

/// Search for the escrow address and the bump that makes it valid.
pub fn find_escrow_address(maker: &[u8; 32], seed: u64) -> (r: Option<([u8; 32], u8)>)
    ensures
        r matches Some(ab) ==> spec_found_escrow(maker@, seed) == Some((ab.0@, ab.1))
            && spec_escrow_address(maker@, seed, ab.1) == Some(ab.0@),
        r is None ==> spec_found_escrow(maker@, seed) is None,
{
    let mut seeds: Vec<Vec<u8>> = Vec::new();
    seeds.push(escrow_tag());
    seeds.push(addr_seed(maker));
    seeds.push(u64_to_le_bytes(seed));
    proof {
        assert(seeds.deep_view() =~~= spec_escrow_seeds(maker@, seed));
    }
    let pid = program_id();
    try_find_program_address(&seeds, &pid)
}

/// Compute the deterministic holding-account address for (owner,
/// asset-ledger program, mint).
pub fn find_associated_address(
    owner: &[u8; 32],
    token_prog: &[u8; 32],
    mint: &[u8; 32],
) -> (r: Option<([u8; 32], u8)>)
    ensures
        r matches Some(ab) ==> spec_found_ata(owner@, token_prog@, mint@) == Some((ab.0@, ab.1)),
        r is None ==> spec_found_ata(owner@, token_prog@, mint@) is None,
{
    let mut seeds: Vec<Vec<u8>> = Vec::new();
    seeds.push(addr_seed(owner));
    seeds.push(addr_seed(token_prog));
    seeds.push(addr_seed(mint));
    proof {
        assert(seeds.deep_view() =~~= spec_ata_seeds(owner@, token_prog@, mint@));
    }
    let aid = ata_program_id();
    try_find_program_address(&seeds, &aid)
}

} // verus!
