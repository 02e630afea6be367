use vstd::prelude::*;

verus! {

/// The identity of this escrow program on the host ledger.
pub open spec fn spec_program_id() -> Seq<u8> {
    seq![
        0x0fu8, 0x1e, 0x6b, 0x14, 0x21, 0xc0, 0x4a, 0x07,
        0x04, 0x31, 0x26, 0x5c, 0x19, 0xc5, 0xbb, 0xee,
        0x19, 0x92, 0xba, 0xe8, 0xaf, 0xd1, 0xcd, 0x07,
        0x8e, 0xf8, 0xaf, 0x70, 0x47, 0xdc, 0x11, 0xf7,
    ]
}

/// The identity of the asset-ledger (token) program whose mints and holding
/// accounts this engine recognizes.
pub open spec fn spec_token_program_id() -> Seq<u8> {
    seq![
        0x06u8, 0xdd, 0xf6, 0xe1, 0xd7, 0x65, 0xa1, 0x93,
        0xd9, 0xcb, 0xe1, 0x46, 0xce, 0xeb, 0x79, 0xac,
        0x1c, 0xb4, 0x85, 0xed, 0x5f, 0x5b, 0x37, 0x91,
        0x3a, 0x8c, 0xf5, 0x85, 0x7e, 0xff, 0x00, 0xa9,
    ]
}

/// The identity of the deterministic-address (associated-account) program
/// under which token holding accounts are derived.
pub open spec fn spec_ata_program_id() -> Seq<u8> {
    seq![
        0x8cu8, 0x97, 0x25, 0x8f, 0x4e, 0x24, 0x89, 0xf1,
        0xbb, 0x3d, 0x10, 0x29, 0x14, 0x8e, 0x0d, 0x83,
        0x0b, 0x5a, 0x13, 0x99, 0xda, 0xff, 0x10, 0x84,
        0x04, 0x8e, 0x7b, 0xd8, 0xdb, 0xe9, 0xf8, 0x59,
    ]
}

/// The identity of the storage-allocation (system) program, which also owns
/// every account that does not exist in initialized form.
pub open spec fn spec_system_program_id() -> Seq<u8> {
    Seq::new(32, |i: int| 0u8)
}

pub fn program_id() -> (r: [u8; 32])
    ensures
        r@ == spec_program_id(),
{
    let r: [u8; 32] = [
        0x0f, 0x1e, 0x6b, 0x14, 0x21, 0xc0, 0x4a, 0x07,
        0x04, 0x31, 0x26, 0x5c, 0x19, 0xc5, 0xbb, 0xee,
        0x19, 0x92, 0xba, 0xe8, 0xaf, 0xd1, 0xcd, 0x07,
        0x8e, 0xf8, 0xaf, 0x70, 0x47, 0xdc, 0x11, 0xf7,
    ];
    proof {
        assert(r@ =~= spec_program_id());
    }
    r
}

pub fn token_program_id() -> (r: [u8; 32])
    ensures
        r@ == spec_token_program_id(),
{
    let r: [u8; 32] = [
        0x06, 0xdd, 0xf6, 0xe1, 0xd7, 0x65, 0xa1, 0x93,
        0xd9, 0xcb, 0xe1, 0x46, 0xce, 0xeb, 0x79, 0xac,
        0x1c, 0xb4, 0x85, 0xed, 0x5f, 0x5b, 0x37, 0x91,
        0x3a, 0x8c, 0xf5, 0x85, 0x7e, 0xff, 0x00, 0xa9,
    ];
    proof {
        assert(r@ =~= spec_token_program_id());
    }
    r
}

pub fn ata_program_id() -> (r: [u8; 32])
    ensures
        r@ == spec_ata_program_id(),
{
    let r: [u8; 32] = [
        0x8c, 0x97, 0x25, 0x8f, 0x4e, 0x24, 0x89, 0xf1,
        0xbb, 0x3d, 0x10, 0x29, 0x14, 0x8e, 0x0d, 0x83,
        0x0b, 0x5a, 0x13, 0x99, 0xda, 0xff, 0x10, 0x84,
        0x04, 0x8e, 0x7b, 0xd8, 0xdb, 0xe9, 0xf8, 0x59,
    ];
    proof {
        assert(r@ =~= spec_ata_program_id());
    }
    r
}

pub fn system_program_id() -> (r: [u8; 32])
    ensures
        r@ == spec_system_program_id(),
{
    let r: [u8; 32] = [0u8; 32];
    proof {
        assert(r@ =~= spec_system_program_id());
    }
    r
}

/// Byte-wise equality of two 32-byte addresses.
pub fn addr_eq(a: &[u8; 32], b: &[u8; 32]) -> (r: bool)
    ensures
        r == (a@ == b@),
{
    let mut i: usize = 0;
    while i < 32
        invariant
            i <= 32,
            forall|j: int| 0 <= j < i ==> a@[j] == b@[j],
        decreases 32 - i,
    {
        if a[i] != b[i] {
            proof {
                assert(a@[i as int] != b@[i as int]);
            }
            return false;
        }
        i += 1;
    }
    proof {
        assert(a@ =~= b@);
    }
    true
}

/// Copy a 32-byte address out of `data` starting at `off`.
pub fn read_addr(data: &Vec<u8>, off: usize) -> (r: [u8; 32])
    requires
        off + 32 <= data@.len(),
    ensures
        r@ == data@.subrange(off as int, off + 32),
{
    let mut r: [u8; 32] = [0u8; 32];
    let mut i: usize = 0;
    while i < 32
        invariant
            i <= 32,
            off + 32 <= data.len(),
            forall|j: int| 0 <= j < i ==> r@[j] == data@[off + j],
        decreases 32 - i,
    {
        proof {
            assert(off + i < data.len());
        }
        r[i] = data[off + i];
        i += 1;
    }
    proof {
        assert(r@ =~= data@.subrange(off as int, off + 32));
    }
    r
}

} // verus!
