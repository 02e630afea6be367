use vstd::prelude::*;
use vstd::bytes::{
    lemma_auto_spec_u64_to_from_le_bytes, spec_u64_from_le_bytes, u64_from_le_bytes,
    u64_to_le_bytes,
};
use vstd::slice::slice_subrange;
use crate::addr::read_addr;
use crate::errors::EscrowError;

verus! {

/// Number of bytes of an encoded escrow record: seed (8) + maker (32)
/// + mint_a (32) + mint_b (32) + receive (8) + bump (1).
pub const RECORD_LEN: usize = 113;

/// One pending trade: the fields that are written once when the escrow is
/// opened and read back when it is completed or cancelled.
pub struct Escrow {
    /// Client-chosen nonce; part of the address derivation.
    pub seed: u64,
    /// Creator of the escrow, sole authority for a refund.
    pub maker: [u8; 32],
    /// Asset type locked in the vault.
    pub mint_a: [u8; 32],
    /// Asset type the maker wants to receive.
    pub mint_b: [u8; 32],
    /// Exact amount of `mint_b` required to complete the trade.
    pub receive: u64,
    /// Derivation salt that makes the escrow address a valid keyless address.
    pub bump: u8,
}

/// The nonce stored in an encoded record.
pub open spec fn spec_record_seed(s: Seq<u8>) -> u64 {
    spec_u64_from_le_bytes(s.subrange(0, 8))
}

/// The maker address stored in an encoded record.
pub open spec fn spec_record_maker(s: Seq<u8>) -> Seq<u8> {
    s.subrange(8, 40)
}

/// The locked asset type stored in an encoded record.
pub open spec fn spec_record_mint_a(s: Seq<u8>) -> Seq<u8> {
    s.subrange(40, 72)
}

/// The asked-for asset type stored in an encoded record.
pub open spec fn spec_record_mint_b(s: Seq<u8>) -> Seq<u8> {
    s.subrange(72, 104)
}

/// The asked-for amount stored in an encoded record.
pub open spec fn spec_record_receive(s: Seq<u8>) -> u64 {
    spec_u64_from_le_bytes(s.subrange(104, 112))
}

/// The derivation salt stored in an encoded record.
pub open spec fn spec_record_bump(s: Seq<u8>) -> u8 {
    s[112]
}

/// The fixed little-endian layout of an escrow record over a byte buffer.
pub open spec fn record_encodes(s: Seq<u8>, e: Escrow) -> bool {
    &&& s.len() == RECORD_LEN
    &&& e.seed == spec_record_seed(s)
    &&& e.maker@ == spec_record_maker(s)
    &&& e.mint_a@ == spec_record_mint_a(s)
    &&& e.mint_b@ == spec_record_mint_b(s)
    &&& e.receive == spec_record_receive(s)
    &&& e.bump == spec_record_bump(s)
}

impl Escrow {
    /// Parse a record from account data. No partial records: the buffer must
    /// hold exactly one full record.
    pub fn load(data: &Vec<u8>) -> (r: Result<Escrow, EscrowError>)
        ensures
            r is Ok <==> data@.len() == RECORD_LEN,
            r matches Err(e) ==> e == EscrowError::InvalidAccountData,
            r matches Ok(e) ==> record_encodes(data@, e),
    {
        if data.len() != RECORD_LEN {
            return Err(EscrowError::InvalidAccountData);
        }
        let seed = u64_from_le_bytes(slice_subrange(data.as_slice(), 0, 8));
        let maker = read_addr(data, 8);
        let mint_a = read_addr(data, 40);
        let mint_b = read_addr(data, 72);
        let receive = u64_from_le_bytes(slice_subrange(data.as_slice(), 104, 112));
        let bump = data[112];
        Ok(Escrow { seed, maker, mint_a, mint_b, receive, bump })
    }

    /// Serialize the record into account data in one write, replacing the
    /// whole buffer. No partial writes: a buffer of any other size than
    /// exactly one record is rejected untouched.
    pub fn store(&self, data: &mut Vec<u8>) -> (r: Result<(), EscrowError>)
        ensures
            r is Ok <==> old(data)@.len() == RECORD_LEN,
            r matches Err(e) ==> e == EscrowError::InvalidAccountData && final(data)@ == old(
                data,
            )@,
            r is Ok ==> final(data)@.len() == RECORD_LEN && record_encodes(
                final(data)@,
                *self,
            ),
    {
        if data.len() != RECORD_LEN {
            return Err(EscrowError::InvalidAccountData);
        }
        let mut v: Vec<u8> = Vec::new();
        let seed_bytes = u64_to_le_bytes(self.seed);
        let receive_bytes = u64_to_le_bytes(self.receive);
        v.extend_from_slice(seed_bytes.as_slice());
        v.extend_from_slice(self.maker.as_slice());
        v.extend_from_slice(self.mint_a.as_slice());
        v.extend_from_slice(self.mint_b.as_slice());
        v.extend_from_slice(receive_bytes.as_slice());
        v.push(self.bump);
        proof {
            lemma_auto_spec_u64_to_from_le_bytes();
            assert(v@.subrange(0, 8) =~= seed_bytes@);
            assert(v@.subrange(8, 40) =~= self.maker@);
            assert(v@.subrange(40, 72) =~= self.mint_a@);
            assert(v@.subrange(72, 104) =~= self.mint_b@);
            assert(v@.subrange(104, 112) =~= receive_bytes@);
        }
        *data = v;
        Ok(())
    }

    pub fn set_seed(&mut self, seed: u64)
        ensures
            final(self).seed == seed,
            final(self).maker == old(self).maker,
            final(self).mint_a == old(self).mint_a,
            final(self).mint_b == old(self).mint_b,
            final(self).receive == old(self).receive,
            final(self).bump == old(self).bump,
    {
        self.seed = seed;
    }

    pub fn set_maker(&mut self, maker: [u8; 32])
        ensures
            final(self).maker == maker,
            final(self).seed == old(self).seed,
            final(self).mint_a == old(self).mint_a,
            final(self).mint_b == old(self).mint_b,
            final(self).receive == old(self).receive,
            final(self).bump == old(self).bump,
    {
        self.maker = maker;
    }

    pub fn set_mint_a(&mut self, mint_a: [u8; 32])
        ensures
            final(self).mint_a == mint_a,
            final(self).seed == old(self).seed,
            final(self).maker == old(self).maker,
            final(self).mint_b == old(self).mint_b,
            final(self).receive == old(self).receive,
            final(self).bump == old(self).bump,
    {
        self.mint_a = mint_a;
    }

    pub fn set_mint_b(&mut self, mint_b: [u8; 32])
        ensures
            final(self).mint_b == mint_b,
            final(self).seed == old(self).seed,
            final(self).maker == old(self).maker,
            final(self).mint_a == old(self).mint_a,
            final(self).receive == old(self).receive,
            final(self).bump == old(self).bump,
    {
        self.mint_b = mint_b;
    }

    pub fn set_receive(&mut self, receive: u64)
        ensures
            final(self).receive == receive,
            final(self).seed == old(self).seed,
            final(self).maker == old(self).maker,
            final(self).mint_a == old(self).mint_a,
            final(self).mint_b == old(self).mint_b,
            final(self).bump == old(self).bump,
    {
        self.receive = receive;
    }

    pub fn set_bump(&mut self, bump: u8)
        ensures
            final(self).bump == bump,
            final(self).seed == old(self).seed,
            final(self).maker == old(self).maker,
            final(self).mint_a == old(self).mint_a,
            final(self).mint_b == old(self).mint_b,
            final(self).receive == old(self).receive,
    {
        self.bump = bump;
    }

    /// Set every field in one call, as done once at creation time.
    pub fn set_inner(
        &mut self,
        seed: u64,
        maker: [u8; 32],
        mint_a: [u8; 32],
        mint_b: [u8; 32],
        receive: u64,
        bump: u8,
    )
        ensures
            final(self).seed == seed,
            final(self).maker == maker,
            final(self).mint_a == mint_a,
            final(self).mint_b == mint_b,
            final(self).receive == receive,
            final(self).bump == bump,
    {
        self.seed = seed;
        self.maker = maker;
        self.mint_a = mint_a;
        self.mint_b = mint_b;
        self.receive = receive;
        self.bump = bump;
    }
}

/// Two records encoded by the same bytes agree on every field view.
pub proof fn lemma_record_encoding_unambiguous(s: Seq<u8>, e1: Escrow, e2: Escrow)
    requires
        record_encodes(s, e1),
        record_encodes(s, e2),
    ensures
        e1.seed == e2.seed,
        e1.maker@ == e2.maker@,
        e1.mint_a@ == e2.mint_a@,
        e1.mint_b@ == e2.mint_b@,
        e1.receive == e2.receive,
        e1.bump == e2.bump,
{
}

} // verus!
