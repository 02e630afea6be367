use vstd::prelude::*;
use vstd::bytes::{
    lemma_auto_spec_u16_to_from_le_bytes, lemma_auto_spec_u64_to_from_le_bytes,
    spec_u16_from_le_bytes, spec_u16_to_le_bytes, spec_u64_from_le_bytes, spec_u64_to_le_bytes,
    u16_from_le_bytes, u16_to_le_bytes, u64_from_le_bytes, u64_to_le_bytes,
};
use vstd::slice::slice_subrange;
use crate::account::Account;
use crate::addr::read_addr;
use crate::errors::EscrowError;

verus! {

/// Number of bytes of an encoded market-maker configuration record.
pub const CONFIG_LEN: usize = 108;

/// Number of bytes of an asset-ledger mint account, as the market maker
/// allocates it for its liquidity-share mint.
pub const LP_MINT_LEN: usize = 82;

/// Lifecycle of a market-maker pool.
pub enum AmmState {
    Uninitialized,
    Initialized,
    Disabled,
    WithdrawOnly,
}

impl AmmState {
    /// The byte this state is stored as.
    pub fn code(self) -> (r: u8)
        ensures
            r == spec_amm_state_code(self),
    {
        match self {
            AmmState::Uninitialized => 0,
            AmmState::Initialized => 1,
            AmmState::Disabled => 2,
            AmmState::WithdrawOnly => 3,
        }
    }
}

pub open spec fn spec_amm_state_code(s: AmmState) -> u8 {
    match s {
        AmmState::Uninitialized => 0,
        AmmState::Initialized => 1,
        AmmState::Disabled => 2,
        AmmState::WithdrawOnly => 3,
    }
}

/// The configuration record of one market-maker pool.
pub struct Config {
    pub state: u8,
    pub seed: u64,
    pub authority: [u8; 32],
    pub mint_x: [u8; 32],
    pub mint_y: [u8; 32],
    pub fee: u16,
    pub config_bump: u8,
}

/// The fixed little-endian layout of a configuration record over the first
/// bytes of a buffer.
pub open spec fn config_encodes(s: Seq<u8>, c: Config) -> bool {
    &&& s.len() >= CONFIG_LEN
    &&& c.state == s[0]
    &&& c.seed == spec_u64_from_le_bytes(s.subrange(1, 9))
    &&& c.authority@ == s.subrange(9, 41)
    &&& c.mint_x@ == s.subrange(41, 73)
    &&& c.mint_y@ == s.subrange(73, 105)
    &&& c.fee == spec_u16_from_le_bytes(s.subrange(105, 107))
    &&& c.config_bump == s[107]
}

impl Config {
    /// Parse a configuration record from account data. A buffer shorter
    /// than one record is rejected; extra bytes are ignored.
    pub fn load(data: &Vec<u8>) -> (r: Result<Config, EscrowError>)
        ensures
            r is Ok <==> data@.len() >= CONFIG_LEN,
            r matches Err(e) ==> e == EscrowError::InvalidAccountData,
            r matches Ok(c) ==> config_encodes(data@, c),
    {
        if data.len() < CONFIG_LEN {
            return Err(EscrowError::InvalidAccountData);
        }
        let state = data[0];
        let seed = u64_from_le_bytes(slice_subrange(data.as_slice(), 1, 9));
        let authority = read_addr(data, 9);
        let mint_x = read_addr(data, 41);
        let mint_y = read_addr(data, 73);
        let fee = u16_from_le_bytes(slice_subrange(data.as_slice(), 105, 107));
        let config_bump = data[107];
        Ok(Config { state, seed, authority, mint_x, mint_y, fee, config_bump })
    }

    /// Serialize the record into exactly one fresh record-sized buffer.
    pub fn store(&self) -> (r: Vec<u8>)
        ensures
            r@.len() == CONFIG_LEN,
            config_encodes(r@, *self),
    {
        let mut v: Vec<u8> = Vec::new();
        v.push(self.state);
        let seed_bytes = u64_to_le_bytes(self.seed);
        let fee_bytes = u16_to_le_bytes(self.fee);
        v.extend_from_slice(seed_bytes.as_slice());
        v.extend_from_slice(self.authority.as_slice());
        v.extend_from_slice(self.mint_x.as_slice());
        v.extend_from_slice(self.mint_y.as_slice());
        v.extend_from_slice(fee_bytes.as_slice());
        v.push(self.config_bump);
        proof {
            lemma_auto_spec_u64_to_from_le_bytes();
            vstd::bytes::lemma_auto_spec_u16_to_from_le_bytes();
            assert(v@.subrange(1, 9) =~= seed_bytes@);
            assert(v@.subrange(9, 41) =~= self.authority@);
            assert(v@.subrange(41, 73) =~= self.mint_x@);
            assert(v@.subrange(73, 105) =~= self.mint_y@);
            assert(v@.subrange(105, 107) =~= fee_bytes@);
        }
        v
    }

    /// Set every field in one call, marking the pool initialized, as done
    /// once at pool creation.
    pub fn set_inner(
        &mut self,
        seed: u64,
        authority: &[u8; 32],
        mint_x: &[u8; 32],
        mint_y: &[u8; 32],
        fee: u16,
        config_bump: u8,
    )
        ensures
            final(self).state == 1,
            final(self).seed == seed,
            final(self).authority == authority,
            final(self).mint_x == mint_x,
            final(self).mint_y == mint_y,
            final(self).fee == fee,
            final(self).config_bump == config_bump,
    {
        self.state = 1;
        self.seed = seed;
        self.authority = *authority;
        self.mint_x = *mint_x;
        self.mint_y = *mint_y;
        self.fee = fee;
        self.config_bump = config_bump;
    }

    /// Whether the pool accepts deposits and swaps.
    pub fn is_initialized(&self) -> (r: bool)
        ensures
            r == (self.state == 1),
    {
        self.state == 1
    }

    /// Whether the pool releases funds: fully live, or in wind-down.
    pub fn can_withdraw(&self) -> (r: bool)
        ensures
            r == (self.state == 1 || self.state == 3),
    {
        self.state == 1 || self.state == 3
    }

    /// The pool's first asset type.
    pub fn mint_x_address(&self) -> (r: [u8; 32])
        ensures
            r == self.mint_x,
    {
        self.mint_x
    }

    /// The pool's second asset type.
    pub fn mint_y_address(&self) -> (r: [u8; 32])
        ensures
            r == self.mint_y,
    {
        self.mint_y
    }
}

/// The wire arguments of a liquidity deposit.
pub struct DepositInstructionData {
    pub amount: u64,
    pub max_x: u64,
    pub max_y: u64,
    pub expiration: i64,
}

/// Payload validation for a deposit: 32 bytes, no zero amount or bound.
/// The expiration field is carried but not enforced anywhere.
pub open spec fn deposit_data_check(data: Seq<u8>) -> Option<EscrowError> {
    if data.len() != 32 {
        Some(EscrowError::InvalidInstructionData)
    } else if spec_u64_from_le_bytes(data.subrange(0, 8)) == 0 || spec_u64_from_le_bytes(
        data.subrange(8, 16),
    ) == 0 || spec_u64_from_le_bytes(data.subrange(16, 24)) == 0 {
        Some(EscrowError::InvalidInstructionData)
    } else {
        None
    }
}

impl DepositInstructionData {
    pub fn try_from_bytes(data: &[u8]) -> (r: Result<DepositInstructionData, EscrowError>)
        ensures
            r is Ok <==> deposit_data_check(data@) is None,
            r matches Err(e) ==> deposit_data_check(data@) == Some(e),
            r matches Ok(d) ==> {
                &&& d.amount == spec_u64_from_le_bytes(data@.subrange(0, 8))
                &&& d.max_x == spec_u64_from_le_bytes(data@.subrange(8, 16))
                &&& d.max_y == spec_u64_from_le_bytes(data@.subrange(16, 24))
                &&& d.expiration == spec_u64_from_le_bytes(data@.subrange(24, 32)) as i64
            },
    {
        if data.len() != 32 {
            return Err(EscrowError::InvalidInstructionData);
        }
        let amount = u64_from_le_bytes(slice_subrange(data, 0, 8));
        let max_x = u64_from_le_bytes(slice_subrange(data, 8, 16));
        let max_y = u64_from_le_bytes(slice_subrange(data, 16, 24));
        let expiration = u64_from_le_bytes(slice_subrange(data, 24, 32)) as i64;
        if amount == 0 || max_x == 0 || max_y == 0 {
            return Err(EscrowError::InvalidInstructionData);
        }
        Ok(DepositInstructionData { amount, max_x, max_y, expiration })
    }
}

/// The wire arguments of a swap.
pub struct SwapInstructionData {
    pub is_x: bool,
    pub amount: u64,
    pub min: u64,
    pub expiration: i64,
}

/// Payload validation for a swap: 25 bytes, no zero amount or floor.
pub open spec fn swap_data_check(data: Seq<u8>) -> Option<EscrowError> {
    if data.len() != 25 {
        Some(EscrowError::InvalidInstructionData)
    } else if spec_u64_from_le_bytes(data.subrange(1, 9)) == 0 || spec_u64_from_le_bytes(
        data.subrange(9, 17),
    ) == 0 {
        Some(EscrowError::InvalidInstructionData)
    } else {
        None
    }
}

impl SwapInstructionData {
    pub fn try_from_bytes(data: &[u8]) -> (r: Result<SwapInstructionData, EscrowError>)
        ensures
            r is Ok <==> swap_data_check(data@) is None,
            r matches Err(e) ==> swap_data_check(data@) == Some(e),
            r matches Ok(d) ==> {
                &&& d.is_x == (data@[0] != 0)
                &&& d.amount == spec_u64_from_le_bytes(data@.subrange(1, 9))
                &&& d.min == spec_u64_from_le_bytes(data@.subrange(9, 17))
                &&& d.expiration == spec_u64_from_le_bytes(data@.subrange(17, 25)) as i64
            },
    {
        if data.len() != 25 {
            return Err(EscrowError::InvalidInstructionData);
        }
        let is_x = data[0] != 0;
        let amount = u64_from_le_bytes(slice_subrange(data, 1, 9));
        let min = u64_from_le_bytes(slice_subrange(data, 9, 17));
        let expiration = u64_from_le_bytes(slice_subrange(data, 17, 25)) as i64;
        if amount == 0 || min == 0 {
            return Err(EscrowError::InvalidInstructionData);
        }
        Ok(SwapInstructionData { is_x, amount, min, expiration })
    }
}

/// The wire arguments of a liquidity withdrawal.
pub struct WithdrawInstructionData {
    pub amount: u64,
    pub min_x: u64,
    pub min_y: u64,
    pub expiration: i64,
}

/// Payload validation for a withdrawal: 32 bytes, no zero share amount.
pub open spec fn withdraw_data_check(data: Seq<u8>) -> Option<EscrowError> {
    if data.len() != 32 {
        Some(EscrowError::InvalidInstructionData)
    } else if spec_u64_from_le_bytes(data.subrange(0, 8)) == 0 {
        Some(EscrowError::InvalidInstructionData)
    } else {
        None
    }
}

impl WithdrawInstructionData {
    pub fn try_from_bytes(data: &[u8]) -> (r: Result<WithdrawInstructionData, EscrowError>)
        ensures
            r is Ok <==> withdraw_data_check(data@) is None,
            r matches Err(e) ==> withdraw_data_check(data@) == Some(e),
            r matches Ok(d) ==> {
                &&& d.amount == spec_u64_from_le_bytes(data@.subrange(0, 8))
                &&& d.min_x == spec_u64_from_le_bytes(data@.subrange(8, 16))
                &&& d.min_y == spec_u64_from_le_bytes(data@.subrange(16, 24))
                &&& d.expiration == spec_u64_from_le_bytes(data@.subrange(24, 32)) as i64
            },
    {
        if data.len() != 32 {
            return Err(EscrowError::InvalidInstructionData);
        }
        let amount = u64_from_le_bytes(slice_subrange(data, 0, 8));
        let min_x = u64_from_le_bytes(slice_subrange(data, 8, 16));
        let min_y = u64_from_le_bytes(slice_subrange(data, 16, 24));
        let expiration = u64_from_le_bytes(slice_subrange(data, 24, 32)) as i64;
        if amount == 0 {
            return Err(EscrowError::InvalidInstructionData);
        }
        Ok(WithdrawInstructionData { amount, min_x, min_y, expiration })
    }
}

/// The wire arguments of a pool initialization. The authority is optional
/// on the wire; absent, the zero address marks an immutable pool.
pub struct InitializeInstructionData {
    pub seed: u64,
    pub fee: u16,
    pub mint_x: [u8; 32],
    pub mint_y: [u8; 32],
    pub config_bump: u8,
    pub lp_bump: u8,
    pub authority: [u8; 32],
}

/// Payload validation for initialization: at least the mandatory 76 bytes,
/// and a fee of at most 100 percent in basis points.
pub open spec fn initialize_data_check(data: Seq<u8>) -> Option<EscrowError> {
    if data.len() < 76 {
        Some(EscrowError::InvalidInstructionData)
    } else if spec_u16_from_le_bytes(data.subrange(8, 10)) > 10000 {
        Some(EscrowError::InvalidInstructionData)
    } else {
        None
    }
}

impl InitializeInstructionData {
    pub fn try_from_bytes(data: &[u8]) -> (r: Result<InitializeInstructionData, EscrowError>)
        ensures
            r is Ok <==> initialize_data_check(data@) is None,
            r matches Err(e) ==> initialize_data_check(data@) == Some(e),
            r matches Ok(d) ==> {
                &&& d.seed == spec_u64_from_le_bytes(data@.subrange(0, 8))
                &&& d.fee == spec_u16_from_le_bytes(data@.subrange(8, 10))
                &&& d.mint_x@ == data@.subrange(10, 42)
                &&& d.mint_y@ == data@.subrange(42, 74)
                &&& d.config_bump == data@[74]
                &&& d.lp_bump == data@[75]
                &&& (data@.len() >= 108 ==> d.authority@ == data@.subrange(76, 108))
                &&& (data@.len() < 108 ==> d.authority@ == Seq::new(32, |i: int| 0u8))
            },
    {
        if data.len() < 76 {
            return Err(EscrowError::InvalidInstructionData);
        }
        let data_vec = vstd::slice::slice_to_vec(data);
        let seed = u64_from_le_bytes(slice_subrange(data, 0, 8));
        let fee = u16_from_le_bytes(slice_subrange(data, 8, 10));
        let mint_x = read_addr(&data_vec, 10);
        let mint_y = read_addr(&data_vec, 42);
        let config_bump = data[74];
        let lp_bump = data[75];
        let authority = if data.len() >= 108 {
            read_addr(&data_vec, 76)
        } else {
            let zero: [u8; 32] = [0u8; 32];
            proof {
                assert(zero@ =~= Seq::new(32, |i: int| 0u8));
            }
            zero
        };
        if fee > 10000 {
            return Err(EscrowError::InvalidInstructionData);
        }
        Ok(InitializeInstructionData { seed, fee, mint_x, mint_y, config_bump, lp_bump, authority })
    }
}

/// The steps a pool initialization decides on: allocate the configuration
/// account and the liquidity-share mint (both at fixed deposits), and the
/// byte images to write into them.
pub struct InitializePlan {
    pub payer: [u8; 32],
    pub config_account: [u8; 32],
    pub mint_lp_account: [u8; 32],
    pub config_lamports: u64,
    pub config_space: u64,
    pub mint_lamports: u64,
    pub mint_space: u64,
    pub config_data: Vec<u8>,
    pub mint_lp_data: Vec<u8>,
    pub seed: u64,
    pub config_bump: u8,
    pub lp_bump: u8,
    pub mint_x: [u8; 32],
    pub mint_y: [u8; 32],
}

/// Every condition a pool initialization checks, in order.
pub open spec fn initialize_check(data: Seq<u8>, accs: Seq<Account>) -> Option<EscrowError> {
    if accs.len() < 5 {
        Some(EscrowError::NotEnoughAccountKeys)
    } else if !accs[0].is_signer {
        Some(EscrowError::MissingRequiredSignature)
    } else if initialize_data_check(data) is Some {
        initialize_data_check(data)
    } else if data.subrange(10, 42) == data.subrange(42, 74) {
        Some(EscrowError::InvalidInstructionData)
    } else {
        None
    }
}

/// Decide a pool initialization: validate, then lay out the configuration
/// record (marked initialized) and a fresh liquidity-share mint whose
/// authority is the configuration account, with six decimal places and
/// zero supply.
pub fn initialize(_program_id: &[u8; 32], data: &[u8], accounts: &Vec<Account>) -> (r: Result<
    InitializePlan,
    EscrowError,
>)
    ensures
        r is Ok <==> initialize_check(data@, accounts@) is None,
        r matches Err(e) ==> initialize_check(data@, accounts@) == Some(e),
        r matches Ok(p) ==> {
            &&& p.payer == accounts@[0].address
            &&& p.config_account == accounts@[1].address
            &&& p.mint_lp_account == accounts@[2].address
            &&& p.config_lamports == 10000000u64
            &&& p.config_space == CONFIG_LEN as u64
            &&& p.mint_lamports == 2000000u64
            &&& p.mint_space == LP_MINT_LEN as u64
            &&& p.seed == spec_u64_from_le_bytes(data@.subrange(0, 8))
            &&& p.config_bump == data@[74]
            &&& p.lp_bump == data@[75]
            &&& p.mint_x@ == data@.subrange(10, 42)
            &&& p.mint_y@ == data@.subrange(42, 74)
            &&& p.config_data@.len() == CONFIG_LEN
            &&& p.config_data@[0] == 1
            &&& p.config_data@.subrange(1, 9) == data@.subrange(0, 8)
            &&& (data@.len() >= 108 ==> p.config_data@.subrange(9, 41) == data@.subrange(76, 108))
            &&& (data@.len() < 108 ==> p.config_data@.subrange(9, 41) == Seq::new(32, |i: int| 0u8))
            &&& p.config_data@.subrange(41, 73) == data@.subrange(10, 42)
            &&& p.config_data@.subrange(73, 105) == data@.subrange(42, 74)
            &&& p.config_data@.subrange(105, 107) == data@.subrange(8, 10)
            &&& p.config_data@[107] == data@[74]
            &&& p.mint_lp_data@.len() == LP_MINT_LEN
            &&& p.mint_lp_data@[0] == 1
            &&& p.mint_lp_data@.subrange(1, 33) == accounts@[1].address@
            &&& spec_u64_from_le_bytes(p.mint_lp_data@.subrange(33, 41)) == 0
            &&& p.mint_lp_data@[41] == 6
            &&& p.mint_lp_data@[42] == 1
            &&& p.mint_lp_data@[43] == 0
        },
{
    if accounts.len() < 5 {
        return Err(EscrowError::NotEnoughAccountKeys);
    }
    if !accounts[0].is_signer {
        return Err(EscrowError::MissingRequiredSignature);
    }
    let parsed = match InitializeInstructionData::try_from_bytes(data) {
        Ok(d) => d,
        Err(e) => {
            return Err(e);
        },
    };
    if crate::addr::addr_eq(&parsed.mint_x, &parsed.mint_y) {
        return Err(EscrowError::InvalidInstructionData);
    }
    let seed_bytes = u64_to_le_bytes(parsed.seed);
    let ghost parsed_seed_bytes = seed_bytes@;
    let mut config_data: Vec<u8> = Vec::new();
    config_data.push(1u8);
    config_data.extend_from_slice(seed_bytes.as_slice());
    config_data.extend_from_slice(parsed.authority.as_slice());
    config_data.extend_from_slice(parsed.mint_x.as_slice());
    config_data.extend_from_slice(parsed.mint_y.as_slice());
    let fee_bytes = u16_to_le_bytes(parsed.fee);
    config_data.extend_from_slice(fee_bytes.as_slice());
    config_data.push(parsed.config_bump);
    proof {
        lemma_auto_spec_u64_to_from_le_bytes();
        vstd::bytes::lemma_auto_spec_u16_to_from_le_bytes();
        assert(config_data@.subrange(1, 9) =~= parsed_seed_bytes);
        assert(spec_u64_to_le_bytes(spec_u64_from_le_bytes(data@.subrange(0, 8)))
            =~= data@.subrange(0, 8));
        assert(config_data@.subrange(9, 41) =~= parsed.authority@);
        assert(config_data@.subrange(41, 73) =~= parsed.mint_x@);
        assert(config_data@.subrange(73, 105) =~= parsed.mint_y@);
        assert(config_data@.subrange(105, 107) =~= fee_bytes@);
        assert(spec_u16_to_le_bytes(spec_u16_from_le_bytes(data@.subrange(8, 10)))
            =~= data@.subrange(8, 10));
    }
    let mut mint_lp_data: Vec<u8> = Vec::new();
    mint_lp_data.push(1u8);
    mint_lp_data.extend_from_slice(accounts[1].address.as_slice());
    let zero_supply = u64_to_le_bytes(0u64);
    mint_lp_data.extend_from_slice(zero_supply.as_slice());
    mint_lp_data.push(6u8);
    mint_lp_data.push(1u8);
    mint_lp_data.push(0u8);
    let mut i: usize = 0;
    while i < 38
        invariant
            i <= 38,
            mint_lp_data@.len() == 44 + i,
            mint_lp_data@[0] == 1u8,
            mint_lp_data@.subrange(1, 33) == accounts@[1].address@,
            mint_lp_data@.subrange(33, 41) == zero_supply@,
            mint_lp_data@[41] == 6u8,
            mint_lp_data@[42] == 1u8,
            mint_lp_data@[43] == 0u8,
        decreases 38 - i,
    {
        let ghost pre = mint_lp_data@;
        mint_lp_data.push(0u8);
        proof {
            assert(mint_lp_data@.subrange(1, 33) =~= pre.subrange(1, 33));
            assert(mint_lp_data@.subrange(33, 41) =~= pre.subrange(33, 41));
        }
        i += 1;
    }
    proof {
        lemma_auto_spec_u64_to_from_le_bytes();
        assert(mint_lp_data@.subrange(1, 33) =~= accounts@[1].address@);
    }
    Ok(
        InitializePlan {
            payer: accounts[0].address,
            config_account: accounts[1].address,
            mint_lp_account: accounts[2].address,
            config_lamports: 10000000,
            config_space: CONFIG_LEN as u64,
            mint_lamports: 2000000,
            mint_space: LP_MINT_LEN as u64,
            config_data,
            mint_lp_data,
            seed: parsed.seed,
            config_bump: parsed.config_bump,
            lp_bump: parsed.lp_bump,
            mint_x: parsed.mint_x,
            mint_y: parsed.mint_y,
        },
    )
}

/// The steps a liquidity deposit decides on: both asset moves into the
/// vaults, authorized by the user, and the share issue to the user,
/// authorized on behalf of the configuration address.
pub struct DepositPlan {
    pub user: [u8; 32],
    pub user_x: [u8; 32],
    pub vault_x: [u8; 32],
    pub user_y: [u8; 32],
    pub vault_y: [u8; 32],
    pub mint_lp: [u8; 32],
    pub user_lp: [u8; 32],
    pub max_x: u64,
    pub max_y: u64,
    pub lp_amount: u64,
    pub config: Config,
}

/// Every condition a liquidity deposit checks, in order.
pub open spec fn deposit_check(data: Seq<u8>, accs: Seq<Account>) -> Option<EscrowError> {
    if accs.len() < 9 {
        Some(EscrowError::NotEnoughAccountKeys)
    } else if !accs[0].is_signer {
        Some(EscrowError::MissingRequiredSignature)
    } else if deposit_data_check(data) is Some {
        deposit_data_check(data)
    } else if accs[1].data@.len() < CONFIG_LEN {
        Some(EscrowError::InvalidAccountData)
    } else if accs[1].data@[0] != 1 {
        Some(EscrowError::UninitializedAccount)
    } else {
        None
    }
}

/// Decide a liquidity deposit against a live pool.
pub fn deposit(_program_id: &[u8; 32], data: &[u8], accounts: &Vec<Account>) -> (r: Result<
    DepositPlan,
    EscrowError,
>)
    ensures
        r is Ok <==> deposit_check(data@, accounts@) is None,
        r matches Err(e) ==> deposit_check(data@, accounts@) == Some(e),
        r matches Ok(p) ==> {
            &&& p.user == accounts@[0].address
            &&& p.vault_x == accounts@[3].address
            &&& p.vault_y == accounts@[4].address
            &&& p.user_x == accounts@[5].address
            &&& p.user_y == accounts@[6].address
            &&& p.mint_lp == accounts@[2].address
            &&& p.user_lp == accounts@[7].address
            &&& p.lp_amount == spec_u64_from_le_bytes(data@.subrange(0, 8))
            &&& p.max_x == spec_u64_from_le_bytes(data@.subrange(8, 16))
            &&& p.max_y == spec_u64_from_le_bytes(data@.subrange(16, 24))
            &&& config_encodes(accounts@[1].data@, p.config)
        },
{
    if accounts.len() < 9 {
        return Err(EscrowError::NotEnoughAccountKeys);
    }
    if !accounts[0].is_signer {
        return Err(EscrowError::MissingRequiredSignature);
    }
    let parsed = match DepositInstructionData::try_from_bytes(data) {
        Ok(d) => d,
        Err(e) => {
            return Err(e);
        },
    };
    let config = match Config::load(&accounts[1].data) {
        Ok(c) => c,
        Err(e) => {
            return Err(e);
        },
    };
    if !config.is_initialized() {
        return Err(EscrowError::UninitializedAccount);
    }
    Ok(
        DepositPlan {
            user: accounts[0].address,
            user_x: accounts[5].address,
            vault_x: accounts[3].address,
            user_y: accounts[6].address,
            vault_y: accounts[4].address,
            mint_lp: accounts[2].address,
            user_lp: accounts[7].address,
            max_x: parsed.max_x,
            max_y: parsed.max_y,
            lp_amount: parsed.amount,
            config,
        },
    )
}

/// The steps a swap decides on: one asset moves from the user into a
/// vault, the other from the opposite vault to the user, authorized on
/// behalf of the configuration address.
pub struct SwapPlan {
    pub user: [u8; 32],
    pub in_from: [u8; 32],
    pub in_to: [u8; 32],
    pub in_amount: u64,
    pub out_from: [u8; 32],
    pub out_to: [u8; 32],
    pub out_amount: u64,
    pub config: Config,
}

/// Every condition a swap checks, in order.
pub open spec fn swap_check(data: Seq<u8>, accs: Seq<Account>) -> Option<EscrowError> {
    if accs.len() < 7 {
        Some(EscrowError::NotEnoughAccountKeys)
    } else if !accs[0].is_signer {
        Some(EscrowError::MissingRequiredSignature)
    } else if swap_data_check(data) is Some {
        swap_data_check(data)
    } else if accs[1].data@.len() < CONFIG_LEN {
        Some(EscrowError::InvalidAccountData)
    } else if accs[1].data@[0] != 1 {
        Some(EscrowError::UninitializedAccount)
    } else {
        None
    }
}

/// Decide a swap against a live pool. The paid-in amount and the floor the
/// user set both come from the payload; the pool performs no curve
/// computation here.
pub fn swap(_program_id: &[u8; 32], data: &[u8], accounts: &Vec<Account>) -> (r: Result<
    SwapPlan,
    EscrowError,
>)
    ensures
        r is Ok <==> swap_check(data@, accounts@) is None,
        r matches Err(e) ==> swap_check(data@, accounts@) == Some(e),
        r matches Ok(p) ==> {
            &&& p.user == accounts@[0].address
            &&& p.in_amount == spec_u64_from_le_bytes(data@.subrange(1, 9))
            &&& p.out_amount == spec_u64_from_le_bytes(data@.subrange(9, 17))
            &&& (data@[0] != 0 ==> p.in_from == accounts@[4].address && p.in_to == accounts@[2].address
                && p.out_from == accounts@[3].address && p.out_to == accounts@[5].address)
            &&& (data@[0] == 0 ==> p.in_from == accounts@[5].address && p.in_to == accounts@[3].address
                && p.out_from == accounts@[2].address && p.out_to == accounts@[4].address)
            &&& config_encodes(accounts@[1].data@, p.config)
        },
{
    if accounts.len() < 7 {
        return Err(EscrowError::NotEnoughAccountKeys);
    }
    if !accounts[0].is_signer {
        return Err(EscrowError::MissingRequiredSignature);
    }
    let parsed = match SwapInstructionData::try_from_bytes(data) {
        Ok(d) => d,
        Err(e) => {
            return Err(e);
        },
    };
    let config = match Config::load(&accounts[1].data) {
        Ok(c) => c,
        Err(e) => {
            return Err(e);
        },
    };
    if !config.is_initialized() {
        return Err(EscrowError::UninitializedAccount);
    }
    let plan = if parsed.is_x {
        SwapPlan {
            user: accounts[0].address,
            in_from: accounts[4].address,
            in_to: accounts[2].address,
            in_amount: parsed.amount,
            out_from: accounts[3].address,
            out_to: accounts[5].address,
            out_amount: parsed.min,
            config,
        }
    } else {
        SwapPlan {
            user: accounts[0].address,
            in_from: accounts[5].address,
            in_to: accounts[3].address,
            in_amount: parsed.amount,
            out_from: accounts[2].address,
            out_to: accounts[4].address,
            out_amount: parsed.min,
            config,
        }
    };
    Ok(plan)
}

/// The steps a liquidity withdrawal decides on: burn the user's shares,
/// then release both assets from the vaults to the user, authorized on
/// behalf of the configuration address.
pub struct WithdrawPlan {
    pub user: [u8; 32],
    pub mint_lp: [u8; 32],
    pub user_lp: [u8; 32],
    pub burn_amount: u64,
    pub vault_x: [u8; 32],
    pub user_x: [u8; 32],
    pub out_x: u64,
    pub vault_y: [u8; 32],
    pub user_y: [u8; 32],
    pub out_y: u64,
    pub config: Config,
}

/// Every condition a liquidity withdrawal checks, in order. Withdrawal is
/// also allowed from a pool in wind-down.
pub open spec fn withdraw_check(data: Seq<u8>, accs: Seq<Account>) -> Option<EscrowError> {
    if accs.len() < 9 {
        Some(EscrowError::NotEnoughAccountKeys)
    } else if !accs[0].is_signer {
        Some(EscrowError::MissingRequiredSignature)
    } else if withdraw_data_check(data) is Some {
        withdraw_data_check(data)
    } else if accs[1].data@.len() < CONFIG_LEN {
        Some(EscrowError::InvalidAccountData)
    } else if !(accs[1].data@[0] == 1 || accs[1].data@[0] == 3) {
        Some(EscrowError::InvalidAccountData)
    } else {
        None
    }
}

/// Decide a liquidity withdrawal against a pool that still releases funds.
pub fn withdraw(_program_id: &[u8; 32], data: &[u8], accounts: &Vec<Account>) -> (r: Result<
    WithdrawPlan,
    EscrowError,
>)
    ensures
        r is Ok <==> withdraw_check(data@, accounts@) is None,
        r matches Err(e) ==> withdraw_check(data@, accounts@) == Some(e),
        r matches Ok(p) ==> {
            &&& p.user == accounts@[0].address
            &&& p.mint_lp == accounts@[2].address
            &&& p.user_lp == accounts@[7].address
            &&& p.burn_amount == spec_u64_from_le_bytes(data@.subrange(0, 8))
            &&& p.vault_x == accounts@[3].address
            &&& p.user_x == accounts@[5].address
            &&& p.out_x == spec_u64_from_le_bytes(data@.subrange(8, 16))
            &&& p.vault_y == accounts@[4].address
            &&& p.user_y == accounts@[6].address
            &&& p.out_y == spec_u64_from_le_bytes(data@.subrange(16, 24))
            &&& config_encodes(accounts@[1].data@, p.config)
        },
{
    if accounts.len() < 9 {
        return Err(EscrowError::NotEnoughAccountKeys);
    }
    if !accounts[0].is_signer {
        return Err(EscrowError::MissingRequiredSignature);
    }
    let parsed = match WithdrawInstructionData::try_from_bytes(data) {
        Ok(d) => d,
        Err(e) => {
            return Err(e);
        },
    };
    let config = match Config::load(&accounts[1].data) {
        Ok(c) => c,
        Err(e) => {
            return Err(e);
        },
    };
    if !config.can_withdraw() {
        return Err(EscrowError::InvalidAccountData);
    }
    Ok(
        WithdrawPlan {
            user: accounts[0].address,
            mint_lp: accounts[2].address,
            user_lp: accounts[7].address,
            burn_amount: parsed.amount,
            vault_x: accounts[3].address,
            user_x: accounts[5].address,
            out_x: parsed.min_x,
            vault_y: accounts[4].address,
            user_y: accounts[6].address,
            out_y: parsed.min_y,
            config,
        },
    )
}

} // verus!
