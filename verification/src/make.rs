use vstd::prelude::*;
use vstd::bytes::{spec_u64_from_le_bytes, u64_from_le_bytes};
use vstd::slice::slice_subrange;
use crate::account::{
    Account, is_token_account, is_vacant, spec_token_amount, spec_token_authority, spec_token_mint,
};
use crate::actions::LedgerAction;
use crate::addr::{addr_eq, program_id, spec_program_id};
use crate::checks::{
    associated_check, associated_check_spec, first_of, mint_interface_check,
    mint_interface_check_spec, signer_check, signer_check_spec,
};
use crate::errors::EscrowError;
use crate::ledger::{
    create_record_account, create_token_account, fresh_holding, fresh_record, reports,
    same_token_slot, token_transfer, token_transfer_check,
};
use crate::pda::{
    find_associated_address, find_escrow_address, spec_escrow_address, spec_found_ata,
    spec_found_escrow, SigningAuthority,
};
use crate::state::{record_encodes, Escrow, RECORD_LEN};

verus! {

/// Number of accounts the Make instruction is handed (the last position is
/// reserved and unused).
pub const MAKE_ACCOUNT_COUNT: usize = 9;

/// The accounts of a Make instruction, in positional order.
pub struct MakeAccounts {
    pub maker: Account,
    pub escrow: Account,
    pub mint_a: Account,
    pub mint_b: Account,
    pub maker_ata_a: Account,
    pub vault: Account,
    pub system_program: Account,
    pub token_program: Account,
}

/// The validations MakeAccounts performs, in order, and what each reports.
pub open spec fn make_accounts_check(accs: Seq<Account>) -> Option<EscrowError> {
    if accs.len() != MAKE_ACCOUNT_COUNT {
        Some(EscrowError::NotEnoughAccountKeys)
    } else {
        first_of(
            signer_check_spec(accs[0]),
            first_of(
                mint_interface_check_spec(accs[2]),
                first_of(
                    mint_interface_check_spec(accs[3]),
                    associated_check_spec(
                        accs[4],
                        accs[0].address@,
                        accs[2].address@,
                        accs[7].address@,
                    ),
                ),
            ),
        )
    }
}

impl MakeAccounts {
    /// Destructure the positional account list and run the per-account
    /// validations: maker signs; both mints are asset-ledger mints; the
    /// maker's holding account is the deterministic one for (maker, mint_a).
    pub fn try_from(mut accounts: Vec<Account>) -> (r: Result<MakeAccounts, EscrowError>)
        ensures
            r is Ok <==> make_accounts_check(accounts@) is None,
            r matches Err(e) ==> make_accounts_check(accounts@) == Some(e),
            r matches Ok(m) ==> {
                &&& m.maker == accounts@[0]
                &&& m.escrow == accounts@[1]
                &&& m.mint_a == accounts@[2]
                &&& m.mint_b == accounts@[3]
                &&& m.maker_ata_a == accounts@[4]
                &&& m.vault == accounts@[5]
                &&& m.system_program == accounts@[6]
                &&& m.token_program == accounts@[7]
            },
    {
        if accounts.len() != MAKE_ACCOUNT_COUNT {
            return Err(EscrowError::NotEnoughAccountKeys);
        }
        let maker = accounts.remove(0);
        let escrow = accounts.remove(0);
        let mint_a = accounts.remove(0);
        let mint_b = accounts.remove(0);
        let maker_ata_a = accounts.remove(0);
        let vault = accounts.remove(0);
        let system_program = accounts.remove(0);
        let token_program = accounts.remove(0);
        match signer_check(&maker) {
            Ok(u) => {},
            Err(e) => {
                return Err(e);
            },
        }
        match mint_interface_check(&mint_a) {
            Ok(u) => {},
            Err(e) => {
                return Err(e);
            },
        }
        match mint_interface_check(&mint_b) {
            Ok(u) => {},
            Err(e) => {
                return Err(e);
            },
        }
        match associated_check(&maker_ata_a, &maker, &mint_a, &token_program) {
            Ok(u) => {},
            Err(e) => {
                return Err(e);
            },
        }
        Ok(
            MakeAccounts {
                maker,
                escrow,
                mint_a,
                mint_b,
                maker_ata_a,
                vault,
                system_program,
                token_program,
            },
        )
    }
}

/// The wire arguments of a Make instruction.
pub struct MakeInstructionData {
    pub seed: u64,
    pub receive: u64,
    pub amount: u64,
}

pub open spec fn spec_make_seed(data: Seq<u8>) -> u64 {
    spec_u64_from_le_bytes(data.subrange(0, 8))
}

pub open spec fn spec_make_receive(data: Seq<u8>) -> u64 {
    spec_u64_from_le_bytes(data.subrange(8, 16))
}

pub open spec fn spec_make_amount(data: Seq<u8>) -> u64 {
    spec_u64_from_le_bytes(data.subrange(16, 24))
}

/// Payload validation: exactly three little-endian 8-byte integers, and
/// neither the deposit nor the ask may be zero.
pub open spec fn make_data_check(data: Seq<u8>) -> Option<EscrowError> {
    if data.len() != 24 {
        Some(EscrowError::InvalidInstructionData)
    } else if spec_make_amount(data) == 0 || spec_make_receive(data) == 0 {
        Some(EscrowError::InvalidInstructionData)
    } else {
        None
    }
}

impl MakeInstructionData {
    /// Parse `seed`, `receive`, `amount` from the payload.
    pub fn try_from(data: &[u8]) -> (r: Result<MakeInstructionData, EscrowError>)
        ensures
            r is Ok <==> make_data_check(data@) is None,
            r matches Err(e) ==> make_data_check(data@) == Some(e),
            r matches Ok(d) ==> {
                &&& d.seed == spec_make_seed(data@)
                &&& d.receive == spec_make_receive(data@)
                &&& d.amount == spec_make_amount(data@)
            },
    {
        if data.len() != 24 {
            return Err(EscrowError::InvalidInstructionData);
        }
        let seed = u64_from_le_bytes(slice_subrange(data, 0, 8));
        let receive = u64_from_le_bytes(slice_subrange(data, 8, 16));
        let amount = u64_from_le_bytes(slice_subrange(data, 16, 24));
        if amount == 0 || receive == 0 {
            return Err(EscrowError::InvalidInstructionData);
        }
        Ok(MakeInstructionData { seed, receive, amount })
    }
}

/// A fully validated Make instruction, with its freshly allocated escrow
/// and vault accounts and the externally performed steps decided so far.
pub struct Make {
    pub accounts: MakeAccounts,
    pub instruction_data: MakeInstructionData,
    pub bump: u8,
    pub actions: Vec<LedgerAction>,
}

/// Every condition checked while setting a Make instruction up (accounts,
/// payload, derivations, allocations), in order, and what each reports.
pub open spec fn make_setup_check(
    data: Seq<u8>,
    accs: Seq<Account>,
    record_lamports: u64,
    vault_lamports: u64,
) -> Option<EscrowError> {
    if make_accounts_check(accs) is Some {
        make_accounts_check(accs)
    } else if make_data_check(data) is Some {
        make_data_check(data)
    } else {
        let seed = spec_make_seed(data);
        match spec_found_escrow(accs[0].address@, seed) {
            None => Some(EscrowError::InvalidSeeds),
            Some(ab) => if accs[1].address@ != ab.0 {
                Some(EscrowError::InvalidSeeds)
            } else if !(is_vacant(accs[1]) && accs[1].lamports == 0) {
                Some(EscrowError::AccountAlreadyInitialized)
            } else if accs[0].lamports < record_lamports {
                Some(EscrowError::InsufficientFunds)
            } else {
                match spec_found_ata(accs[1].address@, accs[7].address@, accs[2].address@) {
                    None => Some(EscrowError::InvalidSeeds),
                    Some(vb) => if accs[5].address@ != vb.0 {
                        Some(EscrowError::InvalidAccountData)
                    } else if !(is_vacant(accs[5]) && accs[5].lamports == 0) {
                        Some(EscrowError::AccountAlreadyInitialized)
                    } else if accs[0].lamports - record_lamports < vault_lamports {
                        Some(EscrowError::InsufficientFunds)
                    } else {
                        None
                    },
                }
            },
        }
    }
}

/// The state a Make instruction is in right after setup: payload parsed,
/// escrow address derived and bound to the record account, record and vault
/// accounts freshly allocated, both creations decided as actions.
pub open spec fn make_setup_post(
    data: Seq<u8>,
    accs: Seq<Account>,
    record_lamports: u64,
    vault_lamports: u64,
    m: Make,
) -> bool {
    &&& m.instruction_data.seed == spec_make_seed(data)
    &&& m.instruction_data.receive == spec_make_receive(data)
    &&& m.instruction_data.amount == spec_make_amount(data)
    &&& spec_found_escrow(accs[0].address@, spec_make_seed(data)) == Some(
        (accs[1].address@, m.bump),
    )
    &&& spec_escrow_address(accs[0].address@, spec_make_seed(data), m.bump) == Some(
        accs[1].address@,
    )
    &&& m.accounts.maker.address == accs[0].address
    &&& m.accounts.maker.owner == accs[0].owner
    &&& m.accounts.maker.is_signer == accs[0].is_signer
    &&& m.accounts.maker.data@ == accs[0].data@
    &&& m.accounts.maker.lamports == accs[0].lamports - record_lamports - vault_lamports
    &&& fresh_record(accs[1], m.accounts.escrow, spec_program_id(), RECORD_LEN, record_lamports)
    &&& fresh_holding(accs[5], m.accounts.vault, accs[2].address@, accs[1].address@, vault_lamports)
    &&& m.accounts.mint_a == accs[2]
    &&& m.accounts.mint_b == accs[3]
    &&& m.accounts.maker_ata_a == accs[4]
    &&& m.accounts.system_program == accs[6]
    &&& m.accounts.token_program == accs[7]
    &&& m.actions@.len() == 2
    &&& (m.actions@[0] matches LedgerAction::CreateEscrowAccount { payer, lamports, signer }
        && payer == accs[0].address && lamports == record_lamports && signer == (SigningAuthority {
        maker: accs[0].address,
        seed: spec_make_seed(data),
        bump: m.bump,
        address: accs[1].address,
    }))
    &&& (m.actions@[1] matches LedgerAction::CreateAssociatedAccount {
        payer,
        account,
        mint,
        authority,
    } && payer == accs[0].address && account == accs[5].address && mint == accs[2].address
        && authority == accs[1].address)
}

/// Well-formedness of a set-up Make instruction, established by `try_from`
/// and relied on by `process`.
pub open spec fn make_wf(m: Make) -> bool {
    &&& m.accounts.escrow.data@.len() == RECORD_LEN
    &&& is_token_account(m.accounts.vault)
    &&& spec_token_mint(m.accounts.vault.data@) == m.accounts.mint_a.address@
    &&& spec_token_authority(m.accounts.vault.data@) == m.accounts.escrow.address@
    &&& spec_token_amount(m.accounts.vault.data@) == 0
}

/// What `process` still has to check: the deposit move itself.
pub open spec fn make_process_check(m: Make) -> Option<EscrowError> {
    token_transfer_check(
        m.accounts.maker_ata_a,
        m.accounts.vault,
        m.accounts.maker.address@,
        m.instruction_data.amount,
    )
}

/// The record a Make instruction writes.
pub open spec fn make_record(m: Make) -> Escrow {
    Escrow {
        seed: m.instruction_data.seed,
        maker: m.accounts.maker.address,
        mint_a: m.accounts.mint_a.address,
        mint_b: m.accounts.mint_b.address,
        receive: m.instruction_data.receive,
        bump: m.bump,
    }
}

/// Every condition a whole Make instruction checks, from the account list
/// to the deposit move, in order.
pub open spec fn make_check(
    data: Seq<u8>,
    accs: Seq<Account>,
    record_lamports: u64,
    vault_lamports: u64,
) -> Option<EscrowError> {
    if make_setup_check(data, accs, record_lamports, vault_lamports) is Some {
        make_setup_check(data, accs, record_lamports, vault_lamports)
    } else if !is_token_account(accs[4]) {
        Some(EscrowError::InvalidAccountData)
    } else if spec_token_authority(accs[4].data@) != accs[0].address@ {
        Some(EscrowError::InvalidAccountOwner)
    } else if spec_token_mint(accs[4].data@) != accs[2].address@ {
        Some(EscrowError::InvalidAccountData)
    } else if spec_token_amount(accs[4].data@) < spec_make_amount(data) {
        Some(EscrowError::InsufficientFunds)
    } else {
        None
    }
}

/// What a successful Make leaves behind, over the input account list: the
/// record account freshly allocated at the derived address and populated
/// with exactly the inputs, the vault freshly created and holding exactly
/// the deposit, the maker's holding account debited by it, and the decided
/// external steps in order.
pub open spec fn make_post(
    data: Seq<u8>,
    accs: Seq<Account>,
    record_lamports: u64,
    vault_lamports: u64,
    m: Make,
) -> bool {
    &&& m.instruction_data.seed == spec_make_seed(data)
    &&& m.instruction_data.receive == spec_make_receive(data)
    &&& m.instruction_data.amount == spec_make_amount(data)
    &&& spec_escrow_address(accs[0].address@, spec_make_seed(data), m.bump) == Some(
        accs[1].address@,
    )
    &&& m.accounts.maker.address == accs[0].address
    &&& m.accounts.maker.owner == accs[0].owner
    &&& m.accounts.maker.is_signer == accs[0].is_signer
    &&& m.accounts.maker.data@ == accs[0].data@
    &&& m.accounts.maker.lamports == accs[0].lamports - record_lamports - vault_lamports
    &&& m.accounts.escrow.address == accs[1].address
    &&& m.accounts.escrow.is_signer == accs[1].is_signer
    &&& m.accounts.escrow.owner@ == spec_program_id()
    &&& m.accounts.escrow.lamports == record_lamports
    &&& record_encodes(m.accounts.escrow.data@, make_record(m))
    &&& m.accounts.vault.address == accs[5].address
    &&& m.accounts.vault.is_signer == accs[5].is_signer
    &&& is_token_account(m.accounts.vault)
    &&& spec_token_mint(m.accounts.vault.data@) == accs[2].address@
    &&& spec_token_authority(m.accounts.vault.data@) == accs[1].address@
    &&& spec_token_amount(m.accounts.vault.data@) == spec_make_amount(data)
    &&& m.accounts.vault.lamports == vault_lamports
    &&& same_token_slot(accs[4], m.accounts.maker_ata_a)
    &&& spec_token_amount(m.accounts.maker_ata_a.data@) == spec_token_amount(accs[4].data@)
        - spec_make_amount(data)
    &&& m.accounts.mint_a == accs[2]
    &&& m.accounts.mint_b == accs[3]
    &&& m.accounts.system_program == accs[6]
    &&& m.accounts.token_program == accs[7]
    &&& m.actions@.len() == 3
    &&& (m.actions@[0] matches LedgerAction::CreateEscrowAccount { payer, lamports, signer }
        && payer == accs[0].address && lamports == record_lamports && signer
        == (SigningAuthority {
        maker: accs[0].address,
        seed: spec_make_seed(data),
        bump: m.bump,
        address: accs[1].address,
    }))
    &&& (m.actions@[1] matches LedgerAction::CreateAssociatedAccount {
        payer,
        account,
        mint,
        authority,
    } && payer == accs[0].address && account == accs[5].address && mint == accs[2].address
        && authority == accs[1].address)
    &&& (m.actions@[2] matches LedgerAction::Transfer { from, to, authority, amount } && from
        == accs[4].address && to == accs[5].address && authority == accs[0].address && amount
        == spec_make_amount(data))
}

impl Make {
    /// Leading payload byte that routes to this handler.
    pub const DISCRIMINATOR: u8 = 0;

    /// Validate and execute a whole Make instruction: open the escrow with
    /// exactly the given deposit locked, or report the first failing
    /// condition with nothing persisted.
    pub fn run(
        data: &[u8],
        accounts: Vec<Account>,
        record_lamports: u64,
        vault_lamports: u64,
    ) -> (r: Result<Make, EscrowError>)
        ensures
            r is Ok <==> make_check(data@, accounts@, record_lamports, vault_lamports) is None,
            r matches Err(e) ==> make_check(data@, accounts@, record_lamports, vault_lamports)
                == Some(e),
            r matches Ok(m) ==> make_post(data@, accounts@, record_lamports, vault_lamports, m),
    {
        let mut m = match Make::try_from(data, accounts, record_lamports, vault_lamports) {
            Ok(m) => m,
            Err(e) => {
                return Err(e);
            },
        };
        match m.process() {
            Ok(u) => {},
            Err(e) => {
                return Err(e);
            },
        }
        Ok(m)
    }

    /// Set a Make instruction up: validate accounts and payload, derive the
    /// escrow address from ["escrow", maker, seed] and require the record
    /// account to sit at it, then allocate the record account and the vault
    /// (both funded by the maker).
    pub fn try_from(
        data: &[u8],
        accounts: Vec<Account>,
        record_lamports: u64,
        vault_lamports: u64,
    ) -> (r: Result<Make, EscrowError>)
        ensures
            r is Ok <==> make_setup_check(data@, accounts@, record_lamports, vault_lamports)
                is None,
            r matches Err(e) ==> make_setup_check(data@, accounts@, record_lamports, vault_lamports)
                == Some(e),
            r matches Ok(m) ==> make_setup_post(
                data@,
                accounts@,
                record_lamports,
                vault_lamports,
                m,
            ) && make_wf(m),
    {
        let accs = match MakeAccounts::try_from(accounts) {
            Ok(a) => a,
            Err(e) => {
                return Err(e);
            },
        };
        let parsed = match MakeInstructionData::try_from(data) {
            Ok(d) => d,
            Err(e) => {
                return Err(e);
            },
        };
        let mut m = Make { accounts: accs, instruction_data: parsed, bump: 0, actions: Vec::new() };
        let (pda, bump) = match find_escrow_address(&m.accounts.maker.address, m.instruction_data.seed) {
            None => {
                return Err(EscrowError::InvalidSeeds);
            },
            Some(ab) => ab,
        };
        if !addr_eq(&m.accounts.escrow.address, &pda) {
            return Err(EscrowError::InvalidSeeds);
        }
        m.bump = bump;
        let pid = program_id();
        match create_record_account(
            &mut m.accounts.maker,
            &mut m.accounts.escrow,
            &pid,
            RECORD_LEN,
            record_lamports,
        ) {
            Ok(u) => {},
            Err(e) => {
                return Err(e);
            },
        }
        let vault_pda = match find_associated_address(
            &m.accounts.escrow.address,
            &m.accounts.token_program.address,
            &m.accounts.mint_a.address,
        ) {
            None => {
                return Err(EscrowError::InvalidSeeds);
            },
            Some(vb) => vb.0,
        };
        if !addr_eq(&m.accounts.vault.address, &vault_pda) {
            return Err(EscrowError::InvalidAccountData);
        }
        let mint_a_addr = m.accounts.mint_a.address;
        let escrow_addr = m.accounts.escrow.address;
        match create_token_account(
            &mut m.accounts.maker,
            &mut m.accounts.vault,
            &mint_a_addr,
            &escrow_addr,
            vault_lamports,
        ) {
            Ok(u) => {},
            Err(e) => {
                return Err(e);
            },
        }
        m.actions.push(
            LedgerAction::CreateEscrowAccount {
                payer: m.accounts.maker.address,
                lamports: record_lamports,
                signer: SigningAuthority {
                    maker: m.accounts.maker.address,
                    seed: m.instruction_data.seed,
                    bump: m.bump,
                    address: m.accounts.escrow.address,
                },
            },
        );
        m.actions.push(
            LedgerAction::CreateAssociatedAccount {
                payer: m.accounts.maker.address,
                account: m.accounts.vault.address,
                mint: m.accounts.mint_a.address,
                authority: m.accounts.escrow.address,
            },
        );
        Ok(m)
    }

    /// Open the escrow: move the deposit from the maker's holding account
    /// into the vault, then populate the record in one write. The deposit
    /// is validated and applied first, so a failure leaves the model
    /// untouched; the decided actions keep the external order: record
    /// creation, vault creation, deposit.
    pub fn process(&mut self) -> (r: Result<(), EscrowError>)
        requires
            make_wf(*old(self)),
        ensures
            reports(r, make_process_check(*old(self))),
            r is Err ==> *final(self) == *old(self),
            r is Ok ==> {
                &&& record_encodes(
                    final(self).accounts.escrow.data@,
                    make_record(*old(self)),
                )
                &&& final(self).accounts.escrow.address == old(self).accounts.escrow.address
                &&& final(self).accounts.escrow.owner == old(self).accounts.escrow.owner
                &&& final(self).accounts.escrow.lamports == old(self).accounts.escrow.lamports
                &&& final(self).accounts.escrow.is_signer == old(self).accounts.escrow.is_signer
                &&& same_token_slot(
                    old(self).accounts.maker_ata_a,
                    final(self).accounts.maker_ata_a,
                )
                &&& spec_token_amount(final(self).accounts.maker_ata_a.data@)
                    == spec_token_amount(old(self).accounts.maker_ata_a.data@)
                    - old(self).instruction_data.amount
                &&& same_token_slot(old(self).accounts.vault, final(self).accounts.vault)
                &&& spec_token_amount(final(self).accounts.vault.data@) == old(
                    self,
                ).instruction_data.amount
                &&& final(self).accounts.maker == old(self).accounts.maker
                &&& final(self).accounts.mint_a == old(self).accounts.mint_a
                &&& final(self).accounts.mint_b == old(self).accounts.mint_b
                &&& final(self).accounts.system_program == old(self).accounts.system_program
                &&& final(self).accounts.token_program == old(self).accounts.token_program
                &&& final(self).instruction_data == old(self).instruction_data
                &&& final(self).bump == old(self).bump
                &&& final(self).actions@ == old(self).actions@.push(
                    (LedgerAction::Transfer {
                        from: old(self).accounts.maker_ata_a.address,
                        to: old(self).accounts.vault.address,
                        authority: old(self).accounts.maker.address,
                        amount: old(self).instruction_data.amount,
                    }),
                )
            },
    {
        let maker_addr = self.accounts.maker.address;
        let amount = self.instruction_data.amount;
        match token_transfer(
            &mut self.accounts.maker_ata_a,
            &mut self.accounts.vault,
            &maker_addr,
            amount,
        ) {
            Ok(u) => {},
            Err(e) => {
                return Err(e);
            },
        }
        let record = Escrow {
            seed: self.instruction_data.seed,
            maker: self.accounts.maker.address,
            mint_a: self.accounts.mint_a.address,
            mint_b: self.accounts.mint_b.address,
            receive: self.instruction_data.receive,
            bump: self.bump,
        };
        match record.store(&mut self.accounts.escrow.data) {
            Ok(u) => {},
            Err(e) => {
                return Err(e);
            },
        }
        self.actions.push(
            LedgerAction::Transfer {
                from: self.accounts.maker_ata_a.address,
                to: self.accounts.vault.address,
                authority: self.accounts.maker.address,
                amount,
            },
        );
        Ok(())
    }
}

} // verus!
