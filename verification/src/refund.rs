use vstd::prelude::*;
use crate::account::{
    Account, check_token_account, is_token_account, spec_token_amount, spec_token_authority,
    spec_token_mint, token_amount,
};
use crate::actions::LedgerAction;
use crate::addr::{addr_eq, spec_program_id};
use crate::checks::{
    ata_init_check, ata_init_if_needed, ata_ready, check_ata_ready, first_of,
    mint_interface_check, mint_interface_check_spec, program_account_check,
    program_account_check_spec, signer_check, signer_check_spec,
};
use crate::errors::EscrowError;
use crate::ledger::{
    close_record_account, close_token_account, closed_out, fresh_holding, reports,
    same_token_slot, token_transfer, token_transfer_would,
};
use crate::pda::{derive_escrow_address, spec_escrow_address, SigningAuthority};
use crate::state::{
    spec_record_bump, spec_record_maker, spec_record_seed, Escrow, RECORD_LEN,
};

verus! {

/// Number of accounts the Refund instruction is handed (the last position
/// is reserved and unused).
pub const REFUND_ACCOUNT_COUNT: usize = 8;

/// The accounts of a Refund instruction, in positional order.
pub struct RefundAccount {
    pub maker: Account,
    pub escrow: Account,
    pub mint_a: Account,
    pub vault: Account,
    pub maker_ata_a: Account,
    pub system_program: Account,
    pub token_program: Account,
}

/// The validations RefundAccount performs, in order: maker signs, the
/// escrow is a program-owned record account, mint_a is an asset-ledger
/// mint. The vault is validated later, when it is drained.
pub open spec fn refund_accounts_check(accs: Seq<Account>) -> Option<EscrowError> {
    if accs.len() != REFUND_ACCOUNT_COUNT {
        Some(EscrowError::NotEnoughAccountKeys)
    } else {
        first_of(
            signer_check_spec(accs[0]),
            first_of(program_account_check_spec(accs[1]), mint_interface_check_spec(accs[2])),
        )
    }
}

impl RefundAccount {
    /// Destructure the positional account list and run the per-account
    /// validations.
    pub fn try_from(mut accounts: Vec<Account>) -> (r: Result<RefundAccount, EscrowError>)
        ensures
            r is Ok <==> refund_accounts_check(accounts@) is None,
            r matches Err(e) ==> refund_accounts_check(accounts@) == Some(e),
            r matches Ok(t) ==> {
                &&& t.maker == accounts@[0]
                &&& t.escrow == accounts@[1]
                &&& t.mint_a == accounts@[2]
                &&& t.vault == accounts@[3]
                &&& t.maker_ata_a == accounts@[4]
                &&& t.system_program == accounts@[5]
                &&& t.token_program == accounts@[6]
            },
    {
        if accounts.len() != REFUND_ACCOUNT_COUNT {
            return Err(EscrowError::NotEnoughAccountKeys);
        }
        let maker = accounts.remove(0);
        let escrow = accounts.remove(0);
        let mint_a = accounts.remove(0);
        let vault = accounts.remove(0);
        let maker_ata_a = accounts.remove(0);
        let system_program = accounts.remove(0);
        let token_program = accounts.remove(0);
        match signer_check(&maker) {
            Ok(u) => {},
            Err(e) => {
                return Err(e);
            },
        }
        match program_account_check(&escrow) {
            Ok(u) => {},
            Err(e) => {
                return Err(e);
            },
        }
        match mint_interface_check(&mint_a) {
            Ok(u) => {},
            Err(e) => {
                return Err(e);
            },
        }
        Ok(
            RefundAccount {
                maker,
                escrow,
                mint_a,
                vault,
                maker_ata_a,
                system_program,
                token_program,
            },
        )
    }
}

/// A fully validated Refund instruction.
pub struct Refund {
    pub accounts: RefundAccount,
    pub actions: Vec<LedgerAction>,
}

/// Whether the maker's mint_a holding account already existed before setup.
pub open spec fn refund_had_ata_a(accs: Seq<Account>) -> bool {
    ata_ready(accs[4], accs[0].address@, accs[2].address@)
}

/// Every condition checked while setting a Refund instruction up, in order.
pub open spec fn refund_setup_check(accs: Seq<Account>, ata_lamports: u64) -> Option<
    EscrowError,
> {
    if refund_accounts_check(accs) is Some {
        refund_accounts_check(accs)
    } else {
        ata_init_check(
            accs[0].lamports,
            accs[4],
            accs[0].address@,
            accs[2].address@,
            accs[6].address@,
            ata_lamports,
        )
    }
}

/// The state a Refund instruction is in right after setup.
pub open spec fn refund_setup_post(accs: Seq<Account>, ata_lamports: u64, t: Refund) -> bool {
    let had_a = refund_had_ata_a(accs);
    &&& t.accounts.maker.address == accs[0].address
    &&& t.accounts.maker.owner == accs[0].owner
    &&& t.accounts.maker.is_signer == accs[0].is_signer
    &&& t.accounts.maker.data@ == accs[0].data@
    &&& t.accounts.maker.lamports == accs[0].lamports - (if had_a {
        0
    } else {
        ata_lamports as int
    })
    &&& t.accounts.escrow == accs[1]
    &&& t.accounts.mint_a == accs[2]
    &&& t.accounts.vault == accs[3]
    &&& (if had_a {
        t.accounts.maker_ata_a == accs[4]
    } else {
        fresh_holding(accs[4], t.accounts.maker_ata_a, accs[2].address@, accs[0].address@, ata_lamports)
    })
    &&& ata_ready(t.accounts.maker_ata_a, accs[0].address@, accs[2].address@)
    &&& t.accounts.system_program == accs[5]
    &&& t.accounts.token_program == accs[6]
    &&& t.actions@.len() == (if had_a {
        0int
    } else {
        1int
    })
    &&& (!had_a ==> (t.actions@[0] matches LedgerAction::CreateAssociatedAccount {
        payer,
        account,
        mint,
        authority,
    } && payer == accs[0].address && account == accs[4].address && mint == accs[2].address
        && authority == accs[0].address))
}

/// Well-formedness of a set-up Refund instruction, established by
/// `try_from` and relied on by `process`.
pub open spec fn refund_wf(t: Refund) -> bool {
    &&& t.accounts.escrow.data@.len() == RECORD_LEN
    &&& t.accounts.escrow.owner@ == spec_program_id()
    &&& ata_ready(t.accounts.maker_ata_a, t.accounts.maker.address@, t.accounts.mint_a.address@)
}

/// What `process` still has to check, in order: that the signer is the
/// recorded maker, the record's address re-derivation, the vault drain and
/// the deposit returns.
pub open spec fn refund_process_check(t: Refund) -> Option<EscrowError> {
    let ed = t.accounts.escrow.data@;
    if spec_record_maker(ed) != t.accounts.maker.address@ {
        Some(EscrowError::InvalidAccountData)
    } else {
        match spec_escrow_address(
            t.accounts.maker.address@,
            spec_record_seed(ed),
            spec_record_bump(ed),
        ) {
            None => Some(EscrowError::InvalidSeeds),
            Some(a) => if t.accounts.escrow.address@ != a {
                Some(EscrowError::InvalidAccountData)
            } else if !is_token_account(t.accounts.vault) {
                Some(EscrowError::InvalidAccountData)
            } else if spec_token_authority(t.accounts.vault.data@)
                != t.accounts.escrow.address@ {
                Some(EscrowError::InvalidAccountOwner)
            } else if spec_token_mint(t.accounts.vault.data@) != spec_token_mint(
                t.accounts.maker_ata_a.data@,
            ) {
                Some(EscrowError::InvalidAccountData)
            } else if spec_token_amount(t.accounts.maker_ata_a.data@) + spec_token_amount(
                t.accounts.vault.data@,
            ) > u64::MAX {
                Some(EscrowError::ArithmeticOverflow)
            } else if t.accounts.maker.lamports + t.accounts.vault.lamports > u64::MAX {
                Some(EscrowError::ArithmeticOverflow)
            } else if t.accounts.maker.lamports + t.accounts.vault.lamports
                + t.accounts.escrow.lamports > u64::MAX {
                Some(EscrowError::ArithmeticOverflow)
            } else {
                None
            },
        }
    }
}

/// The signing authority a Refund instruction acts under.
pub open spec fn refund_signer(t: Refund) -> SigningAuthority {
    SigningAuthority {
        maker: t.accounts.maker.address,
        seed: spec_record_seed(t.accounts.escrow.data@),
        bump: spec_record_bump(t.accounts.escrow.data@),
        address: t.accounts.escrow.address,
    }
}

/// How `process` changes a set-up Refund instruction on success: the
/// maker's holding account regains the vault's whole balance, and both the
/// vault and the record account cease to exist, their storage deposits
/// going back to the maker.
pub open spec fn refund_process_post(pre: Refund, post: Refund) -> bool {
    let vault_amount = spec_token_amount(pre.accounts.vault.data@);
    &&& same_token_slot(pre.accounts.maker_ata_a, post.accounts.maker_ata_a)
    &&& spec_token_amount(post.accounts.maker_ata_a.data@) == spec_token_amount(
        pre.accounts.maker_ata_a.data@,
    ) + vault_amount
    &&& closed_out(pre.accounts.vault, post.accounts.vault)
    &&& closed_out(pre.accounts.escrow, post.accounts.escrow)
    &&& post.accounts.maker.address == pre.accounts.maker.address
    &&& post.accounts.maker.owner == pre.accounts.maker.owner
    &&& post.accounts.maker.is_signer == pre.accounts.maker.is_signer
    &&& post.accounts.maker.data@ == pre.accounts.maker.data@
    &&& post.accounts.maker.lamports == pre.accounts.maker.lamports
        + pre.accounts.vault.lamports + pre.accounts.escrow.lamports
    &&& post.accounts.mint_a == pre.accounts.mint_a
    &&& post.accounts.system_program == pre.accounts.system_program
    &&& post.accounts.token_program == pre.accounts.token_program
    &&& post.actions@ == pre.actions@ + seq![
        (LedgerAction::SignedTransfer {
            from: pre.accounts.vault.address,
            to: pre.accounts.maker_ata_a.address,
            amount: vault_amount,
            signer: refund_signer(pre),
        }),
        (LedgerAction::CloseTokenAccount {
            account: pre.accounts.vault.address,
            destination: pre.accounts.maker.address,
            signer: refund_signer(pre),
        }),
        (LedgerAction::CloseRecordAccount {
            account: pre.accounts.escrow.address,
            destination: pre.accounts.maker.address,
        }),
    ]
}

/// Every condition a whole Refund instruction checks, from the account
/// list to the deposit returns, in order.
pub open spec fn refund_check(accs: Seq<Account>, ata_lamports: u64) -> Option<EscrowError> {
    if refund_setup_check(accs, ata_lamports) is Some {
        refund_setup_check(accs, ata_lamports)
    } else {
        let ed = accs[1].data@;
        let had_a = refund_had_ata_a(accs);
        if spec_record_maker(ed) != accs[0].address@ {
            Some(EscrowError::InvalidAccountData)
        } else {
            match spec_escrow_address(accs[0].address@, spec_record_seed(ed), spec_record_bump(ed)) {
                None => Some(EscrowError::InvalidSeeds),
                Some(a) => if accs[1].address@ != a {
                    Some(EscrowError::InvalidAccountData)
                } else if !is_token_account(accs[3]) {
                    Some(EscrowError::InvalidAccountData)
                } else if spec_token_authority(accs[3].data@) != accs[1].address@ {
                    Some(EscrowError::InvalidAccountOwner)
                } else if spec_token_mint(accs[3].data@) != accs[2].address@ {
                    Some(EscrowError::InvalidAccountData)
                } else if (if had_a {
                    spec_token_amount(accs[4].data@) as int
                } else {
                    0int
                }) + spec_token_amount(accs[3].data@) > u64::MAX {
                    Some(EscrowError::ArithmeticOverflow)
                } else if accs[0].lamports - (if had_a {
                    0
                } else {
                    ata_lamports as int
                }) + accs[3].lamports > u64::MAX {
                    Some(EscrowError::ArithmeticOverflow)
                } else if accs[0].lamports - (if had_a {
                    0
                } else {
                    ata_lamports as int
                }) + accs[3].lamports + accs[1].lamports > u64::MAX {
                    Some(EscrowError::ArithmeticOverflow)
                } else {
                    None
                },
            }
        }
    }
}

/// What a successful Refund leaves behind, over the input account list:
/// the maker's mint_a holding regains the vault's whole pre-instruction
/// balance, the vault and the record account cease to exist, and both
/// storage deposits go back to the maker. The taker is never involved.
pub open spec fn refund_post(accs: Seq<Account>, ata_lamports: u64, t: Refund) -> bool {
    let ed = accs[1].data@;
    let had_a = refund_had_ata_a(accs);
    let vault_amount = spec_token_amount(accs[3].data@);
    let base = if had_a {
        0int
    } else {
        1int
    };
    &&& t.accounts.maker.address == accs[0].address
    &&& t.accounts.maker.owner == accs[0].owner
    &&& t.accounts.maker.is_signer == accs[0].is_signer
    &&& t.accounts.maker.data@ == accs[0].data@
    &&& t.accounts.maker.lamports == accs[0].lamports - (if had_a {
        0
    } else {
        ata_lamports as int
    }) + accs[3].lamports + accs[1].lamports
    &&& closed_out(accs[1], t.accounts.escrow)
    &&& t.accounts.mint_a == accs[2]
    &&& closed_out(accs[3], t.accounts.vault)
    &&& t.accounts.maker_ata_a.address == accs[4].address
    &&& t.accounts.maker_ata_a.is_signer == accs[4].is_signer
    &&& ata_ready(t.accounts.maker_ata_a, accs[0].address@, accs[2].address@)
    &&& spec_token_amount(t.accounts.maker_ata_a.data@) == (if had_a {
        spec_token_amount(accs[4].data@) as int
    } else {
        0int
    }) + vault_amount
    &&& t.accounts.maker_ata_a.lamports == (if had_a {
        accs[4].lamports
    } else {
        ata_lamports
    })
    &&& t.accounts.system_program == accs[5]
    &&& t.accounts.token_program == accs[6]
    &&& t.actions@.len() == base + 3
    &&& (!had_a ==> (t.actions@[0] matches LedgerAction::CreateAssociatedAccount {
        payer,
        account,
        mint,
        authority,
    } && payer == accs[0].address && account == accs[4].address && mint == accs[2].address
        && authority == accs[0].address))
    &&& (t.actions@[base] matches LedgerAction::SignedTransfer { from, to, amount, signer }
        && from == accs[3].address && to == accs[4].address && amount == vault_amount && signer
        == (SigningAuthority {
        maker: accs[0].address,
        seed: spec_record_seed(ed),
        bump: spec_record_bump(ed),
        address: accs[1].address,
    }))
    &&& (t.actions@[base + 1] matches LedgerAction::CloseTokenAccount {
        account,
        destination,
        signer,
    } && account == accs[3].address && destination == accs[0].address && signer
        == (SigningAuthority {
        maker: accs[0].address,
        seed: spec_record_seed(ed),
        bump: spec_record_bump(ed),
        address: accs[1].address,
    }))
    &&& (t.actions@[base + 2] matches LedgerAction::CloseRecordAccount { account, destination }
        && account == accs[1].address && destination == accs[0].address)
}

impl Refund {
    /// Leading payload byte that routes to this handler.
    pub const DISCRIMINATOR: u8 = 2;

    /// Validate and execute a whole Refund instruction: cancel the escrow
    /// and return the locked asset to the maker, or report the first
    /// failing condition with nothing persisted.
    pub fn run(accounts: Vec<Account>, ata_lamports: u64) -> (r: Result<Refund, EscrowError>)
        ensures
            r is Ok <==> refund_check(accounts@, ata_lamports) is None,
            r matches Err(e) ==> refund_check(accounts@, ata_lamports) == Some(e),
            r matches Ok(t) ==> refund_post(accounts@, ata_lamports, t),
    {
        let mut t = match Refund::try_from(accounts, ata_lamports) {
            Ok(t) => t,
            Err(e) => {
                return Err(e);
            },
        };
        match t.process() {
            Ok(u) => {},
            Err(e) => {
                return Err(e);
            },
        }
        Ok(t)
    }

    /// Set a Refund instruction up: validate the accounts and create the
    /// maker's mint_a holding account when absent (funded by the maker).
    pub fn try_from(accounts: Vec<Account>, ata_lamports: u64) -> (r: Result<
        Refund,
        EscrowError,
    >)
        ensures
            r is Ok <==> refund_setup_check(accounts@, ata_lamports) is None,
            r matches Err(e) ==> refund_setup_check(accounts@, ata_lamports) == Some(e),
            r matches Ok(t) ==> refund_setup_post(accounts@, ata_lamports, t) && refund_wf(t),
    {
        let accs = match RefundAccount::try_from(accounts) {
            Ok(a) => a,
            Err(e) => {
                return Err(e);
            },
        };
        let mut t = Refund { accounts: accs, actions: Vec::new() };
        let maker_addr = t.accounts.maker.address;
        let mint_a_addr = t.accounts.mint_a.address;
        let token_prog_addr = t.accounts.token_program.address;
        let had_a = check_ata_ready(&t.accounts.maker_ata_a, &maker_addr, &mint_a_addr);
        match ata_init_if_needed(
            &mut t.accounts.maker,
            &mut t.accounts.maker_ata_a,
            &maker_addr,
            &mint_a_addr,
            &token_prog_addr,
            ata_lamports,
        ) {
            Ok(u) => {},
            Err(e) => {
                return Err(e);
            },
        }
        if !had_a {
            t.actions.push(
                LedgerAction::CreateAssociatedAccount {
                    payer: maker_addr,
                    account: t.accounts.maker_ata_a.address,
                    mint: mint_a_addr,
                    authority: maker_addr,
                },
            );
        }
        Ok(t)
    }

    /// Cancel the escrow. Only the recorded maker may do this: the signer
    /// must equal the record's maker field, and the record's address is
    /// re-derived from that signer and the stored nonce and salt. Then the
    /// vault's whole balance goes back to the maker's holding account and
    /// both the vault and the record are closed, their deposits returned to
    /// the maker.
    pub fn process(&mut self) -> (r: Result<(), EscrowError>)
        requires
            refund_wf(*old(self)),
        ensures
            reports(r, refund_process_check(*old(self))),
            r is Err ==> *final(self) == *old(self),
            r is Ok ==> refund_process_post(*old(self), *final(self)),
    {
        let record = match Escrow::load(&self.accounts.escrow.data) {
            Ok(rec) => rec,
            Err(e) => {
                return Err(e);
            },
        };
        if !addr_eq(&record.maker, &self.accounts.maker.address) {
            return Err(EscrowError::InvalidAccountData);
        }
        let derived = match derive_escrow_address(
            &self.accounts.maker.address,
            record.seed,
            record.bump,
        ) {
            None => {
                return Err(EscrowError::InvalidSeeds);
            },
            Some(a) => a,
        };
        if !addr_eq(&self.accounts.escrow.address, &derived) {
            return Err(EscrowError::InvalidAccountData);
        }
        let escrow_addr = self.accounts.escrow.address;
        if !check_token_account(&self.accounts.vault) {
            return Err(EscrowError::InvalidAccountData);
        }
        let vault_amount = token_amount(&self.accounts.vault);
        match token_transfer_would(
            &self.accounts.vault,
            &self.accounts.maker_ata_a,
            &escrow_addr,
            vault_amount,
        ) {
            Ok(u) => {},
            Err(e) => {
                return Err(e);
            },
        }
        if self.accounts.maker.lamports > u64::MAX - self.accounts.vault.lamports {
            return Err(EscrowError::ArithmeticOverflow);
        }
        let lamports_after_vault = self.accounts.maker.lamports + self.accounts.vault.lamports;
        if lamports_after_vault > u64::MAX - self.accounts.escrow.lamports {
            return Err(EscrowError::ArithmeticOverflow);
        }
        match token_transfer(
            &mut self.accounts.vault,
            &mut self.accounts.maker_ata_a,
            &escrow_addr,
            vault_amount,
        ) {
            Ok(u) => {},
            Err(e) => {
                return Err(e);
            },
        }
        match close_token_account(
            &mut self.accounts.vault,
            &mut self.accounts.maker,
            &escrow_addr,
        ) {
            Ok(u) => {},
            Err(e) => {
                return Err(e);
            },
        }
        match close_record_account(&mut self.accounts.escrow, &mut self.accounts.maker) {
            Ok(u) => {},
            Err(e) => {
                return Err(e);
            },
        }
        let signer = SigningAuthority {
            maker: self.accounts.maker.address,
            seed: record.seed,
            bump: record.bump,
            address: escrow_addr,
        };
        self.actions.push(
            LedgerAction::SignedTransfer {
                from: self.accounts.vault.address,
                to: self.accounts.maker_ata_a.address,
                amount: vault_amount,
                signer: SigningAuthority {
                    maker: signer.maker,
                    seed: signer.seed,
                    bump: signer.bump,
                    address: signer.address,
                },
            },
        );
        self.actions.push(
            LedgerAction::CloseTokenAccount {
                account: self.accounts.vault.address,
                destination: self.accounts.maker.address,
                signer,
            },
        );
        self.actions.push(
            LedgerAction::CloseRecordAccount {
                account: self.accounts.escrow.address,
                destination: self.accounts.maker.address,
            },
        );
        proof {
            assert(self.actions@ =~= old(self).actions@ + seq![
                (LedgerAction::SignedTransfer {
                    from: old(self).accounts.vault.address,
                    to: old(self).accounts.maker_ata_a.address,
                    amount: spec_token_amount(old(self).accounts.vault.data@),
                    signer: refund_signer(*old(self)),
                }),
                (LedgerAction::CloseTokenAccount {
                    account: old(self).accounts.vault.address,
                    destination: old(self).accounts.maker.address,
                    signer: refund_signer(*old(self)),
                }),
                (LedgerAction::CloseRecordAccount {
                    account: old(self).accounts.escrow.address,
                    destination: old(self).accounts.maker.address,
                }),
            ]);
        }
        Ok(())
    }
}

} // verus!
