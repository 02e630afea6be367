use vstd::prelude::*;
use crate::account::{
    Account, check_token_account, is_token_account, spec_token_amount, spec_token_authority,
    spec_token_mint, token_amount,
};
use crate::actions::LedgerAction;
use crate::addr::{addr_eq, spec_program_id};
use crate::checks::{
    associated_check, associated_check_spec, ata_init_check, ata_init_if_needed, ata_ready,
    first_of, mint_interface_check, mint_interface_check_spec, program_account_check,
    program_account_check_spec, signer_check, signer_check_spec,
};
use crate::errors::EscrowError;
use crate::ledger::{
    close_record_account, close_token_account, closed_out, fresh_holding, reports,
    same_token_slot, token_transfer, token_transfer_check, token_transfer_would,
};
use crate::pda::{derive_escrow_address, spec_escrow_address, SigningAuthority};
use crate::state::{
    record_encodes, spec_record_bump, spec_record_receive, spec_record_seed, Escrow, RECORD_LEN,
};

verus! {

/// Number of accounts the Take instruction is handed (the last position is
/// reserved and unused).
pub const TAKE_ACCOUNT_COUNT: usize = 12;

/// The accounts of a Take instruction, in positional order.
pub struct TakeAccounts {
    pub taker: Account,
    pub maker: Account,
    pub escrow: Account,
    pub mint_a: Account,
    pub mint_b: Account,
    pub vault: Account,
    pub taker_ata_a: Account,
    pub taker_ata_b: Account,
    pub maker_ata_b: Account,
    pub system_program: Account,
    pub token_program: Account,
}

/// The validations TakeAccounts performs, in order, and what each reports:
/// taker signs; the escrow is a program-owned record account; both mints
/// are asset-ledger mints; the taker's mint_b holding account and the vault
/// are the deterministic accounts for (taker, mint_b) and (escrow, mint_a).
pub open spec fn take_accounts_check(accs: Seq<Account>) -> Option<EscrowError> {
    if accs.len() != TAKE_ACCOUNT_COUNT {
        Some(EscrowError::NotEnoughAccountKeys)
    } else {
        first_of(
            signer_check_spec(accs[0]),
            first_of(
                program_account_check_spec(accs[2]),
                first_of(
                    mint_interface_check_spec(accs[3]),
                    first_of(
                        mint_interface_check_spec(accs[4]),
                        first_of(
                            associated_check_spec(
                                accs[7],
                                accs[0].address@,
                                accs[4].address@,
                                accs[10].address@,
                            ),
                            associated_check_spec(
                                accs[5],
                                accs[2].address@,
                                accs[3].address@,
                                accs[10].address@,
                            ),
                        ),
                    ),
                ),
            ),
        )
    }
}

impl TakeAccounts {
    /// Destructure the positional account list and run the per-account
    /// validations.
    pub fn try_from(mut accounts: Vec<Account>) -> (r: Result<TakeAccounts, EscrowError>)
        ensures
            r is Ok <==> take_accounts_check(accounts@) is None,
            r matches Err(e) ==> take_accounts_check(accounts@) == Some(e),
            r matches Ok(t) ==> {
                &&& t.taker == accounts@[0]
                &&& t.maker == accounts@[1]
                &&& t.escrow == accounts@[2]
                &&& t.mint_a == accounts@[3]
                &&& t.mint_b == accounts@[4]
                &&& t.vault == accounts@[5]
                &&& t.taker_ata_a == accounts@[6]
                &&& t.taker_ata_b == accounts@[7]
                &&& t.maker_ata_b == accounts@[8]
                &&& t.system_program == accounts@[9]
                &&& t.token_program == accounts@[10]
            },
    {
        if accounts.len() != TAKE_ACCOUNT_COUNT {
            return Err(EscrowError::NotEnoughAccountKeys);
        }
        let taker = accounts.remove(0);
        let maker = accounts.remove(0);
        let escrow = accounts.remove(0);
        let mint_a = accounts.remove(0);
        let mint_b = accounts.remove(0);
        let vault = accounts.remove(0);
        let taker_ata_a = accounts.remove(0);
        let taker_ata_b = accounts.remove(0);
        let maker_ata_b = accounts.remove(0);
        let system_program = accounts.remove(0);
        let token_program = accounts.remove(0);
        match signer_check(&taker) {
            Ok(u) => {},
            Err(e) => {
                return Err(e);
            },
        }
        match program_account_check(&escrow) {
            Ok(u) => {},
            Err(e) => {
                return Err(e);
            },
        }
        match mint_interface_check(&mint_a) {
            Ok(u) => {},
            Err(e) => {
                return Err(e);
            },
        }
        match mint_interface_check(&mint_b) {
            Ok(u) => {},
            Err(e) => {
                return Err(e);
            },
        }
        match associated_check(&taker_ata_b, &taker, &mint_b, &token_program) {
            Ok(u) => {},
            Err(e) => {
                return Err(e);
            },
        }
        match associated_check(&vault, &escrow, &mint_a, &token_program) {
            Ok(u) => {},
            Err(e) => {
                return Err(e);
            },
        }
        Ok(
            TakeAccounts {
                taker,
                maker,
                escrow,
                mint_a,
                mint_b,
                vault,
                taker_ata_a,
                taker_ata_b,
                maker_ata_b,
                system_program,
                token_program,
            },
        )
    }
}

/// A fully validated Take instruction.
pub struct Take {
    pub accounts: TakeAccounts,
    pub actions: Vec<LedgerAction>,
}

/// Whether the taker's mint_a holding account already existed before setup.
pub open spec fn take_had_ata_a(accs: Seq<Account>) -> bool {
    ata_ready(accs[6], accs[0].address@, accs[3].address@)
}

/// Whether the maker's mint_b holding account already existed before setup.
pub open spec fn take_had_ata_b(accs: Seq<Account>) -> bool {
    ata_ready(accs[8], accs[1].address@, accs[4].address@)
}

/// Every condition checked while setting a Take instruction up, in order.
pub open spec fn take_setup_check(accs: Seq<Account>, ata_lamports: u64) -> Option<EscrowError> {
    if take_accounts_check(accs) is Some {
        take_accounts_check(accs)
    } else {
        let c1 = ata_init_check(
            accs[0].lamports,
            accs[6],
            accs[0].address@,
            accs[3].address@,
            accs[10].address@,
            ata_lamports,
        );
        if c1 is Some {
            c1
        } else {
            let taker_lamports_1 = if take_had_ata_a(accs) {
                accs[0].lamports
            } else {
                (accs[0].lamports - ata_lamports) as u64
            };
            ata_init_check(
                taker_lamports_1,
                accs[8],
                accs[1].address@,
                accs[4].address@,
                accs[10].address@,
                ata_lamports,
            )
        }
    }
}

/// The state a Take instruction is in right after setup: accounts
/// validated, both possibly missing holding accounts present, creations
/// decided as actions.
pub open spec fn take_setup_post(accs: Seq<Account>, ata_lamports: u64, t: Take) -> bool {
    let had_a = take_had_ata_a(accs);
    let had_b = take_had_ata_b(accs);
    &&& t.accounts.taker.address == accs[0].address
    &&& t.accounts.taker.owner == accs[0].owner
    &&& t.accounts.taker.is_signer == accs[0].is_signer
    &&& t.accounts.taker.data@ == accs[0].data@
    &&& t.accounts.taker.lamports == accs[0].lamports - (if had_a {
        0
    } else {
        ata_lamports as int
    }) - (if had_b {
        0
    } else {
        ata_lamports as int
    })
    &&& t.accounts.maker == accs[1]
    &&& t.accounts.escrow == accs[2]
    &&& t.accounts.mint_a == accs[3]
    &&& t.accounts.mint_b == accs[4]
    &&& t.accounts.vault == accs[5]
    &&& (if had_a {
        t.accounts.taker_ata_a == accs[6]
    } else {
        fresh_holding(accs[6], t.accounts.taker_ata_a, accs[3].address@, accs[0].address@, ata_lamports)
    })
    &&& ata_ready(t.accounts.taker_ata_a, accs[0].address@, accs[3].address@)
    &&& t.accounts.taker_ata_b == accs[7]
    &&& (if had_b {
        t.accounts.maker_ata_b == accs[8]
    } else {
        fresh_holding(accs[8], t.accounts.maker_ata_b, accs[4].address@, accs[1].address@, ata_lamports)
    })
    &&& ata_ready(t.accounts.maker_ata_b, accs[1].address@, accs[4].address@)
    &&& t.accounts.system_program == accs[9]
    &&& t.accounts.token_program == accs[10]
    &&& t.actions@.len() == (if had_a {
        0int
    } else {
        1int
    }) + (if had_b {
        0int
    } else {
        1int
    })
    &&& (!had_a ==> (t.actions@[0] matches LedgerAction::CreateAssociatedAccount {
        payer,
        account,
        mint,
        authority,
    } && payer == accs[0].address && account == accs[6].address && mint == accs[3].address
        && authority == accs[0].address))
    &&& (!had_b ==> (t.actions@[if had_a {
        0int
    } else {
        1int
    }] matches LedgerAction::CreateAssociatedAccount { payer, account, mint, authority } && payer
        == accs[0].address && account == accs[8].address && mint == accs[4].address && authority
        == accs[1].address))
}

/// Well-formedness of a set-up Take instruction, established by `try_from`
/// and relied on by `process`.
pub open spec fn take_wf(t: Take) -> bool {
    &&& t.accounts.escrow.data@.len() == RECORD_LEN
    &&& t.accounts.escrow.owner@ == spec_program_id()
    &&& ata_ready(t.accounts.taker_ata_a, t.accounts.taker.address@, t.accounts.mint_a.address@)
    &&& ata_ready(t.accounts.maker_ata_b, t.accounts.maker.address@, t.accounts.mint_b.address@)
}

/// What `process` still has to check, in order: the record's address
/// re-derivation, the counter-asset transfer, the vault release, and the
/// deposit returns.
pub open spec fn take_process_check(t: Take) -> Option<EscrowError> {
    let ed = t.accounts.escrow.data@;
    match spec_escrow_address(t.accounts.maker.address@, spec_record_seed(ed), spec_record_bump(ed)) {
        None => Some(EscrowError::InvalidSeeds),
        Some(a) => if t.accounts.escrow.address@ != a {
            Some(EscrowError::InvalidAccountData)
        } else {
            let c1 = token_transfer_check(
                t.accounts.taker_ata_b,
                t.accounts.maker_ata_b,
                t.accounts.taker.address@,
                spec_record_receive(ed),
            );
            if c1 is Some {
                c1
            } else if !is_token_account(t.accounts.vault) {
                Some(EscrowError::InvalidAccountData)
            } else if spec_token_authority(t.accounts.vault.data@)
                != t.accounts.escrow.address@ {
                Some(EscrowError::InvalidAccountOwner)
            } else if spec_token_mint(t.accounts.vault.data@)
                != spec_token_mint(t.accounts.taker_ata_a.data@) {
                Some(EscrowError::InvalidAccountData)
            } else if spec_token_amount(t.accounts.taker_ata_a.data@) + spec_token_amount(
                t.accounts.vault.data@,
            ) > u64::MAX {
                Some(EscrowError::ArithmeticOverflow)
            } else if t.accounts.maker.lamports + t.accounts.vault.lamports > u64::MAX {
                Some(EscrowError::ArithmeticOverflow)
            } else if t.accounts.maker.lamports + t.accounts.vault.lamports
                + t.accounts.escrow.lamports > u64::MAX {
                Some(EscrowError::ArithmeticOverflow)
            } else {
                None
            }
        },
    }
}

/// How `process` changes a set-up Take instruction on success: the taker
/// pays exactly the recorded ask to the maker, receives the vault's whole
/// balance, and both the vault and the record account cease to exist, their
/// storage deposits going back to the maker.
pub open spec fn take_process_post(pre: Take, post: Take) -> bool {
    let ed = pre.accounts.escrow.data@;
    let vault_amount = spec_token_amount(pre.accounts.vault.data@);
    let receive = spec_record_receive(ed);
    &&& same_token_slot(pre.accounts.taker_ata_b, post.accounts.taker_ata_b)
    &&& spec_token_amount(post.accounts.taker_ata_b.data@) == spec_token_amount(
        pre.accounts.taker_ata_b.data@,
    ) - receive
    &&& same_token_slot(pre.accounts.maker_ata_b, post.accounts.maker_ata_b)
    &&& spec_token_amount(post.accounts.maker_ata_b.data@) == spec_token_amount(
        pre.accounts.maker_ata_b.data@,
    ) + receive
    &&& same_token_slot(pre.accounts.taker_ata_a, post.accounts.taker_ata_a)
    &&& spec_token_amount(post.accounts.taker_ata_a.data@) == spec_token_amount(
        pre.accounts.taker_ata_a.data@,
    ) + vault_amount
    &&& closed_out(pre.accounts.vault, post.accounts.vault)
    &&& closed_out(pre.accounts.escrow, post.accounts.escrow)
    &&& post.accounts.maker.address == pre.accounts.maker.address
    &&& post.accounts.maker.owner == pre.accounts.maker.owner
    &&& post.accounts.maker.is_signer == pre.accounts.maker.is_signer
    &&& post.accounts.maker.data@ == pre.accounts.maker.data@
    &&& post.accounts.maker.lamports == pre.accounts.maker.lamports
        + pre.accounts.vault.lamports + pre.accounts.escrow.lamports
    &&& post.accounts.taker == pre.accounts.taker
    &&& post.accounts.mint_a == pre.accounts.mint_a
    &&& post.accounts.mint_b == pre.accounts.mint_b
    &&& post.accounts.system_program == pre.accounts.system_program
    &&& post.accounts.token_program == pre.accounts.token_program
    &&& post.actions@ == pre.actions@ + seq![
        (LedgerAction::Transfer {
            from: pre.accounts.taker_ata_b.address,
            to: pre.accounts.maker_ata_b.address,
            authority: pre.accounts.taker.address,
            amount: receive,
        }),
        (LedgerAction::SignedTransfer {
            from: pre.accounts.vault.address,
            to: pre.accounts.taker_ata_a.address,
            amount: vault_amount,
            signer: take_signer(pre),
        }),
        (LedgerAction::CloseTokenAccount {
            account: pre.accounts.vault.address,
            destination: pre.accounts.maker.address,
            signer: take_signer(pre),
        }),
        (LedgerAction::CloseRecordAccount {
            account: pre.accounts.escrow.address,
            destination: pre.accounts.maker.address,
        }),
    ]
}

/// The signing authority a Take instruction acts under: the escrow's
/// derived address, re-derivable from the supplied maker and the stored
/// record.
pub open spec fn take_signer(t: Take) -> SigningAuthority {
    SigningAuthority {
        maker: t.accounts.maker.address,
        seed: spec_record_seed(t.accounts.escrow.data@),
        bump: spec_record_bump(t.accounts.escrow.data@),
        address: t.accounts.escrow.address,
    }
}

/// Every condition a whole Take instruction checks, from the account list
/// to the deposit returns, in order.
pub open spec fn take_check(accs: Seq<Account>, ata_lamports: u64) -> Option<EscrowError> {
    if take_setup_check(accs, ata_lamports) is Some {
        take_setup_check(accs, ata_lamports)
    } else {
        let ed = accs[2].data@;
        let had_a = take_had_ata_a(accs);
        let had_b = take_had_ata_b(accs);
        match spec_escrow_address(accs[1].address@, spec_record_seed(ed), spec_record_bump(ed)) {
            None => Some(EscrowError::InvalidSeeds),
            Some(a) => if accs[2].address@ != a {
                Some(EscrowError::InvalidAccountData)
            } else if !is_token_account(accs[7]) {
                Some(EscrowError::InvalidAccountData)
            } else if spec_token_authority(accs[7].data@) != accs[0].address@ {
                Some(EscrowError::InvalidAccountOwner)
            } else if spec_token_mint(accs[7].data@) != accs[4].address@ {
                Some(EscrowError::InvalidAccountData)
            } else if spec_token_amount(accs[7].data@) < spec_record_receive(ed) {
                Some(EscrowError::InsufficientFunds)
            } else if (if had_b {
                spec_token_amount(accs[8].data@) as int
            } else {
                0int
            }) + spec_record_receive(ed) > u64::MAX {
                Some(EscrowError::ArithmeticOverflow)
            } else if !is_token_account(accs[5]) {
                Some(EscrowError::InvalidAccountData)
            } else if spec_token_authority(accs[5].data@) != accs[2].address@ {
                Some(EscrowError::InvalidAccountOwner)
            } else if spec_token_mint(accs[5].data@) != accs[3].address@ {
                Some(EscrowError::InvalidAccountData)
            } else if (if had_a {
                spec_token_amount(accs[6].data@) as int
            } else {
                0int
            }) + spec_token_amount(accs[5].data@) > u64::MAX {
                Some(EscrowError::ArithmeticOverflow)
            } else if accs[1].lamports + accs[5].lamports > u64::MAX {
                Some(EscrowError::ArithmeticOverflow)
            } else if accs[1].lamports + accs[5].lamports + accs[2].lamports > u64::MAX {
                Some(EscrowError::ArithmeticOverflow)
            } else {
                None
            },
        }
    }
}

/// What a successful Take leaves behind, over the input account list: the
/// taker's mint_a holding gains the vault's whole pre-instruction balance,
/// the maker's mint_b holding gains exactly the recorded ask (paid by the
/// taker), the vault and the record account cease to exist, and both
/// storage deposits go back to the maker.
pub open spec fn take_post(accs: Seq<Account>, ata_lamports: u64, t: Take) -> bool {
    let ed = accs[2].data@;
    let had_a = take_had_ata_a(accs);
    let had_b = take_had_ata_b(accs);
    let vault_amount = spec_token_amount(accs[5].data@);
    let receive = spec_record_receive(ed);
    let base = (if had_a {
        0int
    } else {
        1int
    }) + (if had_b {
        0int
    } else {
        1int
    });
    &&& t.accounts.taker.address == accs[0].address
    &&& t.accounts.taker.owner == accs[0].owner
    &&& t.accounts.taker.is_signer == accs[0].is_signer
    &&& t.accounts.taker.data@ == accs[0].data@
    &&& t.accounts.taker.lamports == accs[0].lamports - (if had_a {
        0
    } else {
        ata_lamports as int
    }) - (if had_b {
        0
    } else {
        ata_lamports as int
    })
    &&& t.accounts.maker.address == accs[1].address
    &&& t.accounts.maker.owner == accs[1].owner
    &&& t.accounts.maker.is_signer == accs[1].is_signer
    &&& t.accounts.maker.data@ == accs[1].data@
    &&& t.accounts.maker.lamports == accs[1].lamports + accs[5].lamports + accs[2].lamports
    &&& closed_out(accs[2], t.accounts.escrow)
    &&& t.accounts.mint_a == accs[3]
    &&& t.accounts.mint_b == accs[4]
    &&& closed_out(accs[5], t.accounts.vault)
    &&& t.accounts.taker_ata_a.address == accs[6].address
    &&& t.accounts.taker_ata_a.is_signer == accs[6].is_signer
    &&& ata_ready(t.accounts.taker_ata_a, accs[0].address@, accs[3].address@)
    &&& spec_token_amount(t.accounts.taker_ata_a.data@) == (if had_a {
        spec_token_amount(accs[6].data@) as int
    } else {
        0int
    }) + vault_amount
    &&& t.accounts.taker_ata_a.lamports == (if had_a {
        accs[6].lamports
    } else {
        ata_lamports
    })
    &&& same_token_slot(accs[7], t.accounts.taker_ata_b)
    &&& spec_token_amount(t.accounts.taker_ata_b.data@) == spec_token_amount(accs[7].data@)
        - receive
    &&& t.accounts.maker_ata_b.address == accs[8].address
    &&& t.accounts.maker_ata_b.is_signer == accs[8].is_signer
    &&& ata_ready(t.accounts.maker_ata_b, accs[1].address@, accs[4].address@)
    &&& spec_token_amount(t.accounts.maker_ata_b.data@) == (if had_b {
        spec_token_amount(accs[8].data@) as int
    } else {
        0int
    }) + receive
    &&& t.accounts.maker_ata_b.lamports == (if had_b {
        accs[8].lamports
    } else {
        ata_lamports
    })
    &&& t.accounts.system_program == accs[9]
    &&& t.accounts.token_program == accs[10]
    &&& t.actions@.len() == base + 4
    &&& (!had_a ==> (t.actions@[0] matches LedgerAction::CreateAssociatedAccount {
        payer,
        account,
        mint,
        authority,
    } && payer == accs[0].address && account == accs[6].address && mint == accs[3].address
        && authority == accs[0].address))
    &&& (!had_b ==> (t.actions@[if had_a {
        0int
    } else {
        1int
    }] matches LedgerAction::CreateAssociatedAccount { payer, account, mint, authority } && payer
        == accs[0].address && account == accs[8].address && mint == accs[4].address && authority
        == accs[1].address))
    &&& (t.actions@[base] matches LedgerAction::Transfer { from, to, authority, amount } && from
        == accs[7].address && to == accs[8].address && authority == accs[0].address && amount
        == receive)
    &&& (t.actions@[base + 1] matches LedgerAction::SignedTransfer { from, to, amount, signer }
        && from == accs[5].address && to == accs[6].address && amount == vault_amount && signer
        == (SigningAuthority {
        maker: accs[1].address,
        seed: spec_record_seed(ed),
        bump: spec_record_bump(ed),
        address: accs[2].address,
    }))
    &&& (t.actions@[base + 2] matches LedgerAction::CloseTokenAccount {
        account,
        destination,
        signer,
    } && account == accs[5].address && destination == accs[1].address && signer
        == (SigningAuthority {
        maker: accs[1].address,
        seed: spec_record_seed(ed),
        bump: spec_record_bump(ed),
        address: accs[2].address,
    }))
    &&& (t.actions@[base + 3] matches LedgerAction::CloseRecordAccount { account, destination }
        && account == accs[2].address && destination == accs[1].address)
}

impl Take {
    /// Leading payload byte that routes to this handler.
    pub const DISCRIMINATOR: u8 = 1;

    /// Validate and execute a whole Take instruction: complete the swap, or
    /// report the first failing condition with nothing persisted.
    pub fn run(accounts: Vec<Account>, ata_lamports: u64) -> (r: Result<Take, EscrowError>)
        ensures
            r is Ok <==> take_check(accounts@, ata_lamports) is None,
            r matches Err(e) ==> take_check(accounts@, ata_lamports) == Some(e),
            r matches Ok(t) ==> take_post(accounts@, ata_lamports, t),
    {
        let mut t = match Take::try_from(accounts, ata_lamports) {
            Ok(t) => t,
            Err(e) => {
                return Err(e);
            },
        };
        match t.process() {
            Ok(u) => {},
            Err(e) => {
                return Err(e);
            },
        }
        Ok(t)
    }

    /// Set a Take instruction up: validate the accounts and create the
    /// taker's mint_a and the maker's mint_b holding accounts when absent
    /// (both funded by the taker).
    pub fn try_from(accounts: Vec<Account>, ata_lamports: u64) -> (r: Result<Take, EscrowError>)
        ensures
            r is Ok <==> take_setup_check(accounts@, ata_lamports) is None,
            r matches Err(e) ==> take_setup_check(accounts@, ata_lamports) == Some(e),
            r matches Ok(t) ==> take_setup_post(accounts@, ata_lamports, t) && take_wf(t),
    {
        let accs = match TakeAccounts::try_from(accounts) {
            Ok(a) => a,
            Err(e) => {
                return Err(e);
            },
        };
        let mut t = Take { accounts: accs, actions: Vec::new() };
        let taker_addr = t.accounts.taker.address;
        let maker_addr = t.accounts.maker.address;
        let mint_a_addr = t.accounts.mint_a.address;
        let mint_b_addr = t.accounts.mint_b.address;
        let token_prog_addr = t.accounts.token_program.address;
        let had_a = crate::checks::check_ata_ready(
            &t.accounts.taker_ata_a,
            &taker_addr,
            &mint_a_addr,
        );
        match ata_init_if_needed(
            &mut t.accounts.taker,
            &mut t.accounts.taker_ata_a,
            &taker_addr,
            &mint_a_addr,
            &token_prog_addr,
            ata_lamports,
        ) {
            Ok(u) => {},
            Err(e) => {
                return Err(e);
            },
        }
        if !had_a {
            t.actions.push(
                LedgerAction::CreateAssociatedAccount {
                    payer: taker_addr,
                    account: t.accounts.taker_ata_a.address,
                    mint: mint_a_addr,
                    authority: taker_addr,
                },
            );
        }
        let had_b = crate::checks::check_ata_ready(
            &t.accounts.maker_ata_b,
            &maker_addr,
            &mint_b_addr,
        );
        match ata_init_if_needed(
            &mut t.accounts.taker,
            &mut t.accounts.maker_ata_b,
            &maker_addr,
            &mint_b_addr,
            &token_prog_addr,
            ata_lamports,
        ) {
            Ok(u) => {},
            Err(e) => {
                return Err(e);
            },
        }
        if !had_b {
            t.actions.push(
                LedgerAction::CreateAssociatedAccount {
                    payer: taker_addr,
                    account: t.accounts.maker_ata_b.address,
                    mint: mint_b_addr,
                    authority: maker_addr,
                },
            );
        }
        Ok(t)
    }

    /// Complete the swap. The record is loaded and its address re-derived
    /// from the supplied maker and the stored nonce and salt; a forged or
    /// substituted record account fails here. Then the counter-asset is
    /// collected first (taker pays the recorded ask to the maker), and only
    /// then is the locked asset released to the taker and the vault and
    /// record closed, their deposits going to the maker.
    pub fn process(&mut self) -> (r: Result<(), EscrowError>)
        requires
            take_wf(*old(self)),
        ensures
            reports(r, take_process_check(*old(self))),
            r is Err ==> *final(self) == *old(self),
            r is Ok ==> take_process_post(*old(self), *final(self)),
    {
        let record = match Escrow::load(&self.accounts.escrow.data) {
            Ok(rec) => rec,
            Err(e) => {
                return Err(e);
            },
        };
        let derived = match derive_escrow_address(
            &self.accounts.maker.address,
            record.seed,
            record.bump,
        ) {
            None => {
                return Err(EscrowError::InvalidSeeds);
            },
            Some(a) => a,
        };
        if !addr_eq(&self.accounts.escrow.address, &derived) {
            return Err(EscrowError::InvalidAccountData);
        }
        let taker_addr = self.accounts.taker.address;
        let escrow_addr = self.accounts.escrow.address;
        match token_transfer_would(
            &self.accounts.taker_ata_b,
            &self.accounts.maker_ata_b,
            &taker_addr,
            record.receive,
        ) {
            Ok(u) => {},
            Err(e) => {
                return Err(e);
            },
        }
        if !check_token_account(&self.accounts.vault) {
            return Err(EscrowError::InvalidAccountData);
        }
        let vault_amount = token_amount(&self.accounts.vault);
        match token_transfer_would(
            &self.accounts.vault,
            &self.accounts.taker_ata_a,
            &escrow_addr,
            vault_amount,
        ) {
            Ok(u) => {},
            Err(e) => {
                return Err(e);
            },
        }
        if self.accounts.maker.lamports > u64::MAX - self.accounts.vault.lamports {
            return Err(EscrowError::ArithmeticOverflow);
        }
        let lamports_after_vault = self.accounts.maker.lamports + self.accounts.vault.lamports;
        if lamports_after_vault > u64::MAX - self.accounts.escrow.lamports {
            return Err(EscrowError::ArithmeticOverflow);
        }
        match token_transfer(
            &mut self.accounts.taker_ata_b,
            &mut self.accounts.maker_ata_b,
            &taker_addr,
            record.receive,
        ) {
            Ok(u) => {},
            Err(e) => {
                return Err(e);
            },
        }
        match token_transfer(
            &mut self.accounts.vault,
            &mut self.accounts.taker_ata_a,
            &escrow_addr,
            vault_amount,
        ) {
            Ok(u) => {},
            Err(e) => {
                return Err(e);
            },
        }
        match close_token_account(
            &mut self.accounts.vault,
            &mut self.accounts.maker,
            &escrow_addr,
        ) {
            Ok(u) => {},
            Err(e) => {
                return Err(e);
            },
        }
        match close_record_account(&mut self.accounts.escrow, &mut self.accounts.maker) {
            Ok(u) => {},
            Err(e) => {
                return Err(e);
            },
        }
        let signer = SigningAuthority {
            maker: self.accounts.maker.address,
            seed: record.seed,
            bump: record.bump,
            address: escrow_addr,
        };
        self.actions.push(
            LedgerAction::Transfer {
                from: self.accounts.taker_ata_b.address,
                to: self.accounts.maker_ata_b.address,
                authority: taker_addr,
                amount: record.receive,
            },
        );
        self.actions.push(
            LedgerAction::SignedTransfer {
                from: self.accounts.vault.address,
                to: self.accounts.taker_ata_a.address,
                amount: vault_amount,
                signer: SigningAuthority {
                    maker: signer.maker,
                    seed: signer.seed,
                    bump: signer.bump,
                    address: signer.address,
                },
            },
        );
        self.actions.push(
            LedgerAction::CloseTokenAccount {
                account: self.accounts.vault.address,
                destination: self.accounts.maker.address,
                signer,
            },
        );
        self.actions.push(
            LedgerAction::CloseRecordAccount {
                account: self.accounts.escrow.address,
                destination: self.accounts.maker.address,
            },
        );
        proof {
            assert(self.actions@ =~= old(self).actions@ + seq![
                (LedgerAction::Transfer {
                    from: old(self).accounts.taker_ata_b.address,
                    to: old(self).accounts.maker_ata_b.address,
                    authority: old(self).accounts.taker.address,
                    amount: spec_record_receive(old(self).accounts.escrow.data@),
                }),
                (LedgerAction::SignedTransfer {
                    from: old(self).accounts.vault.address,
                    to: old(self).accounts.taker_ata_a.address,
                    amount: spec_token_amount(old(self).accounts.vault.data@),
                    signer: take_signer(*old(self)),
                }),
                (LedgerAction::CloseTokenAccount {
                    account: old(self).accounts.vault.address,
                    destination: old(self).accounts.maker.address,
                    signer: take_signer(*old(self)),
                }),
                (LedgerAction::CloseRecordAccount {
                    account: old(self).accounts.escrow.address,
                    destination: old(self).accounts.maker.address,
                }),
            ]);
        }
        Ok(())
    }
}

} // verus!
