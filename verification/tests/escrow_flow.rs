use blueshift_escrow::account::{token_amount, Account};
use blueshift_escrow::addr::{program_id, system_program_id, token_program_id};
use blueshift_escrow::errors::EscrowError;
use blueshift_escrow::pda::{find_associated_address, find_escrow_address};
use blueshift_escrow::process_instruction;
use blueshift_escrow::state::Escrow;
use blueshift_escrow::Processed;

const RECORD_RENT: u64 = 2_000_000;
const ATA_RENT: u64 = 1_000_000;

fn flow_account(address: [u8; 32], owner: [u8; 32], is_signer: bool, lamports: u64, data: Vec<u8>) -> Account {
    Account { address, owner, is_signer, lamports, data }
}

fn flow_vacant(address: [u8; 32], is_signer: bool, lamports: u64) -> Account {
    flow_account(address, system_program_id(), is_signer, lamports, Vec::new())
}

fn flow_token_data(mint: [u8; 32], authority: [u8; 32], amount: u64) -> Vec<u8> {
    let mut d = Vec::new();
    d.extend_from_slice(&mint);
    d.extend_from_slice(&authority);
    d.extend_from_slice(&amount.to_le_bytes());
    d.extend_from_slice(&[0u8; 93]);
    d
}

fn flow_mint_account(address: [u8; 32]) -> Account {
    flow_account(address, token_program_id(), false, 1_000_000, vec![0u8; 82])
}

fn flow_make_payload(seed: u64, receive: u64, amount: u64) -> Vec<u8> {
    let mut d = vec![0u8];
    d.extend_from_slice(&seed.to_le_bytes());
    d.extend_from_slice(&receive.to_le_bytes());
    d.extend_from_slice(&amount.to_le_bytes());
    d
}

/// The accounts of the reference scenario's Make: seed 42, maker M, mints
/// A and B, the maker holding 700 of A.
fn flow_make_accounts(maker: [u8; 32], mint_a: [u8; 32], mint_b: [u8; 32]) -> Vec<Account> {
    let token_prog = token_program_id();
    let (escrow_addr, _) = find_escrow_address(&maker, 42).unwrap();
    let (maker_ata_a_addr, _) = find_associated_address(&maker, &token_prog, &mint_a).unwrap();
    let (vault_addr, _) = find_associated_address(&escrow_addr, &token_prog, &mint_a).unwrap();
    vec![
        flow_vacant(maker, true, 10_000_000),
        flow_vacant(escrow_addr, false, 0),
        flow_mint_account(mint_a),
        flow_mint_account(mint_b),
        flow_account(
            maker_ata_a_addr,
            token_program_id(),
            false,
            ATA_RENT,
            flow_token_data(mint_a, maker, 700),
        ),
        flow_vacant(vault_addr, false, 0),
        flow_vacant(system_program_id(), false, 1),
        flow_account(token_prog, system_program_id(), false, 1, Vec::new()),
        flow_vacant([9u8; 32], false, 0),
    ]
}

fn flow_run_make(maker: [u8; 32], mint_a: [u8; 32], mint_b: [u8; 32]) -> blueshift_escrow::make::Make {
    let accounts = flow_make_accounts(maker, mint_a, mint_b);
    let payload = flow_make_payload(42, 1000, 500);
    match process_instruction(&payload, accounts, RECORD_RENT, ATA_RENT).unwrap() {
        Processed::Made(m) => m,
        _ => panic!("expected a Make outcome"),
    }
}

#[test]
fn make_locks_exactly_the_deposit() {
    let maker = [1u8; 32];
    let mint_a = [10u8; 32];
    let mint_b = [11u8; 32];
    let m = flow_run_make(maker, mint_a, mint_b);
    assert_eq!(token_amount(&m.accounts.vault), 500);
    assert_eq!(token_amount(&m.accounts.maker_ata_a), 200);
    let record = Escrow::load(&m.accounts.escrow.data).unwrap();
    assert_eq!(record.seed, 42);
    assert_eq!(record.maker, maker);
    assert_eq!(record.mint_a, mint_a);
    assert_eq!(record.mint_b, mint_b);
    assert_eq!(record.receive, 1000);
    assert_eq!(m.accounts.escrow.owner, program_id());
    assert_eq!(m.accounts.escrow.data.len(), 113);
    assert_eq!(m.accounts.maker.lamports, 7_000_000);
    assert_eq!(m.bump, record.bump);
    assert_eq!(m.actions.len(), 3);
}

fn flow_take_accounts(
    m: &blueshift_escrow::make::Make,
    taker: [u8; 32],
    taker_b_balance: u64,
) -> Vec<Account> {
    let token_prog = token_program_id();
    let mint_a = m.accounts.mint_a.address;
    let mint_b = m.accounts.mint_b.address;
    let maker = m.accounts.maker.address;
    let (taker_ata_a_addr, _) = find_associated_address(&taker, &token_prog, &mint_a).unwrap();
    let (taker_ata_b_addr, _) = find_associated_address(&taker, &token_prog, &mint_b).unwrap();
    let (maker_ata_b_addr, _) = find_associated_address(&maker, &token_prog, &mint_b).unwrap();
    vec![
        flow_vacant(taker, true, 5_000_000),
        m.accounts.maker.duplicate(),
        m.accounts.escrow.duplicate(),
        m.accounts.mint_a.duplicate(),
        m.accounts.mint_b.duplicate(),
        m.accounts.vault.duplicate(),
        flow_vacant(taker_ata_a_addr, false, 0),
        flow_account(
            taker_ata_b_addr,
            token_program_id(),
            false,
            ATA_RENT,
            flow_token_data(mint_b, taker, taker_b_balance),
        ),
        flow_vacant(maker_ata_b_addr, false, 0),
        flow_vacant(system_program_id(), false, 1),
        flow_account(token_prog, system_program_id(), false, 1, Vec::new()),
        flow_vacant([9u8; 32], false, 0),
    ]
}

#[test]
fn take_completes_the_swap_exactly() {
    let maker = [1u8; 32];
    let taker = [2u8; 32];
    let m = flow_run_make(maker, [10u8; 32], [11u8; 32]);
    let accounts = flow_take_accounts(&m, taker, 1500);
    let t = match process_instruction(&[1u8], accounts, RECORD_RENT, ATA_RENT).unwrap() {
        Processed::Taken(t) => t,
        _ => panic!("expected a Take outcome"),
    };
    // The taker now holds the locked 500 of A and paid exactly 1000 of B.
    assert_eq!(token_amount(&t.accounts.taker_ata_a), 500);
    assert_eq!(token_amount(&t.accounts.taker_ata_b), 500);
    assert_eq!(token_amount(&t.accounts.maker_ata_b), 1000);
    // Vault and record account no longer exist in valid form.
    assert_eq!(t.accounts.vault.data.len(), 0);
    assert_eq!(t.accounts.vault.owner, system_program_id());
    assert_eq!(t.accounts.vault.lamports, 0);
    assert_eq!(t.accounts.escrow.data.len(), 0);
    assert_eq!(t.accounts.escrow.owner, system_program_id());
    // The maker got both storage deposits back.
    assert_eq!(t.accounts.maker.lamports, 10_000_000);
    // The taker funded the two created holding accounts.
    assert_eq!(t.accounts.taker.lamports, 3_000_000);
}

#[test]
fn refund_returns_the_deposit_exactly() {
    let maker = [1u8; 32];
    let mint_a = [10u8; 32];
    let m = flow_run_make(maker, mint_a, [11u8; 32]);
    let accounts = vec![
        m.accounts.maker.duplicate(),
        m.accounts.escrow.duplicate(),
        m.accounts.mint_a.duplicate(),
        m.accounts.vault.duplicate(),
        m.accounts.maker_ata_a.duplicate(),
        flow_vacant(system_program_id(), false, 1),
        flow_account(token_program_id(), system_program_id(), false, 1, Vec::new()),
        flow_vacant([9u8; 32], false, 0),
    ];
    let t = match process_instruction(&[2u8], accounts, RECORD_RENT, ATA_RENT).unwrap() {
        Processed::Refunded(t) => t,
        _ => panic!("expected a Refund outcome"),
    };
    // The maker regained the locked 500 of A and both storage deposits.
    assert_eq!(token_amount(&t.accounts.maker_ata_a), 700);
    assert_eq!(t.accounts.maker.lamports, 10_000_000);
    assert_eq!(t.accounts.vault.data.len(), 0);
    assert_eq!(t.accounts.escrow.data.len(), 0);
}

#[test]
fn take_reuses_existing_holding_accounts() {
    let maker = [1u8; 32];
    let taker = [2u8; 32];
    let m = flow_run_make(maker, [10u8; 32], [11u8; 32]);
    let mut accounts = flow_take_accounts(&m, taker, 1500);
    // The taker already holds 30 of A in the deterministic account.
    let mint_a = m.accounts.mint_a.address;
    let taker_ata_a_addr = accounts[6].address;
    accounts[6] = flow_account(
        taker_ata_a_addr,
        token_program_id(),
        false,
        ATA_RENT,
        flow_token_data(mint_a, taker, 30),
    );
    let t = match process_instruction(&[1u8], accounts, RECORD_RENT, ATA_RENT).unwrap() {
        Processed::Taken(t) => t,
        _ => panic!("expected a Take outcome"),
    };
    assert_eq!(token_amount(&t.accounts.taker_ata_a), 530);
    // Only the maker's mint_b holding account had to be created.
    assert_eq!(t.accounts.taker.lamports, 4_000_000);
}

#[test]
fn take_fails_on_consumed_escrow() {
    let maker = [1u8; 32];
    let taker = [2u8; 32];
    let m = flow_run_make(maker, [10u8; 32], [11u8; 32]);
    let accounts = flow_take_accounts(&m, taker, 1500);
    let t = match process_instruction(&[1u8], accounts, RECORD_RENT, ATA_RENT).unwrap() {
        Processed::Taken(t) => t,
        _ => panic!("expected a Take outcome"),
    };
    // Rebuild a second Take against the closed escrow and vault.
    let taker2 = [3u8; 32];
    let token_prog = token_program_id();
    let mint_a = t.accounts.mint_a.address;
    let mint_b = t.accounts.mint_b.address;
    let (a2, _) = find_associated_address(&taker2, &token_prog, &mint_a).unwrap();
    let (b2, _) = find_associated_address(&taker2, &token_prog, &mint_b).unwrap();
    let maker_b = t.accounts.maker_ata_b.duplicate();
    let accounts2 = vec![
        flow_vacant(taker2, true, 5_000_000),
        t.accounts.maker.duplicate(),
        t.accounts.escrow.duplicate(),
        t.accounts.mint_a.duplicate(),
        t.accounts.mint_b.duplicate(),
        t.accounts.vault.duplicate(),
        flow_vacant(a2, false, 0),
        flow_account(b2, token_program_id(), false, ATA_RENT, flow_token_data(mint_b, taker2, 2000)),
        maker_b,
        flow_vacant(system_program_id(), false, 1),
        flow_account(token_prog, system_program_id(), false, 1, Vec::new()),
        flow_vacant([9u8; 32], false, 0),
    ];
    let r = process_instruction(&[1u8], accounts2, RECORD_RENT, ATA_RENT);
    assert!(matches!(r, Err(EscrowError::InvalidAccountOwner)));
}

#[test]
fn refund_fails_on_consumed_escrow() {
    let maker = [1u8; 32];
    let m = flow_run_make(maker, [10u8; 32], [11u8; 32]);
    let refund_accounts = vec![
        m.accounts.maker.duplicate(),
        m.accounts.escrow.duplicate(),
        m.accounts.mint_a.duplicate(),
        m.accounts.vault.duplicate(),
        m.accounts.maker_ata_a.duplicate(),
        flow_vacant(system_program_id(), false, 1),
        flow_account(token_program_id(), system_program_id(), false, 1, Vec::new()),
        flow_vacant([9u8; 32], false, 0),
    ];
    let t = match process_instruction(&[2u8], refund_accounts, RECORD_RENT, ATA_RENT).unwrap() {
        Processed::Refunded(t) => t,
        _ => panic!("expected a Refund outcome"),
    };
    let again = vec![
        t.accounts.maker.duplicate(),
        t.accounts.escrow.duplicate(),
        t.accounts.mint_a.duplicate(),
        t.accounts.vault.duplicate(),
        t.accounts.maker_ata_a.duplicate(),
        flow_vacant(system_program_id(), false, 1),
        flow_account(token_program_id(), system_program_id(), false, 1, Vec::new()),
        flow_vacant([9u8; 32], false, 0),
    ];
    let r = process_instruction(&[2u8], again, RECORD_RENT, ATA_RENT);
    assert!(matches!(r, Err(EscrowError::InvalidAccountOwner)));
}

#[test]
fn refund_by_stranger_fails() {
    let maker = [1u8; 32];
    let stranger = [7u8; 32];
    let mint_a = [10u8; 32];
    let m = flow_run_make(maker, mint_a, [11u8; 32]);
    let token_prog = token_program_id();
    let (stranger_ata_a, _) = find_associated_address(&stranger, &token_prog, &mint_a).unwrap();
    let accounts = vec![
        flow_vacant(stranger, true, 5_000_000),
        m.accounts.escrow.duplicate(),
        m.accounts.mint_a.duplicate(),
        m.accounts.vault.duplicate(),
        flow_vacant(stranger_ata_a, false, 0),
        flow_vacant(system_program_id(), false, 1),
        flow_account(token_prog, system_program_id(), false, 1, Vec::new()),
        flow_vacant([9u8; 32], false, 0),
    ];
    let r = process_instruction(&[2u8], accounts, RECORD_RENT, ATA_RENT);
    assert!(matches!(r, Err(EscrowError::InvalidAccountData)));
}

#[test]
fn take_insufficient_counter_asset_fails() {
    let maker = [1u8; 32];
    let taker = [2u8; 32];
    let m = flow_run_make(maker, [10u8; 32], [11u8; 32]);
    // The taker holds only 999 of B against an ask of 1000.
    let accounts = flow_take_accounts(&m, taker, 999);
    let r = process_instruction(&[1u8], accounts, RECORD_RENT, ATA_RENT);
    assert!(matches!(r, Err(EscrowError::InsufficientFunds)));
}

#[test]
fn take_overflowing_holding_fails() {
    let maker = [1u8; 32];
    let taker = [2u8; 32];
    let m = flow_run_make(maker, [10u8; 32], [11u8; 32]);
    let mut accounts = flow_take_accounts(&m, taker, 1500);
    // An existing taker holding of A so full that the vault's 500 cannot fit.
    let mint_a = m.accounts.mint_a.address;
    let taker_ata_a_addr = accounts[6].address;
    accounts[6] = flow_account(
        taker_ata_a_addr,
        token_program_id(),
        false,
        ATA_RENT,
        flow_token_data(mint_a, taker, u64::MAX - 100),
    );
    let r = process_instruction(&[1u8], accounts, RECORD_RENT, ATA_RENT);
    assert!(matches!(r, Err(EscrowError::ArithmeticOverflow)));
}
