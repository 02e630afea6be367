use blueshift_escrow::account::Account;
use blueshift_escrow::addr::{system_program_id, token_program_id};
use blueshift_escrow::errors::EscrowError;
use blueshift_escrow::make::MakeInstructionData;
use blueshift_escrow::pda::{find_associated_address, find_escrow_address};
use blueshift_escrow::process_instruction;

fn dec_payload(seed: u64, receive: u64, amount: u64) -> Vec<u8> {
    let mut d = Vec::new();
    d.extend_from_slice(&seed.to_le_bytes());
    d.extend_from_slice(&receive.to_le_bytes());
    d.extend_from_slice(&amount.to_le_bytes());
    d
}

#[test]
fn make_payload_parses_exactly() {
    let d = dec_payload(42, 1000, 500);
    let parsed = MakeInstructionData::try_from(&d).unwrap();
    assert_eq!(parsed.seed, 42);
    assert_eq!(parsed.receive, 1000);
    assert_eq!(parsed.amount, 500);
}

#[test]
fn make_payload_rejects_bad_lengths_and_zeros() {
    assert!(matches!(
        MakeInstructionData::try_from(&[0u8; 23]),
        Err(EscrowError::InvalidInstructionData)
    ));
    assert!(matches!(
        MakeInstructionData::try_from(&[0u8; 25]),
        Err(EscrowError::InvalidInstructionData)
    ));
    assert!(matches!(
        MakeInstructionData::try_from(&dec_payload(42, 1000, 0)),
        Err(EscrowError::InvalidInstructionData)
    ));
    assert!(matches!(
        MakeInstructionData::try_from(&dec_payload(42, 0, 500)),
        Err(EscrowError::InvalidInstructionData)
    ));
}

#[test]
fn dispatcher_rejects_unknown_discriminators() {
    let r = process_instruction(&[], Vec::new(), 0, 0);
    assert!(matches!(r, Err(EscrowError::InvalidInstructionData)));
    let r = process_instruction(&[3u8], Vec::new(), 0, 0);
    assert!(matches!(r, Err(EscrowError::InvalidInstructionData)));
    let r = process_instruction(&[255u8, 0, 0], Vec::new(), 0, 0);
    assert!(matches!(r, Err(EscrowError::InvalidInstructionData)));
}

#[test]
fn dispatcher_demands_the_full_account_list() {
    let mut payload = vec![0u8];
    payload.extend_from_slice(&dec_payload(42, 1000, 500));
    let r = process_instruction(&payload, Vec::new(), 0, 0);
    assert!(matches!(r, Err(EscrowError::NotEnoughAccountKeys)));
    let r = process_instruction(&[1u8], Vec::new(), 0, 0);
    assert!(matches!(r, Err(EscrowError::NotEnoughAccountKeys)));
    let r = process_instruction(&[2u8], Vec::new(), 0, 0);
    assert!(matches!(r, Err(EscrowError::NotEnoughAccountKeys)));
}

fn dec_account(address: [u8; 32], owner: [u8; 32], is_signer: bool, lamports: u64, data: Vec<u8>) -> Account {
    Account { address, owner, is_signer, lamports, data }
}

fn dec_make_accounts(maker_signs: bool, mint_owner: [u8; 32]) -> Vec<Account> {
    let maker = [1u8; 32];
    let mint_a = [10u8; 32];
    let mint_b = [11u8; 32];
    let token_prog = token_program_id();
    let (escrow_addr, _) = find_escrow_address(&maker, 42).unwrap();
    let (maker_ata_a_addr, _) = find_associated_address(&maker, &token_prog, &mint_a).unwrap();
    let (vault_addr, _) = find_associated_address(&escrow_addr, &token_prog, &mint_a).unwrap();
    let mut token_data = Vec::new();
    token_data.extend_from_slice(&mint_a);
    token_data.extend_from_slice(&maker);
    token_data.extend_from_slice(&700u64.to_le_bytes());
    token_data.extend_from_slice(&[0u8; 93]);
    vec![
        dec_account(maker, system_program_id(), maker_signs, 10_000_000, Vec::new()),
        dec_account(escrow_addr, system_program_id(), false, 0, Vec::new()),
        dec_account(mint_a, mint_owner, false, 1, vec![0u8; 82]),
        dec_account(mint_b, token_program_id(), false, 1, vec![0u8; 82]),
        dec_account(maker_ata_a_addr, token_program_id(), false, 1, token_data),
        dec_account(vault_addr, system_program_id(), false, 0, Vec::new()),
        dec_account(system_program_id(), system_program_id(), false, 1, Vec::new()),
        dec_account(token_prog, system_program_id(), false, 1, Vec::new()),
        dec_account([9u8; 32], system_program_id(), false, 0, Vec::new()),
    ]
}

#[test]
fn make_demands_the_signature() {
    let accounts = dec_make_accounts(false, token_program_id());
    let mut payload = vec![0u8];
    payload.extend_from_slice(&dec_payload(42, 1000, 500));
    let r = process_instruction(&payload, accounts, 2_000_000, 1_000_000);
    assert!(matches!(r, Err(EscrowError::MissingRequiredSignature)));
}

#[test]
fn make_demands_ledger_owned_mints() {
    let accounts = dec_make_accounts(true, system_program_id());
    let mut payload = vec![0u8];
    payload.extend_from_slice(&dec_payload(42, 1000, 500));
    let r = process_instruction(&payload, accounts, 2_000_000, 1_000_000);
    assert!(matches!(r, Err(EscrowError::InvalidAccountOwner)));
}

#[test]
fn make_demands_the_derived_holding_account() {
    let mut accounts = dec_make_accounts(true, token_program_id());
    accounts[4].address = [77u8; 32];
    let mut payload = vec![0u8];
    payload.extend_from_slice(&dec_payload(42, 1000, 500));
    let r = process_instruction(&payload, accounts, 2_000_000, 1_000_000);
    assert!(matches!(r, Err(EscrowError::InvalidAccountData)));
}

#[test]
fn make_demands_the_derived_escrow_address() {
    let mut accounts = dec_make_accounts(true, token_program_id());
    accounts[1].address = [78u8; 32];
    let mut payload = vec![0u8];
    payload.extend_from_slice(&dec_payload(42, 1000, 500));
    let r = process_instruction(&payload, accounts, 2_000_000, 1_000_000);
    assert!(matches!(r, Err(EscrowError::InvalidSeeds)));
}

#[test]
fn make_demands_a_fresh_escrow_account() {
    let mut accounts = dec_make_accounts(true, token_program_id());
    accounts[1].lamports = 5;
    let mut payload = vec![0u8];
    payload.extend_from_slice(&dec_payload(42, 1000, 500));
    let r = process_instruction(&payload, accounts, 2_000_000, 1_000_000);
    assert!(matches!(r, Err(EscrowError::AccountAlreadyInitialized)));
}

#[test]
fn make_demands_an_affordable_deposit() {
    let accounts = dec_make_accounts(true, token_program_id());
    let mut payload = vec![0u8];
    payload.extend_from_slice(&dec_payload(42, 1000, 701));
    let r = process_instruction(&payload, accounts, 2_000_000, 1_000_000);
    assert!(matches!(r, Err(EscrowError::InsufficientFunds)));
}
