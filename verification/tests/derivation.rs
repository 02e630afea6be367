use blueshift_escrow::addr::{ata_program_id, program_id, token_program_id};
use blueshift_escrow::pda::{derive_escrow_address, find_associated_address, find_escrow_address};

#[test]
fn program_identities_match_the_declared_ones() {
    assert_eq!(token_program_id(), pinocchio_token::ID.to_bytes());
    assert_eq!(ata_program_id(), pinocchio_associated_token_account::ID.to_bytes());
}

#[test]
fn escrow_address_round_trips_through_the_bump() {
    let maker = [1u8; 32];
    let (addr, bump) = find_escrow_address(&maker, 42).unwrap();
    let again = derive_escrow_address(&maker, 42, bump).unwrap();
    assert_eq!(addr, again);
    // A different nonce or maker lands somewhere else.
    let (other, _) = find_escrow_address(&maker, 43).unwrap();
    assert_ne!(addr, other);
    let (other_maker, _) = find_escrow_address(&[2u8; 32], 42).unwrap();
    assert_ne!(addr, other_maker);
}

#[test]
fn escrow_address_matches_direct_derivation() {
    let maker = [1u8; 32];
    let seed = 42u64.to_le_bytes();
    let pid = solana_address::Address::new_from_array(program_id());
    let (expected, expected_bump) = solana_address::Address::try_find_program_address(
        &[b"escrow", &maker, &seed],
        &pid,
    )
    .unwrap();
    let (addr, bump) = find_escrow_address(&maker, 42).unwrap();
    assert_eq!(addr, expected.to_bytes());
    assert_eq!(bump, expected_bump);
}

#[test]
fn associated_address_matches_direct_derivation() {
    let owner = [1u8; 32];
    let mint = [2u8; 32];
    let token_prog = token_program_id();
    let aid = solana_address::Address::new_from_array(ata_program_id());
    let (expected, expected_bump) = solana_address::Address::try_find_program_address(
        &[&owner, &token_prog, &mint],
        &aid,
    )
    .unwrap();
    let (addr, bump) = find_associated_address(&owner, &token_prog, &mint).unwrap();
    assert_eq!(addr, expected.to_bytes());
    assert_eq!(bump, expected_bump);
    // The derivation depends on every input.
    let (other, _) = find_associated_address(&owner, &token_prog, &[3u8; 32]).unwrap();
    assert_ne!(addr, other);
}
