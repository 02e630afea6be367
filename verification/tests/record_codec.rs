use blueshift_escrow::errors::EscrowError;
use blueshift_escrow::state::{Escrow, RECORD_LEN};

#[test]
fn record_round_trip() {
    let record = Escrow {
        seed: 0x0102030405060708,
        maker: [3u8; 32],
        mint_a: [4u8; 32],
        mint_b: [5u8; 32],
        receive: 0x0908070605040302,
        bump: 254,
    };
    let mut buf = vec![0u8; RECORD_LEN];
    record.store(&mut buf).unwrap();
    assert_eq!(buf.len(), RECORD_LEN);
    let back = Escrow::load(&buf).unwrap();
    assert_eq!(back.seed, 0x0102030405060708);
    assert_eq!(back.maker, [3u8; 32]);
    assert_eq!(back.mint_a, [4u8; 32]);
    assert_eq!(back.mint_b, [5u8; 32]);
    assert_eq!(back.receive, 0x0908070605040302);
    assert_eq!(back.bump, 254);
}

#[test]
fn record_layout_is_byte_exact() {
    let record = Escrow {
        seed: 42,
        maker: [1u8; 32],
        mint_a: [2u8; 32],
        mint_b: [3u8; 32],
        receive: 1000,
        bump: 7,
    };
    let mut buf = vec![0u8; RECORD_LEN];
    record.store(&mut buf).unwrap();
    assert_eq!(&buf[0..8], &42u64.to_le_bytes());
    assert_eq!(&buf[8..40], &[1u8; 32]);
    assert_eq!(&buf[40..72], &[2u8; 32]);
    assert_eq!(&buf[72..104], &[3u8; 32]);
    assert_eq!(&buf[104..112], &1000u64.to_le_bytes());
    assert_eq!(buf[112], 7);
}

#[test]
fn record_store_rejects_wrong_sized_buffers() {
    let record = Escrow {
        seed: 1,
        maker: [0u8; 32],
        mint_a: [0u8; 32],
        mint_b: [0u8; 32],
        receive: 1,
        bump: 0,
    };
    let mut short = vec![0u8; 112];
    assert!(matches!(record.store(&mut short), Err(EscrowError::InvalidAccountData)));
    assert_eq!(short.len(), 112);
}

#[test]
fn record_rejects_partial_buffers() {
    assert!(matches!(Escrow::load(&vec![0u8; 112]), Err(EscrowError::InvalidAccountData)));
    assert!(matches!(Escrow::load(&vec![0u8; 114]), Err(EscrowError::InvalidAccountData)));
    assert!(matches!(Escrow::load(&Vec::new()), Err(EscrowError::InvalidAccountData)));
    assert!(Escrow::load(&vec![0u8; 113]).is_ok());
}

#[test]
fn record_setters_update_fields() {
    let mut record = Escrow {
        seed: 0,
        maker: [0u8; 32],
        mint_a: [0u8; 32],
        mint_b: [0u8; 32],
        receive: 0,
        bump: 0,
    };
    record.set_seed(9);
    record.set_maker([1u8; 32]);
    record.set_mint_a([2u8; 32]);
    record.set_mint_b([3u8; 32]);
    record.set_receive(77);
    record.set_bump(5);
    assert_eq!(record.seed, 9);
    assert_eq!(record.receive, 77);
    assert_eq!(record.bump, 5);
    let mut other = Escrow {
        seed: 0,
        maker: [0u8; 32],
        mint_a: [0u8; 32],
        mint_b: [0u8; 32],
        receive: 0,
        bump: 0,
    };
    other.set_inner(9, [1u8; 32], [2u8; 32], [3u8; 32], 77, 5);
    assert_eq!(other.maker, record.maker);
    assert_eq!(other.mint_b, record.mint_b);
    assert_eq!(other.receive, record.receive);
}
