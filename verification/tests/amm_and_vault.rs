use blueshift_escrow::account::Account;
use blueshift_escrow::addr::system_program_id;
use blueshift_escrow::amm::{
    deposit, initialize, swap, withdraw, AmmState, Config, DepositInstructionData,
    InitializeInstructionData, SwapInstructionData, WithdrawInstructionData, CONFIG_LEN,
};
use blueshift_escrow::errors::EscrowError;
use blueshift_escrow::vault::{VaultAction, VaultError};

fn av_account(address: [u8; 32], is_signer: bool, lamports: u64, data: Vec<u8>) -> Account {
    Account { address, owner: system_program_id(), is_signer, lamports, data }
}

fn av_config_bytes(state: u8) -> Vec<u8> {
    let config = Config {
        state,
        seed: 9,
        authority: [1u8; 32],
        mint_x: [2u8; 32],
        mint_y: [3u8; 32],
        fee: 30,
        config_bump: 250,
    };
    config.store()
}

#[test]
fn amm_state_codes() {
    assert_eq!(AmmState::Uninitialized.code(), 0);
    assert_eq!(AmmState::Initialized.code(), 1);
    assert_eq!(AmmState::Disabled.code(), 2);
    assert_eq!(AmmState::WithdrawOnly.code(), 3);
}

#[test]
fn config_round_trip_and_queries() {
    let bytes = av_config_bytes(1);
    assert_eq!(bytes.len(), CONFIG_LEN);
    let back = Config::load(&bytes).unwrap();
    assert_eq!(back.seed, 9);
    assert_eq!(back.authority, [1u8; 32]);
    assert_eq!(back.mint_x, [2u8; 32]);
    assert_eq!(back.mint_y, [3u8; 32]);
    assert_eq!(back.fee, 30);
    assert_eq!(back.config_bump, 250);
    assert!(back.is_initialized());
    assert!(back.can_withdraw());
    assert_eq!(back.mint_x_address(), [2u8; 32]);
    assert_eq!(back.mint_y_address(), [3u8; 32]);
    let wind_down = Config::load(&av_config_bytes(3)).unwrap();
    assert!(!wind_down.is_initialized());
    assert!(wind_down.can_withdraw());
    let off = Config::load(&av_config_bytes(2)).unwrap();
    assert!(!off.is_initialized());
    assert!(!off.can_withdraw());
    assert!(matches!(Config::load(&vec![0u8; 107]), Err(EscrowError::InvalidAccountData)));
}

#[test]
fn config_set_inner_marks_initialized() {
    let mut config = Config {
        state: 0,
        seed: 0,
        authority: [0u8; 32],
        mint_x: [0u8; 32],
        mint_y: [0u8; 32],
        fee: 0,
        config_bump: 0,
    };
    config.set_inner(9, &[1u8; 32], &[2u8; 32], &[3u8; 32], 30, 250);
    assert_eq!(config.state, 1);
    assert!(config.is_initialized());
}

fn av_deposit_payload(amount: u64, max_x: u64, max_y: u64) -> Vec<u8> {
    let mut d = Vec::new();
    d.extend_from_slice(&amount.to_le_bytes());
    d.extend_from_slice(&max_x.to_le_bytes());
    d.extend_from_slice(&max_y.to_le_bytes());
    d.extend_from_slice(&0i64.to_le_bytes());
    d
}

fn av_nine_accounts(config_state: u8) -> Vec<Account> {
    vec![
        av_account([1u8; 32], true, 1, Vec::new()),
        av_account([2u8; 32], false, 1, av_config_bytes(config_state)),
        av_account([3u8; 32], false, 1, Vec::new()),
        av_account([4u8; 32], false, 1, Vec::new()),
        av_account([5u8; 32], false, 1, Vec::new()),
        av_account([6u8; 32], false, 1, Vec::new()),
        av_account([7u8; 32], false, 1, Vec::new()),
        av_account([8u8; 32], false, 1, Vec::new()),
        av_account([9u8; 32], false, 1, Vec::new()),
    ]
}

#[test]
fn amm_deposit_plans_both_moves() {
    let accounts = av_nine_accounts(1);
    let plan = deposit(&[0u8; 32], &av_deposit_payload(10, 100, 200), &accounts).unwrap();
    assert_eq!(plan.user, [1u8; 32]);
    assert_eq!(plan.vault_x, [4u8; 32]);
    assert_eq!(plan.vault_y, [5u8; 32]);
    assert_eq!(plan.user_x, [6u8; 32]);
    assert_eq!(plan.user_y, [7u8; 32]);
    assert_eq!(plan.mint_lp, [3u8; 32]);
    assert_eq!(plan.user_lp, [8u8; 32]);
    assert_eq!(plan.max_x, 100);
    assert_eq!(plan.max_y, 200);
    assert_eq!(plan.lp_amount, 10);
    assert_eq!(plan.config.seed, 9);
}

#[test]
fn amm_deposit_demands_a_live_pool() {
    let accounts = av_nine_accounts(0);
    let r = deposit(&[0u8; 32], &av_deposit_payload(10, 100, 200), &accounts);
    assert!(matches!(r, Err(EscrowError::UninitializedAccount)));
    let r = deposit(&[0u8; 32], &av_deposit_payload(0, 100, 200), &av_nine_accounts(1));
    assert!(matches!(r, Err(EscrowError::InvalidInstructionData)));
    assert!(matches!(
        DepositInstructionData::try_from_bytes(&[0u8; 31]),
        Err(EscrowError::InvalidInstructionData)
    ));
}

#[test]
fn amm_swap_picks_the_direction() {
    let accounts = vec![
        av_account([1u8; 32], true, 1, Vec::new()),
        av_account([2u8; 32], false, 1, av_config_bytes(1)),
        av_account([3u8; 32], false, 1, Vec::new()),
        av_account([4u8; 32], false, 1, Vec::new()),
        av_account([5u8; 32], false, 1, Vec::new()),
        av_account([6u8; 32], false, 1, Vec::new()),
        av_account([7u8; 32], false, 1, Vec::new()),
    ];
    let mut payload = vec![1u8];
    payload.extend_from_slice(&50u64.to_le_bytes());
    payload.extend_from_slice(&40u64.to_le_bytes());
    payload.extend_from_slice(&0i64.to_le_bytes());
    let plan = swap(&[0u8; 32], &payload, &accounts).unwrap();
    assert_eq!(plan.in_from, [5u8; 32]);
    assert_eq!(plan.in_to, [3u8; 32]);
    assert_eq!(plan.in_amount, 50);
    assert_eq!(plan.out_from, [4u8; 32]);
    assert_eq!(plan.out_to, [6u8; 32]);
    assert_eq!(plan.out_amount, 40);
    let mut back = payload.clone();
    back[0] = 0;
    let plan = swap(&[0u8; 32], &back, &accounts).unwrap();
    assert_eq!(plan.in_from, [6u8; 32]);
    assert_eq!(plan.in_to, [4u8; 32]);
    assert_eq!(plan.out_from, [3u8; 32]);
    assert_eq!(plan.out_to, [5u8; 32]);
    assert!(matches!(
        SwapInstructionData::try_from_bytes(&[0u8; 24]),
        Err(EscrowError::InvalidInstructionData)
    ));
}

#[test]
fn amm_withdraw_allows_wind_down() {
    let mut payload = Vec::new();
    payload.extend_from_slice(&10u64.to_le_bytes());
    payload.extend_from_slice(&1u64.to_le_bytes());
    payload.extend_from_slice(&2u64.to_le_bytes());
    payload.extend_from_slice(&0i64.to_le_bytes());
    let plan = withdraw(&[0u8; 32], &payload, &av_nine_accounts(3)).unwrap();
    assert_eq!(plan.burn_amount, 10);
    assert_eq!(plan.out_x, 1);
    assert_eq!(plan.out_y, 2);
    let r = withdraw(&[0u8; 32], &payload, &av_nine_accounts(2));
    assert!(matches!(r, Err(EscrowError::InvalidAccountData)));
    assert!(matches!(
        WithdrawInstructionData::try_from_bytes(&av_deposit_payload(0, 1, 1)),
        Err(EscrowError::InvalidInstructionData)
    ));
}

#[test]
fn amm_initialize_lays_out_both_accounts() {
    let accounts = vec![
        av_account([1u8; 32], true, 1, Vec::new()),
        av_account([2u8; 32], false, 1, Vec::new()),
        av_account([3u8; 32], false, 1, Vec::new()),
        av_account([4u8; 32], false, 1, Vec::new()),
        av_account([5u8; 32], false, 1, Vec::new()),
    ];
    let mut payload = Vec::new();
    payload.extend_from_slice(&9u64.to_le_bytes());
    payload.extend_from_slice(&30u16.to_le_bytes());
    payload.extend_from_slice(&[7u8; 32]);
    payload.extend_from_slice(&[8u8; 32]);
    payload.push(250);
    payload.push(251);
    let plan = initialize(&[0u8; 32], &payload, &accounts).unwrap();
    assert_eq!(plan.config_lamports, 10_000_000);
    assert_eq!(plan.mint_lamports, 2_000_000);
    assert_eq!(plan.config_space, 108);
    assert_eq!(plan.mint_space, 82);
    let config = Config::load(&plan.config_data).unwrap();
    assert_eq!(config.state, 1);
    assert_eq!(config.seed, 9);
    assert_eq!(config.authority, [0u8; 32]);
    assert_eq!(config.mint_x, [7u8; 32]);
    assert_eq!(config.mint_y, [8u8; 32]);
    assert_eq!(config.fee, 30);
    assert_eq!(config.config_bump, 250);
    assert_eq!(plan.mint_lp_data.len(), 82);
    assert_eq!(plan.mint_lp_data[0], 1);
    assert_eq!(&plan.mint_lp_data[1..33], &[2u8; 32]);
    assert_eq!(&plan.mint_lp_data[33..41], &0u64.to_le_bytes());
    assert_eq!(plan.mint_lp_data[41], 6);
    assert_eq!(plan.mint_lp_data[42], 1);
    assert_eq!(plan.mint_lp_data[43], 0);
}

#[test]
fn amm_initialize_rejects_bad_inputs() {
    let accounts = vec![
        av_account([1u8; 32], true, 1, Vec::new()),
        av_account([2u8; 32], false, 1, Vec::new()),
        av_account([3u8; 32], false, 1, Vec::new()),
        av_account([4u8; 32], false, 1, Vec::new()),
        av_account([5u8; 32], false, 1, Vec::new()),
    ];
    // Equal asset types are refused.
    let mut payload = Vec::new();
    payload.extend_from_slice(&9u64.to_le_bytes());
    payload.extend_from_slice(&30u16.to_le_bytes());
    payload.extend_from_slice(&[7u8; 32]);
    payload.extend_from_slice(&[7u8; 32]);
    payload.push(250);
    payload.push(251);
    let r = initialize(&[0u8; 32], &payload, &accounts);
    assert!(matches!(r, Err(EscrowError::InvalidInstructionData)));
    // A fee above 100 percent is refused.
    let mut fee_payload = payload.clone();
    fee_payload[8..10].copy_from_slice(&10_001u16.to_le_bytes());
    let r = initialize(&[0u8; 32], &fee_payload, &accounts);
    assert!(matches!(r, Err(EscrowError::InvalidInstructionData)));
    assert!(matches!(
        InitializeInstructionData::try_from_bytes(&[0u8; 75]),
        Err(EscrowError::InvalidInstructionData)
    ));
}

#[test]
fn amm_initialize_reads_the_optional_authority() {
    let accounts = vec![
        av_account([1u8; 32], true, 1, Vec::new()),
        av_account([2u8; 32], false, 1, Vec::new()),
        av_account([3u8; 32], false, 1, Vec::new()),
        av_account([4u8; 32], false, 1, Vec::new()),
        av_account([5u8; 32], false, 1, Vec::new()),
    ];
    let mut payload = Vec::new();
    payload.extend_from_slice(&9u64.to_le_bytes());
    payload.extend_from_slice(&30u16.to_le_bytes());
    payload.extend_from_slice(&[7u8; 32]);
    payload.extend_from_slice(&[8u8; 32]);
    payload.push(250);
    payload.push(251);
    payload.extend_from_slice(&[6u8; 32]);
    let plan = initialize(&[0u8; 32], &payload, &accounts).unwrap();
    let config = Config::load(&plan.config_data).unwrap();
    assert_eq!(config.authority, [6u8; 32]);
}

#[test]
fn vault_deposit_and_withdraw() {
    let mut action = VaultAction {
        signer: av_account([1u8; 32], true, 5_000_000, Vec::new()),
        vault: av_account([2u8; 32], false, 0, Vec::new()),
        system_program: av_account([0u8; 32], false, 1, Vec::new()),
    };
    action.deposit(2_000_000, 890_880).unwrap();
    assert_eq!(action.signer.lamports, 3_000_000);
    assert_eq!(action.vault.lamports, 2_000_000);
    // A second deposit into a funded vault is refused.
    let r = action.deposit(1_000_000, 890_880);
    assert!(matches!(r, Err(VaultError::VaultAlreadyExists)));
    action.withdraw().unwrap();
    assert_eq!(action.signer.lamports, 5_000_000);
    assert_eq!(action.vault.lamports, 0);
    // Withdrawing from an empty vault is refused.
    let r = action.withdraw();
    assert!(matches!(r, Err(VaultError::InvalidAmount)));
}

#[test]
fn vault_deposit_demands_more_than_the_floor() {
    let mut action = VaultAction {
        signer: av_account([1u8; 32], true, 5_000_000, Vec::new()),
        vault: av_account([2u8; 32], false, 0, Vec::new()),
        system_program: av_account([0u8; 32], false, 1, Vec::new()),
    };
    let r = action.deposit(890_880, 890_880);
    assert!(matches!(r, Err(VaultError::InvalidAmount)));
    assert_eq!(action.vault.lamports, 0);
}
