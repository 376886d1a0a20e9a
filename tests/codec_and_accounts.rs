use amm_core::state::CONFIG_LEN;
use amm_core::token::{mint_supply, token_balance};
use amm_core::{
    check_pda_and_get_bump, check_pda_with_bump, perform_basic_checks, unpack_instruction, Address,
    AmmError, AmmInstructions, Config, Deposit, DepositUser, Initialize, Instruction, LedgerAction,
    PoolKeys, Swap, SwapUser,
};
use solana_program::program_option::COption;
use solana_program::program_pack::Pack;
use solana_program::pubkey::Pubkey;
use spl_token::state::{Account, AccountState, Mint};

fn program() -> Address {
    Address::new([42u8; 32])
}

fn pk(a: &Address) -> Pubkey {
    Pubkey::new_from_array(a.bytes)
}

fn addr(k: &Pubkey) -> Address {
    Address::new(k.to_bytes())
}

struct Fixture {
    keys: PoolKeys,
    config_bump: u8,
    lp_bump: u8,
    x_bump: u8,
    y_bump: u8,
}

fn fixture(seed: u64) -> Fixture {
    let program_id = pk(&program());
    let mint_x = Pubkey::new_from_array([1u8; 32]);
    let mint_y = Pubkey::new_from_array([2u8; 32]);
    let seed_bytes = seed.to_le_bytes();
    let (config, config_bump) = Pubkey::find_program_address(&[b"config", &seed_bytes], &program_id);
    let (mint_lp, lp_bump) = Pubkey::find_program_address(&[config.as_ref()], &program_id);
    let (vault_x, x_bump) = Pubkey::find_program_address(&[mint_x.as_ref(), config.as_ref()], &program_id);
    let (vault_y, y_bump) = Pubkey::find_program_address(&[mint_y.as_ref(), config.as_ref()], &program_id);
    Fixture {
        keys: PoolKeys {
            config: addr(&config),
            mint_x: addr(&mint_x),
            mint_y: addr(&mint_y),
            mint_lp: addr(&mint_lp),
            vault_x: addr(&vault_x),
            vault_y: addr(&vault_y),
        },
        config_bump,
        lp_bump,
        x_bump,
        y_bump,
    }
}

fn initialize_args(seed: u64, fee_bps: u16) -> Initialize {
    Initialize { seed, fee_bps, authority: Address::new([9u8; 32]) }
}

fn token_account_data(mint: &Address, owner: &Address, amount: u64) -> Vec<u8> {
    let account = Account {
        mint: pk(mint),
        owner: pk(owner),
        amount,
        delegate: COption::None,
        state: AccountState::Initialized,
        is_native: COption::None,
        delegated_amount: 0,
        close_authority: COption::None,
    };
    let mut data = vec![0u8; Account::LEN];
    Account::pack(account, &mut data).unwrap();
    data
}

fn mint_data(supply: u64, decimals: u8) -> Vec<u8> {
    let mint = Mint {
        mint_authority: COption::None,
        supply,
        decimals,
        is_initialized: true,
        freeze_authority: COption::None,
    };
    let mut data = vec![0u8; Mint::LEN];
    Mint::pack(mint, &mut data).unwrap();
    data
}

#[test]
fn tags_decode_to_operations() {
    assert_eq!(AmmInstructions::try_from(0), Ok(AmmInstructions::Initialize));
    assert_eq!(AmmInstructions::try_from(1), Ok(AmmInstructions::Deposit));
    assert_eq!(AmmInstructions::try_from(3), Ok(AmmInstructions::Swap));
    assert_eq!(AmmInstructions::try_from(2), Err(AmmError::InvalidInstruction));
    assert_eq!(AmmInstructions::try_from(255), Err(AmmError::InvalidInstruction));
    assert_eq!(AmmInstructions::Swap.tag(), 3);
}

#[test]
fn empty_and_unknown_instructions_are_rejected() {
    assert!(matches!(unpack_instruction(&[]), Err(AmmError::InvalidInstruction)));
    assert!(matches!(unpack_instruction(&[2, 0, 0]), Err(AmmError::InvalidInstruction)));
}

#[test]
fn malformed_payload_is_rejected_the_same_way_twice() {
    let data = [1u8, 5, 0, 0];
    assert!(matches!(unpack_instruction(&data), Err(AmmError::InvalidPayload)));
    assert!(matches!(unpack_instruction(&data), Err(AmmError::InvalidPayload)));
}

#[test]
fn deposit_payload_layout() {
    let d = Deposit { amount_x: 100, amount_y: 400, min_lp: 7 };
    let bytes = d.pack();
    assert_eq!(bytes.len(), 24);
    assert_eq!(&bytes[0..8], &100u64.to_le_bytes());
    assert_eq!(&bytes[16..24], &7u64.to_le_bytes());
    assert_eq!(Deposit::try_from(&bytes), Ok(d));
    assert_eq!(Deposit::try_from(&bytes[..23]), Err(AmmError::InvalidPayload));
}

#[test]
fn swap_payload_layout() {
    let s = Swap { amount_in: 100, min_amount_out: 90, x_to_y: true, expiration: Some(-5) };
    let bytes = s.pack();
    assert_eq!(bytes.len(), 26);
    assert_eq!(bytes[16], 1);
    assert_eq!(bytes[17], 1);
    assert_eq!(&bytes[18..26], &(-5i64).to_le_bytes());
    assert_eq!(Swap::try_from(&bytes), Ok(s));
    let unset = Swap { amount_in: 1, min_amount_out: 0, x_to_y: false, expiration: None };
    assert_eq!(Swap::try_from(&unset.pack()), Ok(unset));
}

#[test]
fn swap_payload_with_bad_flags_is_rejected() {
    let s = Swap { amount_in: 100, min_amount_out: 90, x_to_y: true, expiration: None };
    let mut bytes = s.pack();
    bytes[16] = 2;
    assert_eq!(Swap::try_from(&bytes), Err(AmmError::InvalidPayload));
    let mut bytes = s.pack();
    bytes[20] = 1;
    assert_eq!(Swap::try_from(&bytes), Err(AmmError::InvalidPayload));
}

#[test]
fn instructions_round_trip() {
    let all = [
        Instruction::Initialize(initialize_args(77, 30)),
        Instruction::Deposit(Deposit { amount_x: u64::MAX, amount_y: 0, min_lp: 1 }),
        Instruction::Swap(Swap { amount_in: 5, min_amount_out: 4, x_to_y: false, expiration: Some(i64::MIN) }),
    ];
    for ix in all {
        let bytes = ix.pack();
        match (ix, unpack_instruction(&bytes).unwrap()) {
            (Instruction::Initialize(a), Instruction::Initialize(b)) => {
                assert_eq!(bytes[0], 0);
                assert_eq!(bytes.len(), 43);
                assert_eq!((a.seed, a.fee_bps, a.authority), (b.seed, b.fee_bps, b.authority));
            }
            (Instruction::Deposit(a), Instruction::Deposit(b)) => assert_eq!(a, b),
            (Instruction::Swap(a), Instruction::Swap(b)) => assert_eq!(a, b),
            _ => panic!("operation changed in a round trip"),
        }
    }
}

#[test]
fn config_record_round_trip() {
    let f = fixture(3);
    let c = Config::initialize(&program(), &initialize_args(3, 25), &f.keys).unwrap();
    let bytes = c.to_bytes();
    assert_eq!(bytes.len(), CONFIG_LEN);
    assert_eq!(&bytes[0..8], &3u64.to_le_bytes());
    assert_eq!(&bytes[104..106], &25u16.to_le_bytes());
    let d = Config::try_from(&bytes).unwrap();
    assert_eq!(d.seed, 3);
    assert_eq!(d.fee_bps, 25);
    assert!(!d.locked);
    assert_eq!(d.mint_x, f.keys.mint_x);
    assert_eq!(d.authority, Address::new([9u8; 32]));
    assert_eq!((d.config_bump, d.lp_bump, d.x_bump, d.y_bump), (f.config_bump, f.lp_bump, f.x_bump, f.y_bump));
}

#[test]
fn corrupt_config_record_is_rejected() {
    let f = fixture(3);
    let c = Config::initialize(&program(), &initialize_args(3, 25), &f.keys).unwrap();
    let mut bytes = c.to_bytes();
    bytes[106] = 2;
    assert!(matches!(Config::try_from(&bytes), Err(AmmError::InvalidAccountData)));
    assert!(matches!(Config::try_from(&bytes[..100]), Err(AmmError::InvalidAccountData)));
}

#[test]
fn initialize_fee_bounds() {
    let f = fixture(11);
    assert!(matches!(
        Config::initialize(&program(), &initialize_args(11, 10000), &f.keys),
        Err(AmmError::InvalidFee)
    ));
    let c = Config::initialize(&program(), &initialize_args(11, 9999), &f.keys).unwrap();
    assert_eq!(c.fee_bps, 9999);
    assert!(!c.locked);
}

#[test]
fn initialize_rejects_a_foreign_vault() {
    let mut f = fixture(11);
    f.keys.vault_x = Address::new([5u8; 32]);
    assert!(matches!(
        Config::initialize(&program(), &initialize_args(11, 30), &f.keys),
        Err(AmmError::InvalidDerivedAddress)
    ));
}

#[test]
fn derived_address_checks() {
    let f = fixture(1);
    let seeds = vec![b"config".to_vec(), 1u64.to_le_bytes().to_vec()];
    assert_eq!(check_pda_and_get_bump(&seeds, &program(), &f.keys.config), Ok(f.config_bump));
    assert_eq!(check_pda_and_get_bump(&seeds, &program(), &f.keys.vault_x), Err(AmmError::InvalidDerivedAddress));
    let mut with_bump = seeds.clone();
    with_bump.push(vec![f.config_bump]);
    assert_eq!(check_pda_with_bump(&with_bump, &program(), &f.keys.config), Ok(()));
    assert_eq!(check_pda_with_bump(&with_bump, &program(), &f.keys.mint_lp), Err(AmmError::InvalidDerivedAddress));
    let too_long = vec![vec![0u8; 33]];
    assert_eq!(check_pda_and_get_bump(&too_long, &program(), &f.keys.config), Err(AmmError::InvalidDerivedAddress));
}

#[test]
fn token_records_are_read() {
    let owner = Address::new([3u8; 32]);
    let data = token_account_data(&Address::new([1u8; 32]), &owner, 123456);
    assert_eq!(token_balance(&data), Ok(123456));
    assert_eq!(token_balance(&data[..100]), Err(AmmError::InvalidAccountData));
    assert_eq!(token_balance(&vec![0u8; 165]), Err(AmmError::InvalidAccountData));
    assert_eq!(mint_supply(&mint_data(5000, 6)), Ok((5000, 6)));
    assert_eq!(mint_supply(&vec![0u8; 82]), Err(AmmError::InvalidAccountData));
}

fn ready_pool(seed: u64, locked: bool) -> (Fixture, Config) {
    let f = fixture(seed);
    let mut c = Config::initialize(&program(), &initialize_args(seed, 30), &f.keys).unwrap();
    c.locked = locked;
    (f, c)
}

fn depositor() -> DepositUser {
    DepositUser {
        user: Address::new([20u8; 32]),
        user_x: Address::new([21u8; 32]),
        user_y: Address::new([22u8; 32]),
        user_lp: Address::new([23u8; 32]),
    }
}

fn trader() -> SwapUser {
    SwapUser { user: Address::new([30u8; 32]), user_x: Address::new([31u8; 32]), user_y: Address::new([32u8; 32]) }
}

#[test]
fn add_liquidity_plans_transfers_then_mint() {
    let (f, c) = ready_pool(5, false);
    let vx = token_account_data(&f.keys.mint_x, &f.keys.config, 0);
    let vy = token_account_data(&f.keys.mint_y, &f.keys.config, 0);
    let args = Deposit { amount_x: 100, amount_y: 400, min_lp: 200 };
    let actions = c
        .add_liquidity(&program(), &program(), &f.keys, &depositor(), &vx, &vy, &mint_data(0, 6), &mint_data(0, 9), &mint_data(0, 0), &args)
        .unwrap();
    assert_eq!(actions.len(), 3);
    match actions[0] {
        LedgerAction::Transfer { source, destination, amount, decimals, authority, .. } => {
            assert_eq!(source, depositor().user_x);
            assert_eq!(destination, f.keys.vault_x);
            assert_eq!(authority, depositor().user);
            assert_eq!((amount, decimals), (100, 6));
        }
        _ => panic!("first action is not a transfer"),
    }
    match actions[1] {
        LedgerAction::Transfer { destination, amount, decimals, .. } => {
            assert_eq!(destination, f.keys.vault_y);
            assert_eq!((amount, decimals), (400, 9));
        }
        _ => panic!("second action is not a transfer"),
    }
    match actions[2] {
        LedgerAction::MintTo { mint, destination, authority, amount, .. } => {
            assert_eq!(mint, f.keys.mint_lp);
            assert_eq!(destination, depositor().user_lp);
            assert_eq!(authority, f.keys.config);
            assert_eq!(amount, 200);
        }
        _ => panic!("third action is not a mint"),
    }
}

#[test]
fn add_liquidity_on_locked_pool_plans_nothing() {
    let (f, c) = ready_pool(5, true);
    let vx = token_account_data(&f.keys.mint_x, &f.keys.config, 10);
    let vy = token_account_data(&f.keys.mint_y, &f.keys.config, 10);
    let args = Deposit { amount_x: 100, amount_y: 400, min_lp: 0 };
    let r = c.add_liquidity(&program(), &program(), &f.keys, &depositor(), &vx, &vy, &mint_data(0, 6), &mint_data(0, 6), &mint_data(10, 0), &args);
    assert!(matches!(r, Err(AmmError::PoolLocked)));
}

#[test]
fn swap_plans_input_then_output() {
    let (f, c) = ready_pool(6, false);
    let vx = token_account_data(&f.keys.mint_x, &f.keys.config, 1000);
    let vy = token_account_data(&f.keys.mint_y, &f.keys.config, 1000);
    let args = Swap { amount_in: 100, min_amount_out: 90, x_to_y: true, expiration: Some(50) };
    let actions = c
        .perform_swap(&program(), &program(), &f.keys, &trader(), &vx, &vy, &mint_data(0, 6), &mint_data(0, 9), &args, 50)
        .unwrap();
    assert_eq!(actions.len(), 2);
    match (actions[0], actions[1]) {
        (
            LedgerAction::Transfer { source: s0, destination: d0, amount: a0, authority: u0, .. },
            LedgerAction::Transfer { source: s1, destination: d1, amount: a1, authority: u1, decimals, .. },
        ) => {
            assert_eq!((s0, d0, a0, u0), (trader().user_x, f.keys.vault_x, 100, trader().user));
            assert_eq!((s1, d1, a1, u1, decimals), (f.keys.vault_y, trader().user_y, 90, f.keys.config, 9));
        }
        _ => panic!("a swap moves tokens twice"),
    }
}

#[test]
fn swap_with_high_minimum_is_rejected() {
    let (f, c) = ready_pool(6, false);
    let vx = token_account_data(&f.keys.mint_x, &f.keys.config, 1000);
    let vy = token_account_data(&f.keys.mint_y, &f.keys.config, 1000);
    let args = Swap { amount_in: 100, min_amount_out: 95, x_to_y: true, expiration: None };
    let r = c.perform_swap(&program(), &program(), &f.keys, &trader(), &vx, &vy, &mint_data(0, 6), &mint_data(0, 6), &args, 0);
    assert!(matches!(r, Err(AmmError::SlippageExceeded)));
}

#[test]
fn expired_swap_is_rejected() {
    let (f, c) = ready_pool(6, false);
    let vx = token_account_data(&f.keys.mint_x, &f.keys.config, 1000);
    let vy = token_account_data(&f.keys.mint_y, &f.keys.config, 1000);
    let args = Swap { amount_in: 100, min_amount_out: 0, x_to_y: false, expiration: Some(49) };
    let r = c.perform_swap(&program(), &program(), &f.keys, &trader(), &vx, &vy, &mint_data(0, 6), &mint_data(0, 6), &args, 50);
    assert!(matches!(r, Err(AmmError::InstructionExpired)));
}

#[test]
fn locked_swap_is_rejected() {
    let (f, c) = ready_pool(6, true);
    let vx = token_account_data(&f.keys.mint_x, &f.keys.config, 1000);
    let vy = token_account_data(&f.keys.mint_y, &f.keys.config, 1000);
    let args = Swap { amount_in: 100, min_amount_out: 0, x_to_y: true, expiration: None };
    let r = c.perform_swap(&program(), &program(), &f.keys, &trader(), &vx, &vy, &mint_data(0, 6), &mint_data(0, 6), &args, 0);
    assert!(matches!(r, Err(AmmError::PoolLocked)));
}

#[test]
fn basic_checks_reject_wrong_owner_mint_and_vault() {
    let (f, c) = ready_pool(8, false);
    assert_eq!(perform_basic_checks(&c, &program(), &program(), &f.keys), Ok(()));
    assert_eq!(
        perform_basic_checks(&c, &program(), &Address::new([1u8; 32]), &f.keys),
        Err(AmmError::IncorrectOwner)
    );
    let mut other_mint = f.keys;
    other_mint.mint_y = Address::new([77u8; 32]);
    assert_eq!(perform_basic_checks(&c, &program(), &program(), &other_mint), Err(AmmError::InvalidMint));
    let mut swapped_vaults = f.keys;
    swapped_vaults.vault_x = f.keys.vault_y;
    assert_eq!(
        perform_basic_checks(&c, &program(), &program(), &swapped_vaults),
        Err(AmmError::InvalidDerivedAddress)
    );
    let mut bad_bump = c;
    bad_bump.x_bump = bad_bump.x_bump.wrapping_sub(1);
    assert_eq!(
        perform_basic_checks(&bad_bump, &program(), &program(), &f.keys),
        Err(AmmError::InvalidDerivedAddress)
    );
}

#[test]
fn unreadable_vault_is_rejected() {
    let (f, c) = ready_pool(9, false);
    let vy = token_account_data(&f.keys.mint_y, &f.keys.config, 1000);
    let args = Swap { amount_in: 1, min_amount_out: 0, x_to_y: true, expiration: None };
    let r = c.perform_swap(&program(), &program(), &f.keys, &trader(), &[0u8; 10], &vy, &mint_data(0, 6), &mint_data(0, 6), &args, 0);
    assert!(matches!(r, Err(AmmError::InvalidAccountData)));
}
