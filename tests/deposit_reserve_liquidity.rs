use poc_program::error::{PoCError, ProcessError};
use poc_program::instruction::PoCInstruction;
use poc_program::key::{AccountView, Key};
use poc_program::processor::{process_deposit_reserve_liquidity, process_instruction};
use solana_program::program_error::ProgramError;
use solana_program::program_pack::Pack;
use solana_program::pubkey::Pubkey;
use spl_token_lending::state::{LendingMarket, Reserve, PROGRAM_VERSION};
use std::str::FromStr;

const FRACTIONAL_TO_USDC: u64 = 1_000_000;

fn key(n: u8) -> Key {
    Key::new([n; 32])
}

fn lending_id() -> Key {
    Key::new(spl_token_lending::id().to_bytes())
}

fn market_data(version: u8) -> Vec<u8> {
    let market = LendingMarket { version, ..LendingMarket::default() };
    let mut buf = vec![0u8; LendingMarket::LEN];
    LendingMarket::pack(market, &mut buf).unwrap();
    buf
}

fn reserve_data(lending_market: &Key) -> Vec<u8> {
    let reserve = Reserve {
        version: PROGRAM_VERSION,
        lending_market: Pubkey::new_from_array(lending_market.bytes),
        ..Reserve::default()
    };
    let mut buf = vec![0u8; Reserve::LEN];
    Reserve::pack(reserve, &mut buf).unwrap();
    buf
}

fn plain(n: u8) -> AccountView {
    AccountView { key: key(n), owner: key(200), data: vec![] }
}

/// Accounts 0 to 6 have keys 1 to 7; the market is key 6, the reserve key 3.
fn valid_accounts() -> Vec<AccountView> {
    let market = key(6);
    vec![
        plain(1),
        plain(2),
        AccountView { key: key(3), owner: lending_id(), data: reserve_data(&market) },
        plain(4),
        plain(5),
        AccountView { key: market, owner: lending_id(), data: market_data(PROGRAM_VERSION) },
        plain(7),
        AccountView { key: lending_id(), owner: key(201), data: vec![] },
    ]
}

fn deposit_data(amount: u64) -> Vec<u8> {
    PoCInstruction::DepositReserveLiquidity { liquidity_amount: amount }.pack()
}

#[test]
fn test_success() {
    let liquidity_amount = 100 * FRACTIONAL_TO_USDC;
    let r = process_instruction(&deposit_data(liquidity_amount), &valid_accounts());
    let call = match r {
        Ok(call) => call,
        Err(e) => panic!("deposit refused: {:?}", e),
    };
    assert_eq!(call.program_id.bytes, spl_token_lending::id().to_bytes());
    let mut data = vec![4u8];
    data.extend_from_slice(&liquidity_amount.to_le_bytes());
    assert_eq!(call.data, data);
    assert_eq!(call.accounts.len(), 10);
    for i in 0..5usize {
        assert_eq!(call.accounts[i].key.bytes, [(i + 1) as u8; 32]);
        assert!(call.accounts[i].is_writable && !call.accounts[i].is_signer);
    }
    assert_eq!(call.accounts[5].key.bytes, [6u8; 32]);
    assert!(!call.accounts[5].is_writable && !call.accounts[5].is_signer);
    let (authority, _) = Pubkey::find_program_address(&[&[6u8; 32]], &spl_token_lending::id());
    assert_eq!(call.accounts[6].key.bytes, authority.to_bytes());
    assert!(!call.accounts[6].is_writable && !call.accounts[6].is_signer);
    assert_eq!(call.accounts[7].key.bytes, [7u8; 32]);
    assert!(!call.accounts[7].is_writable && call.accounts[7].is_signer);
    assert_eq!(call.accounts[8].key.bytes, solana_program::sysvar::clock::id().to_bytes());
    assert_eq!(call.accounts[9].key.bytes, Pubkey::from_str("TokenkegQfeZyiNwAJbNbGKPFXCWuBvf9Ss623VQ5DA").unwrap().to_bytes());
}

#[test]
fn zero_amount_is_refused() {
    let r = process_instruction(&deposit_data(0), &valid_accounts());
    assert!(matches!(r, Err(ProcessError::Program(PoCError::InvalidAmount))));
    let r = process_deposit_reserve_liquidity(0, &vec![]);
    assert!(matches!(r, Err(ProcessError::Program(PoCError::InvalidAmount))));
}

#[test]
fn reserve_of_other_market_is_refused() {
    let mut accounts = valid_accounts();
    accounts[2].data = reserve_data(&key(60));
    let r = process_instruction(&deposit_data(100 * FRACTIONAL_TO_USDC), &accounts);
    assert!(matches!(r, Err(ProcessError::InvalidAccountInput)));
}

#[test]
fn market_not_owned_by_lending_program_is_refused() {
    let mut accounts = valid_accounts();
    accounts[5].owner = key(9);
    let r = process_deposit_reserve_liquidity(100, &accounts);
    assert!(matches!(r, Err(ProcessError::InvalidAccountOwner)));
}

#[test]
fn reserve_not_owned_by_lending_program_is_refused() {
    let mut accounts = valid_accounts();
    accounts[2].owner = key(9);
    let r = process_deposit_reserve_liquidity(100, &accounts);
    assert!(matches!(r, Err(ProcessError::InvalidAccountOwner)));
}

#[test]
fn malformed_market_data_is_refused() {
    let mut accounts = valid_accounts();
    accounts[5].data = vec![1u8; 10];
    let r = process_deposit_reserve_liquidity(100, &accounts);
    assert!(matches!(r, Err(ProcessError::AccountData(ProgramError::InvalidAccountData))));
}

#[test]
fn uninitialized_market_is_refused() {
    let mut accounts = valid_accounts();
    accounts[5].data = market_data(0);
    let r = process_deposit_reserve_liquidity(100, &accounts);
    assert!(matches!(r, Err(ProcessError::AccountData(ProgramError::UninitializedAccount))));
}

#[test]
fn malformed_reserve_data_is_refused() {
    let mut accounts = valid_accounts();
    accounts[2].data = market_data(PROGRAM_VERSION);
    let r = process_deposit_reserve_liquidity(100, &accounts);
    assert!(matches!(r, Err(ProcessError::AccountData(ProgramError::InvalidAccountData))));
}

#[test]
fn missing_accounts_are_refused() {
    let mut accounts = valid_accounts();
    accounts.pop();
    let r = process_deposit_reserve_liquidity(100, &accounts);
    assert!(matches!(r, Err(ProcessError::NotEnoughAccountKeys)));
}

#[test]
fn malformed_instruction_is_refused() {
    let r = process_instruction(&[1, 100, 0, 0, 0, 0, 0, 0, 0], &valid_accounts());
    assert!(matches!(r, Err(ProcessError::Program(PoCError::InvalidInstruction))));
    let r = process_instruction(&[0, 100], &valid_accounts());
    assert!(matches!(r, Err(ProcessError::Program(PoCError::InvalidInstruction))));
}
