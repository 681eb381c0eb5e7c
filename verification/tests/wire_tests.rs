//! Checks the built sub-program instructions byte for byte against the wire
//! formats of the system program and the asset sub-program.

use solana_program::pubkey::Pubkey;
use solana_program::system_program;
use solana_program::sysvar;
use token_market::{process_instruction, Address, MarketError, Plan};

fn addr(b: u8) -> Address {
    Address::from_bytes(vec![b; 32]).unwrap()
}

fn token_program_address() -> Address {
    Address::from_bytes(spl_token::id().to_bytes().to_vec()).unwrap()
}

fn pubkey(b: u8) -> Pubkey {
    Pubkey::new_from_array([b; 32])
}

fn buy_data(price: u64, amount: u64) -> Vec<u8> {
    let mut data = vec![2u8];
    data.extend_from_slice(&price.to_le_bytes());
    data.extend_from_slice(&amount.to_le_bytes());
    data
}

#[test]
fn purchase_builds_payment_then_asset_transfer() {
    let accounts = vec![
        addr(0x01), // buyer
        addr(0x02), // seller
        addr(0x03), // buyer asset account
        addr(0x04), // seller asset account
        addr(0x05), // asset mint
        token_program_address(),
    ];
    let data = buy_data(1_000_000, 50);
    let plan = process_instruction(&accounts, &data, 0).unwrap();
    let (pay, deliver) = match plan {
        Plan::BuyToken { pay, deliver } => (pay, deliver),
        _ => panic!("wrong plan"),
    };

    assert_eq!(pay.program_id, system_program::id());
    assert_eq!(pay.accounts.len(), 2);
    assert_eq!(pay.accounts[0].pubkey, pubkey(0x01));
    assert!(pay.accounts[0].is_signer);
    assert!(pay.accounts[0].is_writable);
    assert_eq!(pay.accounts[1].pubkey, pubkey(0x02));
    assert!(!pay.accounts[1].is_signer);
    assert!(pay.accounts[1].is_writable);
    let mut pay_data = 2u32.to_le_bytes().to_vec();
    pay_data.extend_from_slice(&1_000_000u64.to_le_bytes());
    assert_eq!(pay.data, pay_data);

    assert_eq!(deliver.program_id, spl_token::id());
    assert_eq!(deliver.accounts.len(), 3);
    assert_eq!(deliver.accounts[0].pubkey, pubkey(0x04));
    assert!(!deliver.accounts[0].is_signer);
    assert!(deliver.accounts[0].is_writable);
    assert_eq!(deliver.accounts[1].pubkey, pubkey(0x03));
    assert!(!deliver.accounts[1].is_signer);
    assert!(deliver.accounts[1].is_writable);
    assert_eq!(deliver.accounts[2].pubkey, pubkey(0x02));
    assert!(deliver.accounts[2].is_signer);
    assert!(!deliver.accounts[2].is_writable);
    let mut deliver_data = vec![3u8];
    deliver_data.extend_from_slice(&50u64.to_le_bytes());
    assert_eq!(deliver.data, deliver_data);
}

#[test]
fn purchase_rejects_wrong_token_program() {
    let accounts = vec![addr(1), addr(2), addr(3), addr(4), addr(5), addr(6)];
    let r = process_instruction(&accounts, &buy_data(10, 20), 0);
    assert!(matches!(r, Err(MarketError::IncorrectProgramId)));
}

#[test]
fn mint_creation_builds_allocation_then_initialization() {
    let accounts = vec![
        addr(0x0A), // payer
        addr(0x0B), // mint
        addr(0x0C), // mint authority
        token_program_address(),
        Address::from_bytes(sysvar::rent::id().to_bytes().to_vec()).unwrap(),
    ];
    let plan = process_instruction(&accounts, &[0u8], 4_561_234).unwrap();
    let (allocate, initialize) = match plan {
        Plan::CreateToken { allocate, initialize } => (allocate, initialize),
        _ => panic!("wrong plan"),
    };

    assert_eq!(allocate.program_id, system_program::id());
    assert_eq!(allocate.accounts.len(), 2);
    assert_eq!(allocate.accounts[0].pubkey, pubkey(0x0A));
    assert!(allocate.accounts[0].is_signer);
    assert!(allocate.accounts[0].is_writable);
    assert_eq!(allocate.accounts[1].pubkey, pubkey(0x0B));
    assert!(allocate.accounts[1].is_signer);
    assert!(allocate.accounts[1].is_writable);
    let mut allocate_data = 0u32.to_le_bytes().to_vec();
    allocate_data.extend_from_slice(&4_561_234u64.to_le_bytes());
    allocate_data.extend_from_slice(&82u64.to_le_bytes());
    allocate_data.extend_from_slice(&spl_token::id().to_bytes());
    assert_eq!(allocate.data, allocate_data);

    assert_eq!(initialize.program_id, spl_token::id());
    assert_eq!(initialize.accounts.len(), 2);
    assert_eq!(initialize.accounts[0].pubkey, pubkey(0x0B));
    assert!(!initialize.accounts[0].is_signer);
    assert!(initialize.accounts[0].is_writable);
    assert_eq!(initialize.accounts[1].pubkey, sysvar::rent::id());
    assert!(!initialize.accounts[1].is_signer);
    assert!(!initialize.accounts[1].is_writable);
    let mut initialize_data = vec![0u8, 9u8];
    initialize_data.extend_from_slice(&[0x0C; 32]);
    initialize_data.push(0); // no freeze authority
    assert_eq!(initialize.data, initialize_data);
}

#[test]
fn mint_creation_rejects_wrong_token_program() {
    let accounts = vec![addr(1), addr(2), addr(3), addr(4), addr(5)];
    let r = process_instruction(&accounts, &[0u8], 100);
    assert!(matches!(r, Err(MarketError::IncorrectProgramId)));
}

#[test]
fn mint_creation_needs_five_accounts() {
    let accounts = vec![addr(1), addr(2), addr(3), addr(4)];
    let r = process_instruction(&accounts, &[0u8], 100);
    assert!(matches!(r, Err(MarketError::NotEnoughAccountKeys)));
}
