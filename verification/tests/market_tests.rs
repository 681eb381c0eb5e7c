use token_market::{
    decode_instruction, encode_command, encode_order, needs_mint_rent, process_instruction,
    read_order, store_order, Address, Command, MarketError, MarketOrder, Plan,
};

fn addr(b: u8) -> Address {
    Address::from_bytes(vec![b; 32]).unwrap()
}

fn list_data(mint: u8, price: u64, amount: u64) -> Vec<u8> {
    let mut data = vec![1u8];
    data.extend_from_slice(&[mint; 32]);
    data.extend_from_slice(&price.to_le_bytes());
    data.extend_from_slice(&amount.to_le_bytes());
    data
}

fn buy_data(price: u64, amount: u64) -> Vec<u8> {
    let mut data = vec![2u8];
    data.extend_from_slice(&price.to_le_bytes());
    data.extend_from_slice(&amount.to_le_bytes());
    data
}

#[test]
fn it_works() {}

#[test]
fn decode_list_extracts_fields() {
    let data = list_data(0xAA, 1_000_000, 50);
    match decode_instruction(&data).unwrap() {
        Command::ListToken { token_mint, price, amount } => {
            assert_eq!(token_mint.as_bytes(), &vec![0xAA; 32]);
            assert_eq!(price, 1_000_000);
            assert_eq!(amount, 50);
        },
        _ => panic!("wrong command"),
    }
}

#[test]
fn decode_encode_round_trips_list_buffer() {
    let data = list_data(0x5C, 987_654_321, 17);
    let cmd = decode_instruction(&data).unwrap();
    assert_eq!(encode_command(&cmd), data);
}

#[test]
fn decode_encode_round_trips_buy_and_create() {
    let buy = buy_data(44, 55);
    assert_eq!(encode_command(&decode_instruction(&buy).unwrap()), buy);
    let create = vec![0u8];
    assert_eq!(encode_command(&decode_instruction(&create).unwrap()), create);
}

#[test]
fn decode_accepts_trailing_bytes() {
    let mut data = list_data(1, 2, 3);
    data.push(0xEE);
    match decode_instruction(&data).unwrap() {
        Command::ListToken { price, amount, .. } => {
            assert_eq!(price, 2);
            assert_eq!(amount, 3);
        },
        _ => panic!("wrong command"),
    }
}

#[test]
fn decode_rejects_short_list_buffer() {
    let mut data = list_data(1, 2, 3);
    data.truncate(48);
    assert!(matches!(decode_instruction(&data), Err(MarketError::InvalidInstructionData)));
}

#[test]
fn dispatch_rejects_unknown_opcodes() {
    let accounts = vec![addr(1), addr(2)];
    for opcode in [3u8, 4, 9, 255] {
        let r = process_instruction(&accounts, &[opcode], 0);
        assert!(matches!(r, Err(MarketError::InvalidInstructionData)));
    }
}

#[test]
fn dispatch_rejects_empty_buffer() {
    let accounts = vec![addr(1), addr(2)];
    let r = process_instruction(&accounts, &[], 0);
    assert!(matches!(r, Err(MarketError::InvalidInstructionData)));
}

#[test]
fn listing_builds_exact_record() {
    let seller = addr(0x11);
    let listing_account = addr(0x12);
    let data = list_data(0xAA, 1_000_000, 50);
    let accounts = vec![seller, listing_account];
    let plan = process_instruction(&accounts, &data, 0).unwrap();
    let record = match plan {
        Plan::ListToken { record } => record,
        _ => panic!("wrong plan"),
    };
    let mut expected = vec![0x11u8; 32];
    expected.extend_from_slice(&[0xAA; 32]);
    expected.extend_from_slice(&1_000_000u64.to_le_bytes());
    expected.extend_from_slice(&50u64.to_le_bytes());
    assert_eq!(record, expected);
}

#[test]
fn listing_needs_two_accounts() {
    let data = list_data(0xAA, 1_000_000, 50);
    let accounts = vec![addr(0x11)];
    let r = process_instruction(&accounts, &data, 0);
    assert!(matches!(r, Err(MarketError::NotEnoughAccountKeys)));
}

#[test]
fn store_fully_overwrites_region() {
    let order = MarketOrder {
        seller: addr(0x21),
        token_mint: addr(0x22),
        price: 123_456_789,
        amount: 42,
    };
    let mut region = vec![0xFFu8; 80];
    store_order(&mut region, &order);
    assert_eq!(region, encode_order(&order));
    let back = read_order(&region);
    assert_eq!(back.seller.as_bytes(), &vec![0x21; 32]);
    assert_eq!(back.token_mint.as_bytes(), &vec![0x22; 32]);
    assert_eq!(back.price, 123_456_789);
    assert_eq!(back.amount, 42);
}

#[test]
fn relisting_replaces_whole_record() {
    let first = MarketOrder {
        seller: addr(0x31),
        token_mint: addr(0x32),
        price: u64::from_le_bytes([0x33; 8]),
        amount: u64::from_le_bytes([0x34; 8]),
    };
    let second = MarketOrder {
        seller: addr(0x41),
        token_mint: addr(0x42),
        price: u64::from_le_bytes([0x43; 8]),
        amount: u64::from_le_bytes([0x44; 8]),
    };
    let mut region = vec![0u8; 80];
    store_order(&mut region, &first);
    let first_image = region.clone();
    store_order(&mut region, &second);
    assert_eq!(region, encode_order(&second));
    for i in 0..region.len() {
        assert_ne!(region[i], first_image[i]);
    }
}

#[test]
fn read_order_parses_any_region() {
    let mut region = vec![0x61u8; 32];
    region.extend_from_slice(&[0x62; 32]);
    region.extend_from_slice(&7u64.to_le_bytes());
    region.extend_from_slice(&9u64.to_le_bytes());
    let order = read_order(&region);
    assert_eq!(order.seller.as_bytes(), &vec![0x61; 32]);
    assert_eq!(order.token_mint.as_bytes(), &vec![0x62; 32]);
    assert_eq!(order.price, 7);
    assert_eq!(order.amount, 9);
}

#[test]
fn purchase_rejects_short_buffer_before_any_call() {
    let accounts = vec![addr(1), addr(2), addr(3), addr(4), addr(5), addr(6)];
    let mut data = buy_data(1_000_000, 50);
    data.truncate(16);
    let r = process_instruction(&accounts, &data, 0);
    assert!(matches!(r, Err(MarketError::InvalidInstructionData)));
}

#[test]
fn purchase_needs_six_accounts() {
    let accounts = vec![addr(1), addr(2), addr(3), addr(4), addr(5)];
    let data = buy_data(1_000_000, 50);
    let r = process_instruction(&accounts, &data, 0);
    assert!(matches!(r, Err(MarketError::NotEnoughAccountKeys)));
}

#[test]
fn address_rejects_other_lengths() {
    assert!(Address::from_bytes(vec![1; 31]).is_none());
    assert!(Address::from_bytes(vec![1; 33]).is_none());
    assert!(Address::from_bytes(Vec::new()).is_none());
    assert!(Address::from_bytes(vec![1; 32]).is_some());
}

#[test]
fn needs_mint_rent_only_for_mint_creation() {
    assert!(needs_mint_rent(&[0]));
    assert!(needs_mint_rent(&[0, 9, 9]));
    assert!(!needs_mint_rent(&[1]));
    assert!(!needs_mint_rent(&[2]));
    assert!(!needs_mint_rent(&[]));
}
