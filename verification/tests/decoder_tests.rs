use vault_indexer::decoder::{decode_log, DecodeError, RawLog, VaultEvent};
use vault_indexer::primitives::{Address, H256, U256};
use vault_indexer::registry::{
    event_topic, EventKind, SignatureRegistry, DEPOSIT_SIGNATURE, WITHDRAW_SIGNATURE,
};

fn padded(byte: u8) -> H256 {
    let mut bytes = [0u8; 32];
    for b in bytes.iter_mut().skip(12) {
        *b = byte;
    }
    H256 { bytes }
}

fn word(value: u64) -> Vec<u8> {
    let mut bytes = vec![0u8; 24];
    bytes.extend_from_slice(&value.to_be_bytes());
    bytes
}

fn two_words(first: u64, second: u64) -> Vec<u8> {
    let mut data = word(first);
    data.extend(word(second));
    data
}

fn hash_from_hex(hex: &str) -> H256 {
    let mut bytes = [0u8; 32];
    for i in 0..32 {
        bytes[i] = u8::from_str_radix(&hex[2 * i..2 * i + 2], 16).unwrap();
    }
    H256 { bytes }
}

fn deposit_log() -> RawLog {
    RawLog {
        topics: vec![event_topic(EventKind::Deposit), padded(0xAA), padded(0xBB)],
        data: two_words(100, 95),
        block_number: 17,
        transaction_hash: H256 { bytes: [7u8; 32] },
        log_index: 3,
    }
}

#[test]
fn deposit_topic_is_the_keccak_hash_of_its_signature() {
    assert_eq!(DEPOSIT_SIGNATURE, "Deposit(address,address,uint256,uint256)");
    assert_eq!(
        event_topic(EventKind::Deposit),
        hash_from_hex("dcbc1c05240f31ff3ad067ef1ee35ce4997762752e3a095284754544f4c709d7")
    );
}

#[test]
fn withdraw_topic_is_the_keccak_hash_of_its_signature() {
    assert_eq!(WITHDRAW_SIGNATURE, "Withdraw(address,address,address,uint256,uint256)");
    assert_eq!(
        event_topic(EventKind::Withdraw),
        hash_from_hex("fbde797d201c681b91056529119e0b02407c7bb96a4a2c75c01fc9667232c8db")
    );
}

#[test]
fn registering_a_signature_registers_its_hash() {
    let mut registry = SignatureRegistry::new();
    assert_eq!(registry.len(), 0);
    registry.register(EventKind::Withdraw, WITHDRAW_SIGNATURE);
    assert_eq!(registry.len(), 1);
    assert_eq!(registry.lookup(&event_topic(EventKind::Withdraw)), Some(EventKind::Withdraw));
    assert_eq!(registry.lookup(&event_topic(EventKind::Deposit)), None);
}

#[test]
fn lookup_finds_the_earliest_registration_of_a_hash() {
    let mut registry = SignatureRegistry::new();
    let hash = H256 { bytes: [9u8; 32] };
    let other = H256 { bytes: [8u8; 32] };
    registry.register_hash(EventKind::Withdraw, other);
    registry.register_hash(EventKind::Deposit, hash);
    registry.register_hash(EventKind::Withdraw, hash);
    assert_eq!(registry.lookup(&hash), Some(EventKind::Deposit));
    assert_eq!(registry.lookup(&other), Some(EventKind::Withdraw));
    assert_eq!(registry.lookup(&H256 { bytes: [1u8; 32] }), None);
}

#[test]
fn registration_order_is_irrelevant() {
    let mut forward = SignatureRegistry::new();
    forward.register(EventKind::Deposit, DEPOSIT_SIGNATURE);
    forward.register(EventKind::Withdraw, WITHDRAW_SIGNATURE);
    let mut backward = SignatureRegistry::new();
    backward.register(EventKind::Withdraw, WITHDRAW_SIGNATURE);
    backward.register(EventKind::Deposit, DEPOSIT_SIGNATURE);
    for kind in [EventKind::Deposit, EventKind::Withdraw] {
        assert_eq!(forward.lookup(&event_topic(kind)), Some(kind));
        assert_eq!(backward.lookup(&event_topic(kind)), Some(kind));
    }
}

#[test]
fn deposit_log_decodes_to_a_deposit() {
    let registry = SignatureRegistry::vault_events();
    let decoded = decode_log(&registry, &deposit_log(), 1_700_000_000);
    let expected = VaultEvent {
        kind: EventKind::Deposit,
        block_number: 17,
        transaction_hash: H256 { bytes: [7u8; 32] },
        log_index: 3,
        sender: Address { bytes: [0xAA; 20] },
        receiver: Some(Address { bytes: [0xBB; 20] }),
        owner: Some(Address { bytes: [0xBB; 20] }),
        assets: U256::from_u64(100),
        shares: U256::from_u64(95),
        timestamp: 1_700_000_000,
    };
    assert_eq!(decoded, Ok(Some(expected)));
}

#[test]
fn withdraw_log_decodes_three_addresses() {
    let registry = SignatureRegistry::vault_events();
    let log = RawLog {
        topics: vec![
            event_topic(EventKind::Withdraw),
            padded(0x11),
            padded(0x22),
            padded(0x33),
        ],
        data: two_words(5_000, 4_900),
        block_number: 20,
        transaction_hash: H256 { bytes: [1u8; 32] },
        log_index: 0,
    };
    let event = decode_log(&registry, &log, 42).unwrap().unwrap();
    assert_eq!(event.kind, EventKind::Withdraw);
    assert_eq!(event.sender, Address { bytes: [0x11; 20] });
    assert_eq!(event.receiver, Some(Address { bytes: [0x22; 20] }));
    assert_eq!(event.owner, Some(Address { bytes: [0x33; 20] }));
    assert_eq!(event.assets, U256::from_u64(5_000));
    assert_eq!(event.shares, U256::from_u64(4_900));
    assert_eq!(event.block_number, 20);
    assert_eq!(event.timestamp, 42);
}

#[test]
fn the_high_bytes_of_an_address_topic_are_not_looked_at() {
    let registry = SignatureRegistry::vault_events();
    let mut log = deposit_log();
    log.topics[1] = H256 { bytes: [0xAA; 32] };
    let event = decode_log(&registry, &log, 0).unwrap().unwrap();
    assert_eq!(event.sender, Address { bytes: [0xAA; 20] });
}

#[test]
fn log_without_topics_is_no_vault_event() {
    let registry = SignatureRegistry::vault_events();
    let mut log = deposit_log();
    log.topics.clear();
    assert_eq!(decode_log(&registry, &log, 0), Ok(None));
}

#[test]
fn log_with_an_unknown_signature_is_no_vault_event() {
    let registry = SignatureRegistry::vault_events();
    let mut log = deposit_log();
    log.topics[0] = H256 { bytes: [0x5A; 32] };
    assert_eq!(decode_log(&registry, &log, 0), Ok(None));
    log.topics.truncate(1);
    log.data.clear();
    assert_eq!(decode_log(&registry, &log, 0), Ok(None));
    assert_eq!(decode_log(&SignatureRegistry::new(), &deposit_log(), 0), Ok(None));
}

#[test]
fn wrong_topic_count_is_a_decode_error() {
    let registry = SignatureRegistry::vault_events();
    let mut log = deposit_log();
    log.topics.pop();
    assert_eq!(
        decode_log(&registry, &log, 0),
        Err(DecodeError::WrongTopicCount { expected: 3, found: 2 })
    );
    let mut log = deposit_log();
    log.topics[0] = event_topic(EventKind::Withdraw);
    assert_eq!(
        decode_log(&registry, &log, 0),
        Err(DecodeError::WrongTopicCount { expected: 4, found: 3 })
    );
}

#[test]
fn wrong_data_length_is_a_decode_error() {
    let registry = SignatureRegistry::vault_events();
    let mut log = deposit_log();
    log.data.pop();
    assert_eq!(
        decode_log(&registry, &log, 0),
        Err(DecodeError::WrongDataLength { expected: 64, found: 63 })
    );
    let mut log = deposit_log();
    log.data.extend(word(1));
    assert_eq!(
        decode_log(&registry, &log, 0),
        Err(DecodeError::WrongDataLength { expected: 64, found: 96 })
    );
}

#[test]
fn a_word_is_read_as_a_big_endian_number() {
    let mut bytes = [0u8; 32];
    bytes[0] = 0x01;
    bytes[15] = 0x02;
    bytes[23] = 0x03;
    bytes[31] = 0x04;
    let value = U256::from_be_word(&bytes);
    assert_eq!(value.limbs, [4, 3, 2, 1u64 << 56]);
    assert_eq!(value.to_u64(), None);
    let mut bytes = [0u8; 32];
    bytes[24..].copy_from_slice(&0x0102_0304_0506_0708u64.to_be_bytes());
    let small = U256::from_be_word(&bytes);
    assert_eq!(small, U256::from_u64(0x0102_0304_0506_0708));
    assert_eq!(small.to_u64(), Some(0x0102_0304_0506_0708));
}

#[test]
fn u256_round_trips_through_u64() {
    assert_eq!(U256::from_u64(0).to_u64(), Some(0));
    assert_eq!(U256::from_u64(u64::MAX).to_u64(), Some(u64::MAX));
    assert_eq!(U256::from_u64(100).limbs, [100, 0, 0, 0]);
    assert_eq!(U256 { limbs: [0, 1, 0, 0] }.to_u64(), None);
}

#[test]
fn an_address_is_the_low_twenty_bytes_of_a_word() {
    let mut bytes = [0u8; 32];
    for (i, b) in bytes.iter_mut().enumerate() {
        *b = i as u8;
    }
    let address = Address::from_word(&H256 { bytes });
    let mut expected = [0u8; 20];
    for (i, b) in expected.iter_mut().enumerate() {
        *b = (i + 12) as u8;
    }
    assert_eq!(address, Address { bytes: expected });
}

#[test]
fn hashes_compare_by_their_bytes() {
    let a = H256 { bytes: [3u8; 32] };
    let mut bytes = [3u8; 32];
    assert!(a.same_as(&H256 { bytes }));
    bytes[31] = 4;
    assert!(!a.same_as(&H256 { bytes }));
}
