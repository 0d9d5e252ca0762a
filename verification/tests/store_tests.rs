use vault_indexer::decoder::VaultEvent;
use vault_indexer::primitives::{Address, H256, U256};
use vault_indexer::reader::VaultState;
use vault_indexer::registry::EventKind;
use vault_indexer::store::MemoryStore;

fn event(tx: u8, log_index: u64, assets: u64) -> VaultEvent {
    VaultEvent {
        kind: EventKind::Deposit,
        block_number: 10,
        transaction_hash: H256 { bytes: [tx; 32] },
        log_index,
        sender: Address { bytes: [1u8; 20] },
        receiver: None,
        owner: None,
        assets: U256::from_u64(assets),
        shares: U256::from_u64(assets),
        timestamp: 99,
    }
}

fn state(block_number: u64, total_assets: u64) -> VaultState {
    VaultState {
        block_number,
        timestamp: block_number * 12,
        total_assets: U256::from_u64(total_assets),
        total_supply: U256::from_u64(1),
        extended: None,
    }
}

#[test]
fn a_new_store_is_empty() {
    let store = MemoryStore::new();
    assert!(store.events().is_empty());
    assert!(store.states().is_empty());
    assert_eq!(store.load_checkpoint(), None);
    assert_eq!(store.state_at(0), None);
}

#[test]
fn saving_the_same_event_twice_stores_it_once() {
    let mut store = MemoryStore::new();
    assert!(store.save_event(event(1, 0, 100)));
    assert!(!store.save_event(event(1, 0, 100)));
    assert_eq!(store.events(), &vec![event(1, 0, 100)]);
}

#[test]
fn events_are_keyed_by_transaction_and_log_index() {
    let mut store = MemoryStore::new();
    assert!(store.save_event(event(1, 0, 100)));
    assert!(store.save_event(event(1, 1, 200)));
    assert!(store.save_event(event(2, 0, 300)));
    assert!(!store.save_event(event(1, 1, 999)));
    assert_eq!(store.events(), &vec![event(1, 0, 100), event(1, 1, 200), event(2, 0, 300)]);
}

#[test]
fn the_last_snapshot_written_for_a_block_wins() {
    let mut store = MemoryStore::new();
    store.save_state(state(5, 100));
    store.save_state(state(6, 200));
    store.save_state(state(5, 150));
    assert_eq!(store.states(), &vec![state(5, 150), state(6, 200)]);
    assert_eq!(store.state_at(5), Some(&state(5, 150)));
    assert_eq!(store.state_at(6), Some(&state(6, 200)));
    assert_eq!(store.state_at(7), None);
}

#[test]
fn saving_an_identical_snapshot_changes_nothing() {
    let mut store = MemoryStore::new();
    store.save_state(state(5, 100));
    store.save_state(state(5, 100));
    assert_eq!(store.states(), &vec![state(5, 100)]);
}

#[test]
fn the_checkpoint_is_the_one_written_last() {
    let mut store = MemoryStore::new();
    store.save_checkpoint(12);
    assert_eq!(store.load_checkpoint(), Some(12));
    store.save_checkpoint(15);
    assert_eq!(store.load_checkpoint(), Some(15));
    assert!(store.events().is_empty());
    assert!(store.states().is_empty());
}
