use vault_indexer::decoder::RawLog;
use vault_indexer::merger::{Arrival, Delivery, StreamMerger, WorkItem};
use vault_indexer::primitives::H256;
use vault_indexer::reader::BlockHeader;

fn log(block_number: u64, log_index: u64) -> RawLog {
    RawLog {
        topics: vec![],
        data: vec![],
        block_number,
        transaction_hash: H256 { bytes: [block_number as u8; 32] },
        log_index,
    }
}

fn block(number: u64) -> Arrival {
    Arrival::Block(BlockHeader { number, timestamp: number * 12 })
}

#[test]
fn a_fresh_merger_has_nothing_to_deliver() {
    let mut merger = StreamMerger::new();
    assert_eq!(merger.len(), 0);
    assert!(!merger.is_closed());
    assert_eq!(merger.next(), Delivery::Pending);
}

#[test]
fn items_are_delivered_in_the_order_of_their_arrival() {
    let mut merger = StreamMerger::new();
    assert!(merger.observe(block(5)));
    assert!(merger.observe(Arrival::Log(log(5, 0))));
    assert!(merger.observe(Arrival::Log(log(4, 1))));
    assert!(merger.observe(block(6)));
    assert_eq!(merger.len(), 4);
    assert_eq!(merger.next(), Delivery::Item(WorkItem::NewBlock(5)));
    assert_eq!(merger.next(), Delivery::Item(WorkItem::NewLog(log(5, 0))));
    assert_eq!(merger.next(), Delivery::Item(WorkItem::NewLog(log(4, 1))));
    assert_eq!(merger.next(), Delivery::Item(WorkItem::NewBlock(6)));
    assert_eq!(merger.next(), Delivery::Pending);
    assert_eq!(merger.len(), 0);
}

#[test]
fn blocks_out_of_chain_order_are_not_reordered() {
    let mut merger = StreamMerger::new();
    merger.observe(block(9));
    merger.observe(block(8));
    merger.observe(block(9));
    assert_eq!(merger.next(), Delivery::Item(WorkItem::NewBlock(9)));
    assert_eq!(merger.next(), Delivery::Item(WorkItem::NewBlock(8)));
    assert_eq!(merger.next(), Delivery::Item(WorkItem::NewBlock(9)));
}

#[test]
fn a_closed_feed_ends_the_stream_after_what_was_observed() {
    let mut merger = StreamMerger::new();
    merger.observe(block(1));
    merger.observe(Arrival::Log(log(1, 0)));
    assert!(merger.observe(Arrival::LogsClosed));
    assert!(merger.is_closed());
    assert_eq!(merger.next(), Delivery::Item(WorkItem::NewBlock(1)));
    assert_eq!(merger.next(), Delivery::Item(WorkItem::NewLog(log(1, 0))));
    assert_eq!(merger.next(), Delivery::EndOfStream);
    assert_eq!(merger.next(), Delivery::EndOfStream);
}

#[test]
fn nothing_is_taken_from_the_remaining_feed_after_a_close() {
    let mut merger = StreamMerger::new();
    assert!(merger.observe(Arrival::BlocksClosed));
    assert!(!merger.observe(Arrival::Log(log(2, 0))));
    assert!(!merger.observe(block(2)));
    assert!(!merger.observe(Arrival::LogsClosed));
    assert_eq!(merger.len(), 0);
    assert_eq!(merger.next(), Delivery::EndOfStream);
}
