use blockchain::blockchain::Blockchain;
use blockchain::clock::{millis_from_parts, MAX_FORMATTED_MILLIS};
use blockchain::processor_transactions::{Processor, BLOCK_SIZE};
use blockchain::service_server::MyServiceImpl;
use blockchain::strucks::block::Block;
use blockchain::strucks::transaction::Transaction;

fn tx(sender: &str, recipient: &str, amount: f64) -> Transaction {
    Transaction::from_parts(sender.to_string(), recipient.to_string(), amount.to_bits(), None, None, None)
}

#[test]
fn transaction_hash_is_sha256_hex_of_data() {
    let mut t = tx("alice", "bob", 1.5);
    assert_eq!(t.get_hash(), "");
    t.calculate_hash("abc");
    assert_eq!(t.get_hash(), "ba7816bf8f01cfea414140de5dae2223b00361a396177a9cb410ff61f20015ad");
    assert_eq!(t.get_sender(), "alice");
    assert_eq!(t.get_recipient(), "bob");
    assert_eq!(f64::from_bits(t.get_amount()), 1.5);
}

#[test]
fn transaction_fee_and_timestamp() {
    let mut t = tx("a", "b", 2.0);
    assert_eq!(t.get_fee(), None);
    t.set_fee(0.25f64.to_bits());
    assert_eq!(t.get_fee(), Some(0.25f64.to_bits()));
    t.set_timestamp();
    assert!(t.get_timestamp().is_some());
    assert_eq!(t.get_sender(), "a");
}

#[test]
fn block_summary_json() {
    let b = Block::new(1, "prev".to_string(), vec![tx("a", "b", 1.0), tx("c", "d", 2.0)]);
    let expected = "{\n  \"hash\": \"\",\n  \"index\": 1,\n  \"previous_hash\": \"prev\",\n  \"timestamp\": 0,\n  \"transactions\": 2\n}";
    assert_eq!(b.build_json_print(), expected);
    assert_eq!(b.get_index(), 1);
    assert_eq!(b.get_hash(), "");
    assert_eq!(b.get_transactions().len(), 2);
    b.build_block();
}

#[test]
fn block_hash_is_sha256_hex_of_data() {
    let mut b = Block::new(3, "p".to_string(), Vec::new());
    b.calculate_hash("");
    assert_eq!(b.get_hash(), "e3b0c44298fc1c149afbf4c8996fb92427ae41e4649b934ca495991b7852b855");
}

#[test]
fn blocks_link_to_previous_hash() {
    let mut chain = Blockchain::new();
    chain.previous_hash_block = Some("genesis".to_string());
    chain.transactions.push(tx("a", "b", 1.0));
    let next = chain.next_block();
    assert_eq!(next.get_index(), 1);
    assert_eq!(chain.index_last_block, 0);
    let first = chain.create_block(Some(5), "first");
    assert_eq!(chain.index_last_block, 1);
    assert_eq!(first.get_index(), 1);
    assert_eq!(first.get_timestamp(), Some(5));
    assert_eq!(first.get_previous_hash(), "genesis");
    assert_eq!(first.get_transactions().len(), 1);
    assert_eq!(first.get_hash().len(), 64);
    assert!(chain.transactions.is_empty());
    assert_eq!(chain.previous_hash_block, Some(first.get_hash()));
    let second = chain.create_block(None, "second");
    assert_eq!(second.get_index(), 2);
    assert_eq!(second.get_previous_hash(), first.get_hash());
    assert_eq!(second.get_transactions().len(), 0);
    assert_ne!(second.get_hash(), first.get_hash());
}

#[test]
fn restore_takes_height_and_hash_of_stored_block() {
    let mut chain = Blockchain::new();
    let mut stored = Block::new(7, "x".to_string(), Vec::new());
    stored.calculate_hash("stored");
    chain.restore_last_block(&stored);
    assert_eq!(chain.index_last_block, 7);
    let next = chain.create_block(None, "next");
    assert_eq!(next.get_index(), 8);
    assert_eq!(next.get_previous_hash(), stored.get_hash());
}

#[test]
fn processor_asks_for_block_at_batch_size() {
    let mut chain = Blockchain::new();
    let mut p = Processor::new();
    for i in 0..BLOCK_SIZE - 1 {
        assert!(!p.receive(&mut chain, tx("a", "b", i as f64)));
    }
    assert!(p.receive(&mut chain, tx("a", "b", 0.0)));
    assert_eq!(chain.transactions.len(), BLOCK_SIZE);
    p.block_created();
    assert!(!p.state);
}

#[test]
fn service_reply() {
    assert_eq!(MyServiceImpl.my_method("Hello gRPC!"), "Reeived: Hello gRPC!");
}

#[test]
fn millis_arithmetic() {
    assert_eq!(millis_from_parts(1, 234), Some(1234));
    assert_eq!(millis_from_parts(u64::MAX / 1000 + 1, 0), None);
    assert_eq!(millis_from_parts(u64::MAX / 1000, 999), None);
    assert_eq!(millis_from_parts(u64::MAX / 1000, 615), Some(u64::MAX));
}

#[test]
fn unix_millis_text() {
    let text = Transaction::format_unix_millis(1_700_000_000_123);
    assert!(text.starts_with("UTC: 2023-11-14 22:13:20.123 UTC, Local: "));
    assert!(text.ends_with(" Local"));
    let late = Transaction::format_unix_millis(MAX_FORMATTED_MILLIS - 1);
    assert!(late.contains("262142-12-30 23:59:59.999 UTC"), "{}", late);
}

#[test]
fn clock_reads_a_time() {
    let now = Block::current_time_millis().unwrap();
    assert!(now > 1_600_000_000_000);
}

#[test]
fn timestamp_setters() {
    let mut t = tx("a", "b", 1.0);
    t.set_timestamp_to(Some(42));
    assert_eq!(t.get_timestamp(), Some(42));
    assert_eq!(t.timestamp, Some(42));
    t.set_timestamp_to(None);
    assert_eq!(t.get_timestamp(), None);
    let mut b = Block::new(1, "p".to_string(), Vec::new());
    b.set_timestamp_to(Some(7));
    assert_eq!(b.get_timestamp(), Some(7));
    b.set_timestamp();
    assert!(b.get_timestamp().unwrap() > 7);
}
