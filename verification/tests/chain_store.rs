use blockchain_demo::block::Block;
use blockchain_demo::block_chain::{
    height_from_record, is_in_place, tip_from_record, BlockChain, ChainStep,
};
use blockchain_demo::transaction::{TXInput, TXOutput, Transaction};
use blockchain_demo::{ChainError, TARGET_HEX};

fn fresh_db() -> sled::Db {
    sled::Config::new().temporary(true).open().unwrap()
}

#[test]
fn reopening_an_empty_store_reports_the_missing_tip() {
    assert_eq!(BlockChain::new(fresh_db()).err(), Some(ChainError::MissingTip));
}

#[test]
fn tip_that_is_not_text_is_reported() {
    let db = fresh_db();
    db.insert("LAST", vec![0xffu8, 0xfe]).unwrap();
    assert_eq!(BlockChain::new(db.clone()).err(), Some(ChainError::BadTip));
    assert_eq!(
        BlockChain::create_blockchain(db, "alice".to_string()).err(),
        Some(ChainError::BadTip)
    );
}

#[test]
fn created_chain_holds_a_sealed_genesis_block() {
    let db = fresh_db();
    let chain = BlockChain::create_blockchain(db.clone(), "alice".to_string()).unwrap();
    assert_eq!(chain.height(), Ok(0));
    let blocks = chain.blocks().unwrap();
    assert_eq!(blocks.len(), 1);
    let g = &blocks[0];
    assert_eq!(g.height(), 0);
    assert_eq!(g.prev_hash_str(), "");
    assert!(g.is_sealed());
    assert_eq!(g.hash_str(), chain.tip_hash());
    assert!(g.hash_str().starts_with(&"0".repeat(TARGET_HEX)));
    assert_eq!(g.transactions().len(), 1);
    assert!(g.transactions()[0].is_coinbase());
    assert_eq!(g.transactions()[0].v_in[0].script_sig, "GENESIS_COINBASE_TX");
    assert_eq!(g.transactions()[0].v_out[0].script_pub_key, "alice");
    assert_eq!(db.get("LAST").unwrap().unwrap().to_vec(), g.hash_str().as_bytes().to_vec());
    assert_eq!(db.get("HEIGHT").unwrap().unwrap().to_vec(), 0u64.to_le_bytes().to_vec());
    assert_eq!(db.get(g.hash_str()).unwrap().unwrap().to_vec(), g.to_record());
}

#[test]
fn creating_twice_keeps_the_first_chain() {
    let db = fresh_db();
    let first = BlockChain::create_blockchain(db.clone(), "alice".to_string()).unwrap();
    let tip = first.tip_hash().clone();
    let second = BlockChain::create_blockchain(db.clone(), "bob".to_string()).unwrap();
    assert_eq!(*second.tip_hash(), tip);
    assert_eq!(second.blocks().unwrap().len(), 1);
    let third = BlockChain::new(db).unwrap();
    assert_eq!(*third.tip_hash(), tip);
}

#[test]
fn each_added_block_raises_the_height_by_one() {
    let db = fresh_db();
    let mut chain = BlockChain::create_blockchain(db.clone(), "alice".to_string()).unwrap();
    let genesis_hash = chain.tip_hash().clone();
    for k in 1..=3usize {
        let tx = Transaction::new_coinbase("alice".to_string(), format!("block {}", k)).unwrap();
        let before = chain.tip_hash().clone();
        assert_eq!(chain.add_block(vec![tx]), Ok(()));
        assert_eq!(chain.height(), Ok(k));
        let blocks = chain.blocks().unwrap();
        assert_eq!(blocks.len(), k + 1);
        assert_eq!(blocks[0].hash_str(), chain.tip_hash());
        assert_eq!(*blocks[0].prev_hash_str(), before);
        assert_eq!(blocks[0].height(), k);
        assert!(blocks[0].is_sealed());
        assert_eq!(*blocks[k].hash_str(), genesis_hash);
        assert_eq!(blocks[k].prev_hash_str(), "");
        for i in 0..k {
            assert_eq!(blocks[i].prev_hash_str(), blocks[i + 1].hash_str());
            assert_eq!(blocks[i].height(), blocks[i + 1].height() + 1);
        }
    }
    assert_eq!(db.get("HEIGHT").unwrap().unwrap().to_vec(), 3u64.to_le_bytes().to_vec());
    let reopened = BlockChain::new(db).unwrap();
    assert_eq!(reopened.blocks().unwrap().len(), 4);
}

#[test]
fn cursor_gives_each_block_then_the_end() {
    let db = fresh_db();
    let mut chain = BlockChain::create_blockchain(db, "alice".to_string()).unwrap();
    chain.add_block(Vec::new()).unwrap();
    let mut it = chain.iter();
    match it.next() {
        ChainStep::Next(b) => assert_eq!(b.height(), 1),
        _ => panic!("the tip should come first"),
    }
    match it.next() {
        ChainStep::Next(b) => assert_eq!(b.height(), 0),
        _ => panic!("the genesis block should come second"),
    }
    assert!(matches!(it.next(), ChainStep::End));
    assert!(matches!(it.next(), ChainStep::End));
    let mut again = chain.iter();
    assert!(matches!(again.next(), ChainStep::Next(_)));
}

#[test]
fn missing_block_is_an_integrity_error_not_the_end() {
    let db = fresh_db();
    db.insert("LAST", "deadbeef".as_bytes()).unwrap();
    let chain = BlockChain::new(db).unwrap();
    assert!(matches!(chain.iter().next(), ChainStep::Broken(ChainError::Integrity)));
    assert_eq!(chain.blocks().err(), Some(ChainError::Integrity));
    assert_eq!(chain.find_UTXo("alice").err(), Some(ChainError::Integrity));
    assert_eq!(chain.find_unspent_transactions("alice").err(), Some(ChainError::Integrity));
}

#[test]
fn unreadable_or_misplaced_block_is_an_integrity_error() {
    let db = fresh_db();
    let mut chain = BlockChain::create_blockchain(db.clone(), "alice".to_string()).unwrap();
    chain.add_block(Vec::new()).unwrap();
    let genesis_hash = chain.blocks().unwrap()[1].hash_str().clone();
    db.insert(genesis_hash.as_str(), vec![1u8, 2, 3]).unwrap();
    let mut it = chain.iter();
    assert!(matches!(it.next(), ChainStep::Next(_)));
    assert!(matches!(it.next(), ChainStep::Broken(ChainError::Integrity)));
    assert!(matches!(it.next(), ChainStep::Broken(ChainError::Integrity)));
    assert_eq!(chain.blocks().err(), Some(ChainError::Integrity));
    let stray = Block::with_timestamp(Vec::new(), String::new(), 5, 1);
    db.insert(genesis_hash.as_str(), stray.to_record()).unwrap();
    assert_eq!(chain.blocks().err(), Some(ChainError::Integrity));
}

#[test]
fn bad_height_record_stops_an_append() {
    let db = fresh_db();
    let mut chain = BlockChain::create_blockchain(db.clone(), "alice".to_string()).unwrap();
    let tip = chain.tip_hash().clone();
    db.insert("HEIGHT", vec![1u8, 0, 0, 0]).unwrap();
    assert_eq!(chain.height(), Err(ChainError::BadHeight));
    assert_eq!(chain.add_block(Vec::new()), Err(ChainError::BadHeight));
    db.remove("HEIGHT").unwrap();
    assert_eq!(chain.add_block(Vec::new()), Err(ChainError::BadHeight));
    db.insert("HEIGHT", u64::MAX.to_le_bytes().to_vec()).unwrap();
    assert_eq!(chain.add_block(Vec::new()), Err(ChainError::BadHeight));
    assert_eq!(*chain.tip_hash(), tip);
    assert_eq!(chain.blocks().unwrap().len(), 1);
}

#[test]
fn next_block_follows_the_tip() {
    let db = fresh_db();
    let chain = BlockChain::create_blockchain(db, "alice".to_string()).unwrap();
    let b = chain.next_block(Vec::new()).unwrap();
    assert_eq!(b.height(), 1);
    assert_eq!(b.prev_hash_str(), chain.tip_hash());
    assert_eq!(b.nonce(), 0);
    assert_eq!(b.hash_str(), "empty");
}

#[test]
fn seal_and_record_moves_the_tip() {
    let db = fresh_db();
    let mut chain = BlockChain::create_blockchain(db, "alice".to_string()).unwrap();
    let b = Block::with_timestamp(Vec::new(), chain.tip_hash().clone(), 1, 77);
    let mut expected = b.clone();
    expected.mine().unwrap();
    assert_eq!(chain.seal_and_record(b), Ok(()));
    assert_eq!(chain.tip_hash(), expected.hash_str());
    assert_eq!(chain.height(), Ok(1));
    assert_eq!(chain.blocks().unwrap()[0].nonce(), expected.nonce());
}

#[test]
fn genesis_reward_is_spendable_by_its_owner_only() {
    let chain = BlockChain::create_blockchain(fresh_db(), "alice".to_string()).unwrap();
    let outs = chain.find_UTXo("alice").unwrap();
    assert_eq!(outs.len(), 1);
    assert_eq!(outs[0].value, 100);
    assert_eq!(outs[0].script_pub_key, "alice");
    assert!(chain.find_UTXo("bob").unwrap().is_empty());
    assert_eq!(chain.find_unspent_transactions("alice").unwrap().len(), 1);
}

#[test]
fn spending_moves_the_output_on_the_chain() {
    let mut chain = BlockChain::create_blockchain(fresh_db(), "alice".to_string()).unwrap();
    let reward = chain.find_unspent_transactions("alice").unwrap()[0].clone();
    let mut pay = Transaction {
        id: String::new(),
        v_in: vec![TXInput { tx_id: reward.id.clone(), v_out: 0, script_sig: "alice".to_string() }],
        v_out: vec![TXOutput { value: 100, script_pub_key: "bob".to_string() }],
    };
    pay.set_id();
    assert!(!pay.is_coinbase());
    chain.add_block(vec![pay.clone()]).unwrap();
    assert!(chain.find_UTXo("alice").unwrap().is_empty());
    let outs = chain.find_UTXo("bob").unwrap();
    assert_eq!(outs.len(), 1);
    assert_eq!(outs[0].value, 100);
    assert_eq!(outs[0].script_pub_key, "bob");
    let txs = chain.find_unspent_transactions("bob").unwrap();
    assert_eq!(txs.len(), 1);
    assert_eq!(txs[0].id, pay.id);
}

#[test]
fn tip_record_is_read_as_text() {
    assert_eq!(tip_from_record(None), Err(ChainError::MissingTip));
    assert_eq!(tip_from_record(Some(vec![0xc3u8, 0x28])), Err(ChainError::BadTip));
    assert_eq!(tip_from_record(Some(vec![0x61u8, 0x62, 0x63])), Ok("abc".to_string()));
    assert_eq!(tip_from_record(Some(Vec::new())), Ok(String::new()));
}

#[test]
fn height_record_is_eight_bytes_least_significant_first() {
    assert_eq!(height_from_record(None), Err(ChainError::BadHeight));
    assert_eq!(height_from_record(Some(vec![1u8, 0, 0, 0])), Err(ChainError::BadHeight));
    assert_eq!(height_from_record(Some(vec![0u8; 9])), Err(ChainError::BadHeight));
    assert_eq!(height_from_record(Some(vec![2u8, 1, 0, 0, 0, 0, 0, 0])), Ok(258));
    assert_eq!(height_from_record(Some(vec![0u8; 8])), Ok(0));
}

#[test]
fn block_is_in_place_under_its_own_hash_at_the_expected_height() {
    let child = Block::with_timestamp(Vec::new(), "parent".to_string(), 2, 1);
    let hash = child.hash_str().clone();
    assert!(is_in_place(&child, &hash, None));
    assert!(is_in_place(&child, &hash, Some(2)));
    assert!(!is_in_place(&child, &hash, Some(1)));
    assert!(!is_in_place(&child, &"other".to_string(), Some(2)));
    let orphan = Block::with_timestamp(Vec::new(), String::new(), 2, 1);
    assert!(!is_in_place(&orphan, &hash, None));
    let low = Block::with_timestamp(Vec::new(), "parent".to_string(), 0, 1);
    assert!(!is_in_place(&low, &hash, None));
    let genesis = Block::with_timestamp(Vec::new(), String::new(), 0, 1);
    assert!(is_in_place(&genesis, &hash, None));
    assert!(is_in_place(&genesis, &hash, Some(0)));
}
