use blockchain_demo::block::{raw_transaction, transaction_of_raw, Block};
use blockchain_demo::digest::has_zero_prefix;
use blockchain_demo::transaction::{
    clone_inputs, clone_outputs, clone_transactions, same_text, TXInput, TXOutput, Transaction,
};
use blockchain_demo::utxo::{has_unspent, is_marked, mark_spent, unspent_outputs, unspent_transactions};
use blockchain_demo::{ChainError, REWARD, TARGET_HEX};
use crypto::digest::Digest;
use crypto::sha2::Sha256;

fn sha256_hex(data: &[u8]) -> String {
    let mut hasher = Sha256::new();
    hasher.input(data);
    hasher.result_str()
}

fn spend(id: &str, from: &Transaction, index: i32, owner: &str, to: &str, value: i32) -> Transaction {
    Transaction {
        id: id.to_string(),
        v_in: vec![TXInput {
            tx_id: from.id.clone(),
            v_out: index,
            script_sig: owner.to_string(),
        }],
        v_out: vec![TXOutput { value, script_pub_key: to.to_string() }],
    }
}

#[test]
fn coinbase_has_one_empty_input_and_the_reward() {
    let tx = Transaction::new_coinbase("alice".to_string(), "hello".to_string()).unwrap();
    assert_eq!(tx.v_in.len(), 1);
    assert_eq!(tx.v_in[0].tx_id, "");
    assert_eq!(tx.v_in[0].v_out, -1);
    assert_eq!(tx.v_in[0].script_sig, "hello");
    assert_eq!(tx.v_out.len(), 1);
    assert_eq!(tx.v_out[0].value, 100);
    assert_eq!(tx.v_out[0].value, REWARD);
    assert_eq!(tx.v_out[0].script_pub_key, "alice");
    assert!(tx.is_coinbase());
}

#[test]
fn coinbase_without_memo_names_the_beneficiary() {
    let tx = Transaction::new_coinbase("bob".to_string(), String::new()).unwrap();
    assert_eq!(tx.v_in[0].script_sig, "Reward to 'bob'");
}

#[test]
fn coinbase_id_is_the_digest_of_its_content_with_empty_id() {
    let tx = Transaction::new_coinbase("alice".to_string(), "memo".to_string()).unwrap();
    let content = ("", vec![("", -1i32, "memo")], vec![(100i32, "alice")]);
    let expected = sha256_hex(&bincode::serialize(&content).unwrap());
    assert_eq!(tx.id, expected);
    assert_eq!(tx.id.len(), 64);
}

#[test]
fn set_id_ignores_the_id_already_held() {
    let mut a = Transaction::new_coinbase("alice".to_string(), "memo".to_string()).unwrap();
    let first = a.id.clone();
    a.set_id();
    assert_eq!(a.id, first);
    a.v_out[0].value = 7;
    a.set_id();
    assert_ne!(a.id, first);
}

#[test]
fn is_coinbase_needs_exactly_one_empty_input_with_index_minus_one() {
    let base = Transaction::new_coinbase("a".to_string(), "m".to_string()).unwrap();
    assert!(base.is_coinbase());
    let mut two = base.clone();
    two.v_in.push(two.v_in[0].clone());
    assert!(!two.is_coinbase());
    let mut none = base.clone();
    none.v_in.clear();
    assert!(!none.is_coinbase());
    let mut named = base.clone();
    named.v_in[0].tx_id = "x".to_string();
    assert!(!named.is_coinbase());
    let mut indexed = base.clone();
    indexed.v_in[0].v_out = 0;
    assert!(!indexed.is_coinbase());
}

#[test]
fn unlocking_is_equality_of_text() {
    let i = TXInput { tx_id: "t".to_string(), v_out: 0, script_sig: "alice".to_string() };
    assert!(i.can_unlock_output_with("alice"));
    assert!(!i.can_unlock_output_with("alic"));
    assert!(!i.can_unlock_output_with(""));
    let o = TXOutput { value: 5, script_pub_key: "bob".to_string() };
    assert!(o.can_be_unlock_with("bob"));
    assert!(!o.can_be_unlock_with("alice"));
}

#[test]
fn zero_prefix_is_tested_on_the_first_characters() {
    assert!(has_zero_prefix("000abc", 3));
    assert!(has_zero_prefix("000abc", 0));
    assert!(!has_zero_prefix("000abc", 4));
    assert!(!has_zero_prefix("0a0", 2));
    assert!(!has_zero_prefix("00", 3));
    assert!(has_zero_prefix("", 0));
}

#[test]
fn new_block_is_unmined() {
    let tx = Transaction::new_coinbase("alice".to_string(), String::new()).unwrap();
    let b = Block::new(vec![tx.clone()], "abc".to_string(), 7).unwrap();
    assert_eq!(b.nonce(), 0);
    assert_eq!(b.hash_str(), "empty");
    assert_eq!(b.prev_hash_str(), "abc");
    assert_eq!(b.height(), 7);
    assert_eq!(b.transactions().len(), 1);
    assert_eq!(b.transactions()[0].id, tx.id);
    let c = Block::with_timestamp(Vec::new(), String::new(), 0, 1234);
    assert_eq!(c.timestamp(), 1234);
}

#[test]
fn genesis_block_has_height_zero_and_no_parent() {
    let tx = Transaction::new_coinbase("alice".to_string(), String::new()).unwrap();
    let g = Block::genesis_block(tx);
    assert_eq!(g.height(), 0);
    assert_eq!(g.prev_hash_str(), "");
    assert_eq!(g.nonce(), 0);
    assert_eq!(g.transactions().len(), 1);
}

#[test]
fn hash_is_the_digest_of_the_encoded_content() {
    let tx = Transaction::new_coinbase("alice".to_string(), "m".to_string()).unwrap();
    let b = Block::with_timestamp(vec![tx.clone()], "prev".to_string(), 1, 99);
    let txs = vec![(tx.id.as_str(), vec![("", -1i32, "m")], vec![(100i32, "alice")])];
    let content = ("prev", txs, 99u128, 2usize, 5i32);
    let bytes = bincode::serialize(&content).unwrap();
    assert_eq!(b.prepare_hash_data(2, 5), bytes);
    assert_eq!(b.hash_with_nonce(2, 5), sha256_hex(&bytes));
    assert_ne!(b.hash_with_nonce(2, 5), b.hash_with_nonce(2, 6));
    assert_ne!(b.hash_with_nonce(2, 5), b.hash_with_nonce(3, 5));
    assert_eq!(b.hash_block(), b.hash_with_nonce(TARGET_HEX, 0));
}

#[test]
fn mining_finds_the_least_nonce() {
    let tx = Transaction::new_coinbase("alice".to_string(), "m".to_string()).unwrap();
    for target in 0..3usize {
        let mut b = Block::with_timestamp(vec![tx.clone()], "prev".to_string(), 1, 42);
        assert_eq!(b.mine_target(target), Ok(()));
        assert!(b.validate_target(target));
        assert!(b.hash_str().chars().take(target).all(|c| c == '0'));
        assert_eq!(*b.hash_str(), b.hash_with_nonce(target, b.nonce()));
        for n in 0..b.nonce() {
            assert!(!has_zero_prefix(&b.hash_with_nonce(target, n), target));
        }
        let mut again = Block::with_timestamp(vec![tx.clone()], "prev".to_string(), 1, 42);
        again.mine_target(target).unwrap();
        assert_eq!(again.nonce(), b.nonce());
        assert_eq!(again.hash_str(), b.hash_str());
    }
}

#[test]
fn mine_seals_at_the_fixed_target() {
    let tx = Transaction::new_coinbase("alice".to_string(), "m".to_string()).unwrap();
    let mut b = Block::with_timestamp(vec![tx], String::new(), 0, 7);
    assert!(!b.is_sealed());
    assert_eq!(b.mine(), Ok(()));
    assert!(b.validate());
    assert!(b.is_sealed());
    assert!(b.hash_str().starts_with(&"0".repeat(TARGET_HEX)));
    let nonce = b.nonce();
    assert_eq!(b.mine(), Ok(()));
    assert_eq!(b.nonce(), nonce);
}

#[test]
fn mining_gives_up_after_the_largest_nonce() {
    let raw = (5u128, Vec::<(String, Vec<(String, i32, String)>, Vec<(i32, String)>)>::new(), "p", "empty", 1usize, i32::MAX - 2);
    let mut b = Block::from_record(&bincode::serialize(&raw).unwrap()).unwrap();
    assert_eq!(b.mine_target(65), Err(ChainError::NonceExhausted));
    assert_eq!(b.nonce(), i32::MAX - 2);
    assert_eq!(b.hash_str(), "empty");
}

#[test]
fn record_round_trip_keeps_every_field() {
    let tx = Transaction::new_coinbase("alice".to_string(), "m".to_string()).unwrap();
    let pay = spend("s1", &tx, 0, "alice", "bob", 30);
    let mut b = Block::with_timestamp(vec![tx.clone(), pay.clone()], "prev".to_string(), 4, 1717);
    b.mine_target(2).unwrap();
    let record = b.to_record();
    let back = Block::from_record(&record).unwrap();
    assert_eq!(back.timestamp(), b.timestamp());
    assert_eq!(back.prev_hash_str(), b.prev_hash_str());
    assert_eq!(back.hash_str(), b.hash_str());
    assert_eq!(back.height(), b.height());
    assert_eq!(back.nonce(), b.nonce());
    assert_eq!(back.transactions().len(), 2);
    for (x, y) in back.transactions().iter().zip(b.transactions().iter()) {
        assert_eq!(x.id, y.id);
        assert_eq!(x.v_in.len(), y.v_in.len());
        for (i, j) in x.v_in.iter().zip(y.v_in.iter()) {
            assert_eq!(i.tx_id, j.tx_id);
            assert_eq!(i.v_out, j.v_out);
            assert_eq!(i.script_sig, j.script_sig);
        }
        assert_eq!(x.v_out.len(), y.v_out.len());
        for (o, p) in x.v_out.iter().zip(y.v_out.iter()) {
            assert_eq!(o.value, p.value);
            assert_eq!(o.script_pub_key, p.script_pub_key);
        }
    }
    assert_eq!(back.hash_with_nonce(2, back.nonce()), *b.hash_str());
    assert!(back.validate_target(2));
    assert_eq!(back.to_record(), record);
}

#[test]
fn record_is_the_encoding_of_the_six_fields() {
    let b = Block::with_timestamp(Vec::new(), "p".to_string(), 3, 11);
    let raw = (11u128, Vec::<(String, Vec<(String, i32, String)>, Vec<(i32, String)>)>::new(), "p", "empty", 3usize, 0i32);
    assert_eq!(b.to_record(), bincode::serialize(&raw).unwrap());
}

#[test]
fn unreadable_record_gives_no_block() {
    assert!(Block::from_record(&[1, 2, 3]).is_none());
    assert!(Block::from_record(&[]).is_none());
}

#[test]
fn clone_keeps_a_block() {
    let tx = Transaction::new_coinbase("alice".to_string(), "m".to_string()).unwrap();
    let b = Block::with_timestamp(vec![tx], "prev".to_string(), 4, 1717);
    let c = b.clone();
    assert_eq!(c.to_record(), b.to_record());
}

#[test]
fn marks_are_found_by_id_and_index() {
    let spent = vec![("t1".to_string(), 0), ("t2".to_string(), 3), ("t3".to_string(), -1)];
    assert!(is_marked(&spent, &"t1".to_string(), 0));
    assert!(is_marked(&spent, &"t2".to_string(), 3));
    assert!(!is_marked(&spent, &"t2".to_string(), 0));
    assert!(!is_marked(&spent, &"t4".to_string(), 0));
    assert!(!is_marked(&Vec::new(), &"t1".to_string(), 0));
}

#[test]
fn coinbase_marks_nothing_and_a_spend_marks_what_it_unlocks() {
    let cb = Transaction::new_coinbase("alice".to_string(), "alice".to_string()).unwrap();
    let mut spent: Vec<(String, i32)> = Vec::new();
    mark_spent(&mut spent, &cb, "alice");
    assert!(spent.is_empty());
    let pay = spend("s1", &cb, 0, "alice", "bob", 30);
    mark_spent(&mut spent, &pay, "bob");
    assert!(spent.is_empty());
    mark_spent(&mut spent, &pay, "alice");
    assert_eq!(spent, vec![(cb.id.clone(), 0)]);
    assert!(!has_unspent(&spent, &cb, "alice"));
    assert!(has_unspent(&Vec::new(), &cb, "alice"));
    assert!(!has_unspent(&Vec::new(), &cb, "bob"));
}

#[test]
fn genesis_reward_is_the_only_unspent_output() {
    let cb = Transaction::new_coinbase("alice".to_string(), String::new()).unwrap();
    let chain = vec![Block::genesis_block(cb.clone())];
    let txs = unspent_transactions(&chain, "alice");
    assert_eq!(txs.len(), 1);
    assert_eq!(txs[0].id, cb.id);
    let outs = unspent_outputs(&txs, "alice");
    assert_eq!(outs.len(), 1);
    assert_eq!(outs[0].value, 100);
    assert_eq!(outs[0].script_pub_key, "alice");
    let none = unspent_transactions(&chain, "bob");
    assert!(none.is_empty());
    assert!(unspent_outputs(&none, "bob").is_empty());
}

#[test]
fn spent_output_leaves_the_owner_and_reaches_the_payee() {
    let cb = Transaction::new_coinbase("alice".to_string(), String::new()).unwrap();
    let pay = spend("s1", &cb, 0, "alice", "bob", 100);
    let genesis = Block::genesis_block(cb.clone());
    let top = Block::with_timestamp(vec![pay.clone()], "g".to_string(), 1, 5);
    let chain = vec![top, genesis];
    let of_alice = unspent_transactions(&chain, "alice");
    assert!(of_alice.is_empty());
    assert!(unspent_outputs(&of_alice, "alice").is_empty());
    let of_bob = unspent_transactions(&chain, "bob");
    assert_eq!(of_bob.len(), 1);
    assert_eq!(of_bob[0].id, "s1");
    let outs = unspent_outputs(&of_bob, "bob");
    assert_eq!(outs.len(), 1);
    assert_eq!(outs[0].value, 100);
    assert_eq!(outs[0].script_pub_key, "bob");
}

#[test]
fn transaction_with_two_unspent_outputs_is_recorded_once() {
    let tx = Transaction {
        id: "t".to_string(),
        v_in: vec![TXInput { tx_id: "x".to_string(), v_out: 0, script_sig: "carol".to_string() }],
        v_out: vec![
            TXOutput { value: 1, script_pub_key: "alice".to_string() },
            TXOutput { value: 2, script_pub_key: "bob".to_string() },
            TXOutput { value: 3, script_pub_key: "alice".to_string() },
        ],
    };
    let chain = vec![Block::with_timestamp(vec![tx], String::new(), 0, 1)];
    let txs = unspent_transactions(&chain, "alice");
    assert_eq!(txs.len(), 1);
    let outs = unspent_outputs(&txs, "alice");
    assert_eq!(outs.len(), 2);
    assert_eq!(outs[0].value, 1);
    assert_eq!(outs[1].value, 3);
}

#[test]
fn empty_chain_has_no_unspent_outputs() {
    let chain: Vec<Block> = Vec::new();
    assert!(unspent_transactions(&chain, "alice").is_empty());
}

#[test]
fn transaction_and_its_tuple_of_fields_convert_both_ways() {
    let cb = Transaction::new_coinbase("alice".to_string(), "m".to_string()).unwrap();
    let pay = spend("s1", &cb, 0, "alice", "bob", 30);
    let raw = raw_transaction(&pay);
    assert_eq!(raw.0, "s1");
    assert_eq!(raw.1, vec![(cb.id.clone(), 0, "alice".to_string())]);
    assert_eq!(raw.2, vec![(30, "bob".to_string())]);
    let back = transaction_of_raw(raw);
    assert_eq!(back.id, pay.id);
    assert_eq!(back.v_in.len(), 1);
    assert_eq!(back.v_in[0].tx_id, cb.id);
    assert_eq!(back.v_in[0].v_out, 0);
    assert_eq!(back.v_in[0].script_sig, "alice");
    assert_eq!(back.v_out.len(), 1);
    assert_eq!(back.v_out[0].value, 30);
    assert_eq!(back.v_out[0].script_pub_key, "bob");
}

#[test]
fn clones_keep_every_field() {
    let cb = Transaction::new_coinbase("alice".to_string(), "m".to_string()).unwrap();
    let pay = spend("s1", &cb, 0, "alice", "bob", 30);
    let txs = clone_transactions(&vec![cb.clone(), pay.clone()]);
    assert_eq!(txs.len(), 2);
    assert_eq!(txs[0].id, cb.id);
    assert_eq!(txs[1].id, "s1");
    let ins = clone_inputs(&pay.v_in);
    assert_eq!(ins.len(), 1);
    assert_eq!(ins[0].tx_id, cb.id);
    assert_eq!(ins[0].v_out, 0);
    assert_eq!(ins[0].script_sig, "alice");
    let outs = clone_outputs(&pay.v_out);
    assert_eq!(outs.len(), 1);
    assert_eq!(outs[0].value, 30);
    assert_eq!(outs[0].script_pub_key, "bob");
}

#[test]
fn same_text_compares_whole_texts() {
    assert!(same_text(&"abc".to_string(), "abc"));
    assert!(!same_text(&"abc".to_string(), "abd"));
    assert!(!same_text(&"abc".to_string(), "ab"));
    assert!(same_text(&String::new(), ""));
}
