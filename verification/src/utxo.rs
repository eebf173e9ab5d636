//! Derives the unspent outputs of an address from the blocks of a chain.
//!
//! The blocks are scanned from the tip to the genesis block. Every query reads
//! all of them: nothing is kept between queries.
use vstd::prelude::*;
use crate::block::{block_views, Block, BlockView};
use crate::transaction::{
    input_unlocks, is_coinbase_tx, output_locked_to, output_views, tx_views, TXInputView,
    TXOutput, TXOutputView, Transaction, TransactionView,
};

verus! {

/// A reference to an output: the id of its transaction and its index.
pub type OutPoint = (Seq<char>, int);

/// What a scan has gathered so far.
pub struct ScanState {
    /// The outputs that inputs of the address have claimed, in the order met.
    pub spent: Seq<OutPoint>,
    /// The transactions found to hold an unspent output of the address.
    pub unspent: Seq<TransactionView>,
}

pub open spec fn empty_scan() -> ScanState {
    ScanState { spent: Seq::empty(), unspent: Seq::empty() }
}

/// Whether `t` has an output locked to `address` that `spent` does not claim.
pub open spec fn has_unspent_output(
    spent: Seq<OutPoint>,
    t: TransactionView,
    address: Seq<char>,
) -> bool {
    exists|i: int|
        0 <= i < t.v_out.len() && !spent.contains((t.id, i)) && output_locked_to(
            #[trigger] t.v_out[i],
            address,
        )
}

/// The outputs that the first `n` inputs of `t` claim for `address`.
pub open spec fn claims(t: TransactionView, n: int, address: Seq<char>) -> Seq<OutPoint>
    decreases n,
{
    if n <= 0 {
        Seq::empty()
    } else if input_unlocks(t.v_in[n - 1], address) {
        claims(t, n - 1, address).push((t.v_in[n - 1].tx_id, t.v_in[n - 1].v_out as int))
    } else {
        claims(t, n - 1, address)
    }
}

/// The outputs that `t` spends for `address`: none where it is a coinbase.
pub open spec fn marks_of(t: TransactionView, address: Seq<char>) -> Seq<OutPoint> {
    if is_coinbase_tx(t) {
        Seq::empty()
    } else {
        claims(t, t.v_in.len() as int, address)
    }
}

/// The scan after one more transaction: it is kept where it has an output
/// of the address that is not yet claimed, and then its own claims are added.
pub open spec fn scan_tx(s: ScanState, t: TransactionView, address: Seq<char>) -> ScanState {
    ScanState {
        spent: s.spent + marks_of(t, address),
        unspent: if has_unspent_output(s.spent, t, address) {
            s.unspent.push(t)
        } else {
            s.unspent
        },
    }
}

/// The scan after the first `n` transactions of `txs`.
pub open spec fn scan_txs(
    s: ScanState,
    txs: Seq<TransactionView>,
    n: int,
    address: Seq<char>,
) -> ScanState
    decreases n,
{
    if n <= 0 {
        s
    } else {
        scan_tx(scan_txs(s, txs, n - 1, address), txs[n - 1], address)
    }
}

/// The scan after the first `n` blocks of `blocks`.
pub open spec fn scan_blocks(
    s: ScanState,
    blocks: Seq<BlockView>,
    n: int,
    address: Seq<char>,
) -> ScanState
    decreases n,
{
    if n <= 0 {
        s
    } else {
        scan_txs(
            scan_blocks(s, blocks, n - 1, address),
            blocks[n - 1].transactions,
            blocks[n - 1].transactions.len() as int,
            address,
        )
    }
}

/// The transactions of a chain, given from the tip back, that hold an unspent
/// output of `address`.
pub open spec fn unspent_txs_of(blocks: Seq<BlockView>, address: Seq<char>) -> Seq<
    TransactionView,
> {
    scan_blocks(empty_scan(), blocks, blocks.len() as int, address).unspent
}

/// Those of the first `n` outputs that are locked to `address`.
pub open spec fn locked_outputs(outs: Seq<TXOutputView>, n: int, address: Seq<char>) -> Seq<
    TXOutputView,
>
    decreases n,
{
    if n <= 0 {
        Seq::empty()
    } else if output_locked_to(outs[n - 1], address) {
        locked_outputs(outs, n - 1, address).push(outs[n - 1])
    } else {
        locked_outputs(outs, n - 1, address)
    }
}

/// The outputs locked to `address` in the first `n` of `txs`.
pub open spec fn spendable_outputs(txs: Seq<TransactionView>, n: int, address: Seq<char>) -> Seq<
    TXOutputView,
>
    decreases n,
{
    if n <= 0 {
        Seq::empty()
    } else {
        spendable_outputs(txs, n - 1, address) + locked_outputs(
            txs[n - 1].v_out,
            txs[n - 1].v_out.len() as int,
            address,
        )
    }
}

/// The outputs that `address` can spend on a chain given from the tip back.
pub open spec fn utxo_of(blocks: Seq<BlockView>, address: Seq<char>) -> Seq<TXOutputView> {
    let txs = unspent_txs_of(blocks, address);
    spendable_outputs(txs, txs.len() as int, address)
}

pub open spec fn outpoint_views(v: Seq<(String, i32)>) -> Seq<OutPoint> {
    Seq::new(v.len(), |i: int| (v[i].0@, v[i].1 as int))
}

/// Whether `spent` claims output `index` of the transaction `id`.
pub fn is_marked(spent: &Vec<(String, i32)>, id: &String, index: usize) -> (r: bool)
    ensures
        r == outpoint_views(spent@).contains((id@, index as int)),
{
    let mut j: usize = 0;
    while j < spent.len()
        invariant
            j <= spent.len(),
            forall|k: int| 0 <= k < j ==> outpoint_views(spent@)[k] != (id@, index as int),
        decreases spent.len() - j,
    {
        if spent[j].1 >= 0 && spent[j].1 as usize == index && spent[j].0 == *id {
            assert(outpoint_views(spent@)[j as int] == (id@, index as int));
            return true;
        }
        j += 1;
    }
    false
}

/// Whether `tx` has an output locked to `address` that `spent` does not claim.
pub fn has_unspent(spent: &Vec<(String, i32)>, tx: &Transaction, address: &str) -> (r: bool)
    ensures
        r == has_unspent_output(outpoint_views(spent@), tx@, address@),
{
    let mut i: usize = 0;
    while i < tx.v_out.len()
        invariant
            i <= tx.v_out.len(),
            forall|k: int|
                0 <= k < i ==> !(!outpoint_views(spent@).contains((tx@.id, k)) && output_locked_to(
                    #[trigger] tx@.v_out[k],
                    address@,
                )),
        decreases tx.v_out.len() - i,
    {
        if !is_marked(spent, &tx.id, i) && tx.v_out[i].can_be_unlock_with(address) {
            assert(output_locked_to(tx@.v_out[i as int], address@));
            return true;
        }
        i += 1;
    }
    false
}

/// Adds to `spent` what `tx` spends for `address`.
pub fn mark_spent(spent: &mut Vec<(String, i32)>, tx: &Transaction, address: &str)
    ensures
        outpoint_views(final(spent)@) == outpoint_views(old(spent)@) + marks_of(tx@, address@),
{
    if tx.is_coinbase() {
        assert(outpoint_views(spent@) + Seq::<OutPoint>::empty() =~= outpoint_views(spent@));
        return ;
    }
    let mut k: usize = 0;
    assert(outpoint_views(spent@) + claims(tx@, 0, address@) =~= outpoint_views(spent@));
    while k < tx.v_in.len()
        invariant
            k <= tx.v_in.len(),
            outpoint_views(spent@) == outpoint_views(old(spent)@) + claims(tx@, k as int, address@),
        decreases tx.v_in.len() - k,
    {
        let ghost before = outpoint_views(spent@);
        if tx.v_in[k].can_unlock_output_with(address) {
            spent.push((tx.v_in[k].tx_id.clone(), tx.v_in[k].v_out));
            assert(outpoint_views(spent@) =~= before.push(
                (tx@.v_in[k as int].tx_id, tx@.v_in[k as int].v_out as int),
            ));
            assert(outpoint_views(spent@) =~= outpoint_views(old(spent)@) + claims(
                tx@,
                k + 1,
                address@,
            ));
        }
        k += 1;
    }
}

/// Scans `blocks`, given from the tip back to the genesis block, for the
/// transactions that hold an unspent output of `address`.
pub fn unspent_transactions(blocks: &Vec<Block>, address: &str) -> (r: Vec<Transaction>)
    ensures
        tx_views(r@) == unspent_txs_of(block_views(blocks@), address@),
{
    let mut spent: Vec<(String, i32)> = Vec::new();
    let mut unspent: Vec<Transaction> = Vec::new();
    let ghost bv = block_views(blocks@);
    let mut b: usize = 0;
    assert(outpoint_views(spent@) =~= Seq::<OutPoint>::empty());
    assert(tx_views(unspent@) =~= Seq::<TransactionView>::empty());
    while b < blocks.len()
        invariant
            b <= blocks.len(),
            bv == block_views(blocks@),
            (ScanState { spent: outpoint_views(spent@), unspent: tx_views(unspent@) })
                == scan_blocks(empty_scan(), bv, b as int, address@),
        decreases blocks.len() - b,
    {
        let txs: &Vec<Transaction> = blocks[b].transactions();
        let ghost start = scan_blocks(empty_scan(), bv, b as int, address@);
        let ghost tv = bv[b as int].transactions;
        let mut t: usize = 0;
        while t < txs.len()
            invariant
                t <= txs.len(),
                tv == tx_views(txs@),
                (ScanState { spent: outpoint_views(spent@), unspent: tx_views(unspent@) })
                    == scan_txs(start, tv, t as int, address@),
            decreases txs.len() - t,
        {
            let tx: &Transaction = &txs[t];
            let ghost found = tx_views(unspent@);
            assert(tx@ == tv[t as int]);
            if has_unspent(&spent, tx, address) {
                unspent.push(tx.clone());
                assert(tx_views(unspent@) =~= found.push(tx@));
            }
            mark_spent(&mut spent, tx, address);
            t += 1;
        }
        b += 1;
    }
    unspent
}

/// Gathers, from the transactions of a scan, the outputs locked to `address`.
pub fn unspent_outputs(txs: &Vec<Transaction>, address: &str) -> (r: Vec<TXOutput>)
    ensures
        output_views(r@) == spendable_outputs(tx_views(txs@), txs@.len() as int, address@),
{
    let mut utxos: Vec<TXOutput> = Vec::new();
    let ghost tv = tx_views(txs@);
    let mut i: usize = 0;
    assert(output_views(utxos@) =~= Seq::<TXOutputView>::empty());
    while i < txs.len()
        invariant
            i <= txs.len(),
            tv == tx_views(txs@),
            output_views(utxos@) == spendable_outputs(tv, i as int, address@),
        decreases txs.len() - i,
    {
        let tx: &Transaction = &txs[i];
        let ghost base = output_views(utxos@);
        let mut k: usize = 0;
        assert(base + locked_outputs(tx@.v_out, 0, address@) =~= base);
        while k < tx.v_out.len()
            invariant
                k <= tx.v_out.len(),
                output_views(utxos@) == base + locked_outputs(tx@.v_out, k as int, address@),
            decreases tx.v_out.len() - k,
        {
            let ghost before = output_views(utxos@);
            if tx.v_out[k].can_be_unlock_with(address) {
                utxos.push(tx.v_out[k].clone());
                assert(output_views(utxos@) =~= before.push(tx@.v_out[k as int]));
                assert(output_views(utxos@) =~= base + locked_outputs(
                    tx@.v_out,
                    k + 1,
                    address@,
                ));
            }
            k += 1;
        }
        assert(tx@ == tv[i as int]);
        i += 1;
    }
    utxos
}

/// A transaction whose outputs for `address` are all claimed already is not
/// recorded by the scan.
pub proof fn claimed_outputs_are_not_found(s: ScanState, t: TransactionView, address: Seq<char>)
    requires
        forall|i: int|
            0 <= i < t.v_out.len() && output_locked_to(#[trigger] t.v_out[i], address)
                ==> s.spent.contains((t.id, i)),
    ensures
        scan_tx(s, t, address).unspent == s.unspent,
{
}

/// The claims of a transaction hold the output that each of its inputs
/// unlocking for `address` refers to.
pub proof fn claims_hold_each_unlocked_reference(
    t: TransactionView,
    n: int,
    k: int,
    address: Seq<char>,
)
    requires
        0 <= k < n <= t.v_in.len(),
        input_unlocks(t.v_in[k], address),
    ensures
        claims(t, n, address).contains((t.v_in[k].tx_id, t.v_in[k].v_out as int)),
    decreases n,
{
    let c = claims(t, n, address);
    if k == n - 1 {
        assert(c[c.len() - 1] == (t.v_in[k].tx_id, t.v_in[k].v_out as int));
    } else {
        claims_hold_each_unlocked_reference(t, n - 1, k, address);
        let p = claims(t, n - 1, address);
        let j = choose|j: int| 0 <= j < p.len() && p[j] == (t.v_in[k].tx_id, t.v_in[k].v_out as int);
        assert(c[j] == p[j]);
    }
}

/// What was claimed stays claimed as the scan goes on through transactions.
pub proof fn claims_persist(
    s: ScanState,
    txs: Seq<TransactionView>,
    n: int,
    address: Seq<char>,
    point: OutPoint,
)
    requires
        s.spent.contains(point),
    ensures
        scan_txs(s, txs, n, address).spent.contains(point),
    decreases n,
{
    if n > 0 {
        claims_persist(s, txs, n - 1, address, point);
        let before = scan_txs(s, txs, n - 1, address).spent;
        let j = choose|j: int| 0 <= j < before.len() && before[j] == point;
        let after = scan_txs(s, txs, n, address).spent;
        assert(after[j] == before[j]);
    }
}

/// Once a transaction that is no coinbase has spent, for `address`, the only
/// output of `t` locked to `address`, a scan that meets `t` later does not
/// record it: the scan grows by the spending transaction `u`, by any `between`,
/// and then leaves `t` out.
pub proof fn spent_output_is_not_found_later(
    s: ScanState,
    u: TransactionView,
    between: Seq<TransactionView>,
    t: TransactionView,
    k: int,
    index: int,
    address: Seq<char>,
)
    requires
        !is_coinbase_tx(u),
        0 <= k < u.v_in.len(),
        input_unlocks(u.v_in[k], address),
        u.v_in[k].tx_id == t.id,
        u.v_in[k].v_out == index,
        forall|i: int|
            0 <= i < t.v_out.len() && output_locked_to(#[trigger] t.v_out[i], address) ==> i
                == index,
    ensures
        scan_tx(
            scan_txs(scan_tx(s, u, address), between, between.len() as int, address),
            t,
            address,
        ).unspent == scan_txs(
            scan_tx(s, u, address),
            between,
            between.len() as int,
            address,
        ).unspent,
{
    let point = (t.id, index);
    claims_hold_each_unlocked_reference(u, u.v_in.len() as int, k, address);
    let marks = marks_of(u, address);
    let j = choose|j: int| 0 <= j < marks.len() && marks[j] == point;
    let first = scan_tx(s, u, address);
    assert(first.spent[s.spent.len() + j] == point);
    claims_persist(first, between, between.len() as int, address, point);
    let met = scan_txs(first, between, between.len() as int, address);
    claimed_outputs_are_not_found(met, t, address);
}

/// The scan of a chain of one block that holds one transaction.
proof fn scan_of_one(g: BlockView, t: TransactionView, address: Seq<char>)
    requires
        g.transactions == seq![t],
    ensures
        scan_blocks(empty_scan(), seq![g], 1, address) == scan_tx(empty_scan(), t, address),
{
    reveal_with_fuel(scan_blocks, 2);
    reveal_with_fuel(scan_txs, 2);
    assert(seq![g][0] == g);
    assert(g.transactions[0] == t);
}

/// The scan of a chain of two blocks that hold one transaction each.
proof fn scan_of_two(
    top: BlockView,
    s: TransactionView,
    g: BlockView,
    t: TransactionView,
    address: Seq<char>,
)
    requires
        top.transactions == seq![s],
        g.transactions == seq![t],
    ensures
        scan_blocks(empty_scan(), seq![top, g], 2, address) == scan_tx(
            scan_tx(empty_scan(), s, address),
            t,
            address,
        ),
{
    reveal_with_fuel(scan_blocks, 3);
    reveal_with_fuel(scan_txs, 2);
    assert(seq![top, g][0] == top);
    assert(seq![top, g][1] == g);
    assert(top.transactions[0] == s);
    assert(g.transactions[0] == t);
}

/// The outputs gathered from one transaction with one output.
proof fn outputs_of_one(t: TransactionView, o: TXOutputView, address: Seq<char>)
    requires
        t.v_out == seq![o],
    ensures
        spendable_outputs(seq![t], 1, address) == if output_locked_to(o, address) {
            seq![o]
        } else {
            Seq::empty()
        },
        spendable_outputs(Seq::empty(), 0, address) == Seq::<TXOutputView>::empty(),
{
    reveal_with_fuel(spendable_outputs, 2);
    reveal_with_fuel(locked_outputs, 2);
    assert(seq![t][0] == t);
    assert(t.v_out[0] == o);
    let got = locked_outputs(t.v_out, 1, address);
    assert(Seq::<TXOutputView>::empty() + got =~= got);
    assert(Seq::<TXOutputView>::empty().push(o) =~= seq![o]);
}

/// On a chain that holds only a genesis block with a coinbase transaction
/// paying `reward` to `a`, the outputs that `a` can spend are exactly that
/// one, and any other address `b` can spend nothing.
pub proof fn genesis_reward_is_the_only_output(
    g: BlockView,
    t: TransactionView,
    a: Seq<char>,
    b: Seq<char>,
    reward: i32,
)
    requires
        g.transactions == seq![t],
        is_coinbase_tx(t),
        t.v_out == seq![TXOutputView { value: reward, script_pub_key: a }],
        a != b,
    ensures
        utxo_of(seq![g], a) == seq![TXOutputView { value: reward, script_pub_key: a }],
        utxo_of(seq![g], b) == Seq::<TXOutputView>::empty(),
{
    let o = TXOutputView { value: reward, script_pub_key: a };
    scan_of_one(g, t, a);
    scan_of_one(g, t, b);
    outputs_of_one(t, o, a);
    outputs_of_one(t, o, b);
    assert(t.v_out[0] == o);
    assert(!empty_scan().spent.contains((t.id, 0int)));
    assert(has_unspent_output(empty_scan().spent, t, a));
    assert(!has_unspent_output(empty_scan().spent, t, b));
    assert(unspent_txs_of(seq![g], a) =~= seq![t]);
    assert(unspent_txs_of(seq![g], b) =~= Seq::<TransactionView>::empty());
}

/// After a transaction that spends the genesis reward of `a` and pays `b`, the
/// reward is no longer among the outputs that `a` can spend, and the new
/// output is what `b` can spend. The chain is given from the tip back: the
/// block with the spending transaction `s`, then the genesis block with the
/// coinbase transaction `t`.
pub proof fn spent_reward_moves_to_the_payee(
    top: BlockView,
    s: TransactionView,
    g: BlockView,
    t: TransactionView,
    a: Seq<char>,
    b: Seq<char>,
    reward: i32,
    paid: i32,
)
    requires
        top.transactions == seq![s],
        g.transactions == seq![t],
        is_coinbase_tx(t),
        t.v_out == seq![TXOutputView { value: reward, script_pub_key: a }],
        s.v_in == seq![TXInputView { tx_id: t.id, v_out: 0i32, script_sig: a }],
        s.v_out == seq![TXOutputView { value: paid, script_pub_key: b }],
        a != b,
    ensures
        utxo_of(seq![top, g], a) == Seq::<TXOutputView>::empty(),
        utxo_of(seq![top, g], b) == seq![TXOutputView { value: paid, script_pub_key: b }],
{
    let o = TXOutputView { value: reward, script_pub_key: a };
    let p = TXOutputView { value: paid, script_pub_key: b };
    let i = TXInputView { tx_id: t.id, v_out: 0i32, script_sig: a };
    scan_of_two(top, s, g, t, a);
    scan_of_two(top, s, g, t, b);
    outputs_of_one(s, p, b);
    assert(t.v_out[0] == o);
    assert(s.v_out[0] == p);
    assert(s.v_in[0] == i);
    assert(!is_coinbase_tx(s));
    reveal_with_fuel(claims, 2);
    assert(claims(s, 1, a) =~= seq![(t.id, 0int)]);
    assert(claims(s, 1, b) =~= Seq::<OutPoint>::empty());
    let none = Seq::<OutPoint>::empty();
    assert(none + seq![(t.id, 0int)] =~= seq![(t.id, 0int)]);
    assert(none + none =~= none);
    assert(seq![(t.id, 0int)][0] == (t.id, 0int));
    assert(seq![(t.id, 0int)].contains((t.id, 0int)));
    assert(!none.contains((s.id, 0int)));
    assert(!has_unspent_output(none, s, a));
    assert(has_unspent_output(none, s, b));
    assert(!has_unspent_output(seq![(t.id, 0int)], t, a));
    assert(!has_unspent_output(none, t, b));
    assert(unspent_txs_of(seq![top, g], a) =~= Seq::<TransactionView>::empty());
    assert(unspent_txs_of(seq![top, g], b) =~= seq![s]);
}


} // verus!
