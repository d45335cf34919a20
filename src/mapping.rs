use vstd::prelude::*;
use crate::error::IndexError;
use crate::hash::H256;
use crate::meta::copy_vec;
use crate::table::Table;

verus! {

/// The index entries of one host block.
pub struct MappingCommitment {
    pub block_hash: H256,
    pub ethereum_block_hash: H256,
    pub ethereum_transaction_hashes: Vec<H256>,
}

/// Where one execution transaction was found.
#[derive(Clone, Copy, PartialEq, Eq, Structural, Debug)]
pub struct TransactionMetadata {
    pub block_hash: H256,
    pub ethereum_block_hash: H256,
    pub ethereum_index: u32,
}

/// What the mapping store holds.
pub struct MappingView {
    /// Execution block hash to host block hash.
    pub block_mapping: Map<H256, H256>,
    /// Host block hash to execution block hash.
    pub block_hash_mapping: Map<H256, H256>,
    /// Execution block hash to the hashes of its transactions.
    pub block_transactions: Map<H256, Seq<H256>>,
    /// Execution transaction hash to the places it was found.
    pub transaction_mapping: Map<H256, Seq<TransactionMetadata>>,
}

/// `m` after storing each pair of `ups` in order, the later winning.
pub open spec fn set_all<K, V>(m: Map<K, V>, ups: Seq<(K, V)>) -> Map<K, V>
    decreases ups.len(),
{
    if ups.len() == 0 {
        m
    } else {
        set_all(m, ups.drop_last()).insert(ups.last().0, ups.last().1)
    }
}

impl MappingView {
    pub open spec fn empty() -> MappingView {
        MappingView {
            block_mapping: Map::empty(),
            block_hash_mapping: Map::empty(),
            block_transactions: Map::empty(),
            transaction_mapping: Map::empty(),
        }
    }

    /// The transactions stored for execution block `eth`, empty if none.
    pub open spec fn transactions_of(self, eth: H256) -> Seq<H256> {
        if self.block_transactions.contains_key(eth) {
            self.block_transactions[eth]
        } else {
            Seq::empty()
        }
    }

    /// The records stored for execution transaction `tx`, empty if none.
    pub open spec fn records_of(self, tx: H256) -> Seq<TransactionMetadata> {
        if self.transaction_mapping.contains_key(tx) {
            self.transaction_mapping[tx]
        } else {
            Seq::empty()
        }
    }

    /// For the transaction at each position of `txs`: its stored records with
    /// one record for this position appended.
    pub open spec fn record_updates(self, host: H256, eth: H256, txs: Seq<H256>) -> Seq<
        (H256, Seq<TransactionMetadata>),
    > {
        Seq::new(
            txs.len(),
            |i: int|
                (
                    txs[i],
                    self.records_of(txs[i]).push(
                        TransactionMetadata {
                            block_hash: host,
                            ethereum_block_hash: eth,
                            ethereum_index: i as u32,
                        },
                    ),
                ),
        )
    }

    /// The store after committing the block `host` with execution block `eth`
    /// and transactions `txs`.
    pub open spec fn after_write(self, host: H256, eth: H256, txs: Seq<H256>) -> MappingView {
        MappingView {
            block_mapping: self.block_mapping.insert(eth, host),
            block_hash_mapping: self.block_hash_mapping.insert(host, eth),
            block_transactions: if txs.len() > 0 {
                self.block_transactions.insert(eth, txs)
            } else {
                self.block_transactions
            },
            transaction_mapping: set_all(
                self.transaction_mapping,
                self.record_updates(host, eth, txs),
            ),
        }
    }

    /// The store after rolling back host block `host`: both block mappings
    /// go, and so do all records of every transaction of its execution block.
    pub open spec fn after_rollback(self, host: H256) -> MappingView {
        let eth = self.block_hash_mapping[host];
        let txs = self.transactions_of(eth);
        MappingView {
            block_mapping: self.block_mapping.remove(eth),
            block_hash_mapping: self.block_hash_mapping.remove(host),
            block_transactions: self.block_transactions,
            transaction_mapping: Map::new(
                |k: H256| self.transaction_mapping.contains_key(k) && !txs.contains(k),
                |k: H256| self.transaction_mapping[k],
            ),
        }
    }
}

/// The mapping store. Its mutating methods take `&mut self`, so that no two
/// of them can ever interleave on one store.
pub struct MappingDb {
    block_mapping: Table<H256, H256>,
    block_hash_mapping: Table<H256, H256>,
    block_transactions: Table<H256, Vec<H256>>,
    transaction_mapping: Table<H256, Vec<TransactionMetadata>>,
}

impl View for MappingDb {
    type V = MappingView;

    closed spec fn view(&self) -> MappingView {
        MappingView {
            block_mapping: self.block_mapping@,
            block_hash_mapping: self.block_hash_mapping@,
            block_transactions: self.block_transactions@.map_values(|v: Vec<H256>| v@),
            transaction_mapping: self.transaction_mapping@.map_values(
                |v: Vec<TransactionMetadata>| v@,
            ),
        }
    }
}

impl MappingDb {
    pub closed spec fn wf(&self) -> bool {
        &&& self.block_mapping.wf()
        &&& self.block_hash_mapping.wf()
        &&& self.block_transactions.wf()
        &&& self.transaction_mapping.wf()
    }

    /// An empty mapping store.
    pub fn new() -> (r: MappingDb)
        ensures
            r.wf(),
            r@ == MappingView::empty(),
    {
        let r = MappingDb {
            block_mapping: Table::new(),
            block_hash_mapping: Table::new(),
            block_transactions: Table::new(),
            transaction_mapping: Table::new(),
        };
        assert(r@.block_transactions =~= Map::empty());
        assert(r@.transaction_mapping =~= Map::empty());
        r
    }

    /// The host block hash mapped to execution block `ethereum_block_hash`.
    pub fn block_hash(&self, ethereum_block_hash: &H256) -> (r: Option<H256>)
        requires
            self.wf(),
        ensures
            match r {
                Some(h) => self@.block_mapping.contains_key(*ethereum_block_hash)
                    && h == self@.block_mapping[*ethereum_block_hash],
                None => !self@.block_mapping.contains_key(*ethereum_block_hash),
            },
    {
        match self.block_mapping.get(ethereum_block_hash) {
            Some(h) => Some(*h),
            None => None,
        }
    }

    /// The execution block hash mapped to host block `block_hash`.
    pub fn eth_block_hash_from_substrate_hash(&self, block_hash: &H256) -> (r: Result<
        H256,
        IndexError,
    >)
        requires
            self.wf(),
        ensures
            self@.block_hash_mapping.contains_key(*block_hash) ==> r == Ok::<H256, IndexError>(
                self@.block_hash_mapping[*block_hash],
            ),
            !self@.block_hash_mapping.contains_key(*block_hash) ==> r == Err::<H256, IndexError>(
                IndexError::UnknownBlockHash(*block_hash),
            ),
    {
        match self.block_hash_mapping.get(block_hash) {
            Some(h) => Ok(*h),
            None => Err(IndexError::UnknownBlockHash(*block_hash)),
        }
    }

    /// The transaction hashes of execution block `eth_hash`, empty if none.
    pub fn eth_transactions(&self, eth_hash: &H256) -> (r: Vec<H256>)
        requires
            self.wf(),
        ensures
            r@ == self@.transactions_of(*eth_hash),
    {
        match self.block_transactions.get(eth_hash) {
            Some(v) => copy_vec(v),
            None => Vec::new(),
        }
    }

    /// The records of execution transaction `ethereum_transaction_hash`,
    /// empty if none.
    pub fn transaction_metadata(&self, ethereum_transaction_hash: &H256) -> (r: Vec<
        TransactionMetadata,
    >)
        requires
            self.wf(),
        ensures
            r@ == self@.records_of(*ethereum_transaction_hash),
    {
        match self.transaction_mapping.get(ethereum_transaction_hash) {
            Some(v) => copy_vec(v),
            None => Vec::new(),
        }
    }

    /// Records that host block `block_hash` carries no execution content.
    /// Nothing is stored for it: later lookups see such a block as unindexed.
    pub fn write_none(&mut self, block_hash: H256)
        requires
            old(self).wf(),
        ensures
            final(self).wf(),
            final(self)@ == old(self)@,
    {
    }

    /// Commits the index entries of one host block: both block mappings, the
    /// execution block's transaction list when it is not empty, and for each
    /// transaction one more record holding its position in the list.
    pub fn write_hashes(&mut self, commitment: MappingCommitment)
        requires
            old(self).wf(),
            commitment.ethereum_transaction_hashes@.len() <= u32::MAX + 1,
        ensures
            final(self).wf(),
            final(self)@ == old(self)@.after_write(
                commitment.block_hash,
                commitment.ethereum_block_hash,
                commitment.ethereum_transaction_hashes@,
            ),
    {
        let ghost start = self@;
        let host = commitment.block_hash;
        let eth = commitment.ethereum_block_hash;
        let txs = commitment.ethereum_transaction_hashes;
        let ghost ups = start.record_updates(host, eth, txs@);
        let mut updates: Vec<(H256, Vec<TransactionMetadata>)> = Vec::new();
        let mut i: usize = 0;
        while i < txs.len()
            invariant
                self.wf(),
                self@ == start,
                ups == start.record_updates(host, eth, txs@),
                txs@.len() <= u32::MAX + 1,
                i <= txs@.len(),
                updates@.len() == i,
                forall|j: int|
                    0 <= j < i ==> (#[trigger] updates@[j]).0 == ups[j].0 && updates@[j].1@
                        == ups[j].1,
            decreases txs@.len() - i,
        {
            let mut records = self.transaction_metadata(&txs[i]);
            records.push(
                TransactionMetadata {
                    block_hash: host,
                    ethereum_block_hash: eth,
                    ethereum_index: i as u32,
                },
            );
            updates.push((txs[i], records));
            i = i + 1;
        }
        self.block_mapping.set(eth, host);
        self.block_hash_mapping.set(host, eth);
        if txs.len() > 0 {
            self.block_transactions.set(eth, txs);
        }
        let mut j: usize = 0;
        while j < updates.len()
            invariant
                self.block_mapping.wf(),
                self.block_hash_mapping.wf(),
                self.block_transactions.wf(),
                self.transaction_mapping.wf(),
                j <= updates@.len(),
                updates@.len() == ups.len(),
                forall|k: int|
                    0 <= k < ups.len() ==> (#[trigger] updates@[k]).0 == ups[k].0 && updates@[k].1@
                        == ups[k].1,
                self@.transaction_mapping == set_all(
                    start.transaction_mapping,
                    ups.subrange(0, j as int),
                ),
                self.block_mapping@ == start.block_mapping.insert(eth, host),
                self.block_hash_mapping@ == start.block_hash_mapping.insert(host, eth),
                self@.block_transactions == start.after_write(host, eth, txs@).block_transactions,
            decreases updates@.len() - j,
        {
            let records = copy_vec(&updates[j].1);
            self.transaction_mapping.set(updates[j].0, records);
            proof {
                let pre = ups.subrange(0, j as int);
                let post = ups.subrange(0, j + 1);
                assert(post.drop_last() =~= pre);
                assert(self@.transaction_mapping =~= set_all(start.transaction_mapping, pre).insert(
                    ups[j as int].0,
                    ups[j as int].1,
                ));
            }
            j = j + 1;
        }
        assert(ups.subrange(0, ups.len() as int) =~= ups);
        assert(self@.block_transactions =~= start.after_write(host, eth, txs@).block_transactions);
    }

    /// Removes the index entries of host block `hash`: both block mappings,
    /// and every record of every transaction of its execution block. Fails,
    /// changing nothing, when `hash` is not mapped.
    pub fn rollback_block_by_id(&mut self, hash: &H256) -> (r: Result<(), IndexError>)
        requires
            old(self).wf(),
        ensures
            final(self).wf(),
            old(self)@.block_hash_mapping.contains_key(*hash) ==> r == Ok::<(), IndexError>(())
                && final(self)@ == old(self)@.after_rollback(*hash),
            !old(self)@.block_hash_mapping.contains_key(*hash) ==> r == Err::<(), IndexError>(
                IndexError::UnknownBlockHash(*hash),
            ) && final(self)@ == old(self)@,
    {
        let ghost start = self@;
        let eth_block_hash = match self.eth_block_hash_from_substrate_hash(hash) {
            Ok(h) => h,
            Err(e) => {
                return Err(e);
            },
        };
        let txes = self.eth_transactions(&eth_block_hash);
        let mut i: usize = 0;
        while i < txes.len()
            invariant
                self.wf(),
                i <= txes@.len(),
                txes@ == start.transactions_of(eth_block_hash),
                self@.block_mapping == start.block_mapping,
                self@.block_hash_mapping == start.block_hash_mapping,
                self@.block_transactions == start.block_transactions,
                self@.transaction_mapping == Map::new(
                    |k: H256|
                        start.transaction_mapping.contains_key(k) && !txes@.subrange(
                            0,
                            i as int,
                        ).contains(k),
                    |k: H256| start.transaction_mapping[k],
                ),
            decreases txes@.len() - i,
        {
            let ghost prev = self@.transaction_mapping;
            self.transaction_mapping.remove(&txes[i]);
            proof {
                assert(self@.transaction_mapping =~= prev.remove(txes@[i as int]));
                let pre = txes@.subrange(0, i as int);
                let post = txes@.subrange(0, i + 1);
                assert forall|k: H256| post.contains(k) <==> pre.contains(k) || k == txes@[i as int] by {
                    if pre.contains(k) {
                        let w = choose|w: int| 0 <= w < pre.len() && pre[w] == k;
                        assert(post[w] == k);
                    }
                    if post.contains(k) && k != txes@[i as int] {
                        let w = choose|w: int| 0 <= w < post.len() && post[w] == k;
                        assert(pre[w] == k);
                    }
                    if k == txes@[i as int] {
                        assert(post[i as int] == k);
                    }
                }
                assert(self@.transaction_mapping =~= Map::new(
                    |k: H256| start.transaction_mapping.contains_key(k) && !post.contains(k),
                    |k: H256| start.transaction_mapping[k],
                ));
            }
            i = i + 1;
        }
        self.block_mapping.remove(&eth_block_hash);
        self.block_hash_mapping.remove(hash);
        assert(txes@.subrange(0, txes@.len() as int) =~= txes@);
        assert(self@.block_transactions =~= start.after_rollback(*hash).block_transactions);
        Ok(())
    }
}

/// In `set_all`, a pair whose key no later pair repeats is what stays.
proof fn lemma_set_all_keeps_last<K, V>(m: Map<K, V>, ups: Seq<(K, V)>, i: int)
    requires
        0 <= i < ups.len(),
        forall|j: int| i < j < ups.len() ==> ups[j].0 != ups[i].0,
    ensures
        set_all(m, ups).contains_key(ups[i].0),
        set_all(m, ups)[ups[i].0] == ups[i].1,
    decreases ups.len(),
{
    if i < ups.len() - 1 {
        let rest = ups.drop_last();
        assert forall|j: int| i < j < rest.len() implies rest[j].0 != rest[i].0 by {
            assert(rest[j] == ups[j]);
        }
        lemma_set_all_keeps_last(m, rest, i);
        assert(rest[i] == ups[i]);
    }
}

/// After a block is committed, its execution block leads to it, it leads to
/// its execution block, and the execution block lists its transactions,
/// unless the list is empty and an earlier list was stored for that block.
pub proof fn lemma_write_then_lookup(v: MappingView, host: H256, eth: H256, txs: Seq<H256>)
    requires
        txs.len() > 0 || !v.block_transactions.contains_key(eth),
    ensures
        v.after_write(host, eth, txs).block_mapping.contains_key(eth),
        v.after_write(host, eth, txs).block_mapping[eth] == host,
        v.after_write(host, eth, txs).block_hash_mapping.contains_key(host),
        v.after_write(host, eth, txs).block_hash_mapping[host] == eth,
        v.after_write(host, eth, txs).transactions_of(eth) == txs,
{
}

/// After a block is committed with distinct transaction hashes, each of its
/// transactions has a record naming the block and the transaction's position.
pub proof fn lemma_write_assigns_positions(v: MappingView, host: H256, eth: H256, txs: Seq<H256>)
    requires
        txs.no_duplicates(),
        txs.len() <= u32::MAX + 1,
    ensures
        forall|i: int|
            0 <= i < txs.len() ==> #[trigger] v.after_write(host, eth, txs).records_of(
                txs[i],
            ).contains(
                TransactionMetadata {
                    block_hash: host,
                    ethereum_block_hash: eth,
                    ethereum_index: i as u32,
                },
            ),
{
    assert forall|i: int| 0 <= i < txs.len() implies #[trigger] v.after_write(
        host,
        eth,
        txs,
    ).records_of(txs[i]).contains(
        TransactionMetadata { block_hash: host, ethereum_block_hash: eth, ethereum_index: i as u32 },
    ) by {
        let ups = v.record_updates(host, eth, txs);
        assert forall|j: int| i < j < ups.len() implies ups[j].0 != ups[i].0 by {
            assert(txs[j] != txs[i]);
        }
        lemma_set_all_keeps_last(v.transaction_mapping, ups, i);
        let recs = v.records_of(txs[i]).push(
            TransactionMetadata {
                block_hash: host,
                ethereum_block_hash: eth,
                ethereum_index: i as u32,
            },
        );
        assert(recs[recs.len() - 1] == TransactionMetadata {
            block_hash: host,
            ethereum_block_hash: eth,
            ethereum_index: i as u32,
        });
    }
}

/// Rolling back a block just committed leaves neither of its block mappings.
pub proof fn lemma_write_then_rollback(v: MappingView, host: H256, eth: H256, txs: Seq<H256>)
    ensures
        !v.after_write(host, eth, txs).after_rollback(host).block_mapping.contains_key(eth),
        !v.after_write(host, eth, txs).after_rollback(host).block_hash_mapping.contains_key(host),
{
}

} // verus!
