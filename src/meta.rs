use vstd::prelude::*;
use crate::error::IndexError;
use crate::hash::H256;
use crate::table::Table;

verus! {

/// The last host block that has been fully indexed.
#[derive(Clone, Copy, PartialEq, Eq, Structural, Debug)]
pub struct SyncedBlockInfo {
    pub hash: H256,
    pub number: u32,
}

/// What the checkpoint store holds.
pub struct MetaView {
    /// The pending tips; empty when never written.
    pub tips: Seq<H256>,
    /// The checkpoint, if any.
    pub last_synced: Option<SyncedBlockInfo>,
    /// Host block number to host block hash, for every indexed block.
    pub block_ids: Map<u32, H256>,
}

impl MetaView {
    pub open spec fn empty() -> MetaView {
        MetaView { tips: Seq::empty(), last_synced: None, block_ids: Map::empty() }
    }

    /// The checkpoint moved to `(hash, number)`, with its number index entry.
    pub open spec fn with_checkpoint(self, hash: H256, number: u32) -> MetaView {
        MetaView {
            last_synced: Some(SyncedBlockInfo { hash, number }),
            block_ids: self.block_ids.insert(number, hash),
            ..self
        }
    }

    pub open spec fn without_checkpoint(self) -> MetaView {
        MetaView { last_synced: None, ..self }
    }

    pub open spec fn without_index_entry(self, number: u32) -> MetaView {
        MetaView { block_ids: self.block_ids.remove(number), ..self }
    }

    pub open spec fn with_tips(self, tips: Seq<H256>) -> MetaView {
        MetaView { tips, ..self }
    }
}

/// The checkpoint store: the last synced block, the number index of synced
/// blocks and the pending tips.
pub struct MetaDb {
    syncing_tips: Vec<H256>,
    last_synced: Option<SyncedBlockInfo>,
    block_ids: Table<u32, H256>,
}

impl View for MetaDb {
    type V = MetaView;

    closed spec fn view(&self) -> MetaView {
        MetaView {
            tips: self.syncing_tips@,
            last_synced: self.last_synced,
            block_ids: self.block_ids@,
        }
    }
}

/// A copy of `v`, element for element.
pub fn copy_vec<T: Copy>(v: &Vec<T>) -> (r: Vec<T>)
    ensures
        r@ == v@,
{
    let mut r: Vec<T> = Vec::new();
    let mut i: usize = 0;
    while i < v.len()
        invariant
            i <= v@.len(),
            r@ == v@.subrange(0, i as int),
        decreases v@.len() - i,
    {
        r.push(v[i]);
        i = i + 1;
        assert(r@ =~= v@.subrange(0, i as int));
    }
    assert(r@ =~= v@);
    r
}

impl MetaDb {
    pub closed spec fn wf(&self) -> bool {
        self.block_ids.wf()
    }

    /// An empty checkpoint store.
    pub fn new() -> (r: MetaDb)
        ensures
            r.wf(),
            r@ == MetaView::empty(),
    {
        MetaDb { syncing_tips: Vec::new(), last_synced: None, block_ids: Table::new() }
    }

    /// The pending tips, empty if they were never written.
    pub fn current_syncing_tips(&self) -> (r: Vec<H256>)
        ensures
            r@ == self@.tips,
    {
        copy_vec(&self.syncing_tips)
    }

    /// The checkpoint, if one is set.
    pub fn last_synced_block(&self) -> (r: Option<SyncedBlockInfo>)
        ensures
            r == self@.last_synced,
    {
        self.last_synced
    }

    /// Moves the checkpoint to `(hash, number)` and records `hash` as the
    /// hash of block `number`, both in one step.
    pub fn write_last_synced_block(&mut self, hash: &H256, number: &u32)
        requires
            old(self).wf(),
        ensures
            final(self).wf(),
            final(self)@ == old(self)@.with_checkpoint(*hash, *number),
    {
        self.last_synced = Some(SyncedBlockInfo { hash: *hash, number: *number });
        self.block_ids.set(*number, *hash);
    }

    /// The hash recorded for block `number`.
    pub fn get_synced_block_hash(&self, number: &u32) -> (r: Result<H256, IndexError>)
        requires
            self.wf(),
        ensures
            self@.block_ids.contains_key(*number) ==> r == Ok::<H256, IndexError>(
                self@.block_ids[*number],
            ),
            !self@.block_ids.contains_key(*number) ==> r == Err::<H256, IndexError>(
                IndexError::UnknownBlockNumber(*number),
            ),
    {
        match self.block_ids.get(number) {
            Some(h) => Ok(*h),
            None => Err(IndexError::UnknownBlockNumber(*number)),
        }
    }

    /// Removes the checkpoint; the number index is left as it is.
    pub fn clear_last_synced_block(&mut self)
        requires
            old(self).wf(),
        ensures
            final(self).wf(),
            final(self)@ == old(self)@.without_checkpoint(),
    {
        self.last_synced = None;
    }

    /// Replaces the pending tips.
    pub fn write_current_syncing_tips(&mut self, tips: Vec<H256>)
        requires
            old(self).wf(),
        ensures
            final(self).wf(),
            final(self)@ == old(self)@.with_tips(tips@),
    {
        self.syncing_tips = tips;
    }

    /// Removes the number index entry of a rolled-back block.
    pub fn remove_block(&mut self, info: &SyncedBlockInfo)
        requires
            old(self).wf(),
        ensures
            final(self).wf(),
            final(self)@ == old(self)@.without_index_entry(info.number),
    {
        self.block_ids.remove(&info.number);
    }
}

/// Right after the checkpoint is moved to `(hash, number)`, it reads back as
/// `(hash, number)` and block `number` reads back as `hash`.
pub proof fn lemma_checkpoint_reads_back(v: MetaView, hash: H256, number: u32)
    ensures
        v.with_checkpoint(hash, number).last_synced == Some(SyncedBlockInfo { hash, number }),
        v.with_checkpoint(hash, number).block_ids.contains_key(number),
        v.with_checkpoint(hash, number).block_ids[number] == hash,
{
}

} // verus!
