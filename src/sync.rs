use vstd::prelude::*;
use crate::backend::{Backend, BackendView};
use crate::error::IndexError;
use crate::hash::H256;
use crate::mapping::{MappingCommitment, MappingView};
use crate::meta::{copy_vec, MetaView};

verus! {

/// An execution-layer log found in a host header's digest: the execution
/// block hash and the hashes of its transactions.
pub struct PostLog {
    pub block_hash: H256,
    pub transaction_hashes: Vec<H256>,
}

/// A host block header, with the consensus logs found in its digest.
pub struct HostHeader {
    pub hash: H256,
    pub number: u32,
    pub logs: Vec<PostLog>,
}

/// What the host runtime reports at the genesis block.
pub enum GenesisRuntime {
    /// The execution API is absent.
    NoApi,
    /// The execution API is present and reports this current execution block.
    Api { current_block: Option<H256> },
}

/// The host chain's canonical view: the header at each number from genesis
/// up to the best block, and what the runtime reports at genesis.
pub struct HostChain {
    pub headers: Vec<HostHeader>,
    pub genesis_runtime: GenesisRuntime,
}

impl HostChain {
    /// Each header stands at its own number, and no log lists more
    /// transactions than a `u32` position can count.
    pub open spec fn wf(&self) -> bool {
        &&& forall|i: int| 0 <= i < self.headers@.len() ==> (#[trigger] self.headers@[i]).number == i
        &&& forall|i: int, j: int|
            0 <= i < self.headers@.len() && 0 <= j < self.headers@[i].logs@.len()
                ==> (#[trigger] self.headers@[i].logs@[j]).transaction_hashes@.len() <= u32::MAX + 1
    }

    /// Whether the canonical chain has a header at `n`.
    pub open spec fn has(&self, n: int) -> bool {
        0 <= n < self.headers@.len()
    }

    /// The canonical hash at `n`.
    pub open spec fn hash_at(&self, n: int) -> H256 {
        self.headers@[n].hash
    }

    /// The canonical header at `number`, if the chain reaches it.
    pub fn header(&self, number: u32) -> (r: Option<&HostHeader>)
        ensures
            match r {
                Some(h) => self.has(number as int) && h == &self.headers@[number as int],
                None => !self.has(number as int),
            },
    {
        if (number as usize) < self.headers.len() {
            Some(&self.headers[number as usize])
        } else {
            None
        }
    }
}

/// The mapping store after syncing a non-genesis header whose digest holds
/// at most one log.
pub open spec fn mapping_after_block(m: MappingView, header: HostHeader) -> MappingView {
    if header.logs@.len() == 1 {
        m.after_write(
            header.hash,
            header.logs@[0].block_hash,
            header.logs@[0].transaction_hashes@,
        )
    } else {
        m
    }
}

/// The mapping store after syncing the genesis header `host`.
pub open spec fn mapping_after_genesis(
    m: MappingView,
    runtime: GenesisRuntime,
    host: H256,
) -> MappingView {
    match runtime {
        GenesisRuntime::Api { current_block: Some(eth) } => m.after_write(host, eth, Seq::empty()),
        _ => m,
    }
}

/// Whether the checkpoint agrees with the canonical chain: there is none,
/// the chain does not reach it, or the chain has its hash at its number.
pub open spec fn consistent(chain: HostChain, v: BackendView) -> bool {
    match v.meta.last_synced {
        None => true,
        Some(c) => !chain.has(c.number as int) || chain.hash_at(c.number as int) == c.hash,
    }
}

/// Whether the index has synced the canonical chain's best block.
pub open spec fn at_tip(chain: HostChain, v: BackendView) -> bool {
    match v.meta.last_synced {
        None => false,
        Some(c) => c.number + 1 == chain.headers@.len() && chain.hash_at(c.number as int)
            == c.hash,
    }
}

/// The index after one rollback step: the checkpoint's block is unmapped and
/// unindexed, and the checkpoint moves to its parent, or goes at genesis.
pub open spec fn rolled_back(v: BackendView) -> BackendView {
    let c = v.meta.last_synced.unwrap();
    let meta = v.meta.without_index_entry(c.number);
    BackendView {
        mapping: v.mapping.after_rollback(c.hash),
        meta: if c.number == 0 {
            meta.without_checkpoint()
        } else {
            meta.with_checkpoint(v.meta.block_ids[(c.number - 1) as u32], (c.number - 1) as u32)
        },
    }
}

/// The hash that `v` records for block `n`: the checkpoint's own hash at
/// the checkpoint's number, else the number index entry.
pub open spec fn recorded_hash(v: BackendView, n: int) -> H256 {
    match v.meta.last_synced {
        Some(c) if c.number == n => c.hash,
        _ => v.meta.block_ids[n as u32],
    }
}

/// Syncs a non-genesis header: one log is committed, no log changes
/// nothing, more than one log is refused.
pub fn sync_block(backend: &mut Backend, header: &HostHeader) -> (r: Result<(), IndexError>)
    requires
        old(backend).wf(),
        forall|j: int|
            0 <= j < header.logs@.len() ==> (#[trigger] header.logs@[j]).transaction_hashes@.len()
                <= u32::MAX + 1,
    ensures
        final(backend).wf(),
        header.logs@.len() <= 1 ==> r == Ok::<(), IndexError>(()),
        header.logs@.len() > 1 ==> r == Err::<(), IndexError>(IndexError::MultipleLogs),
        final(backend)@.meta == old(backend)@.meta,
        final(backend)@.mapping == mapping_after_block(old(backend)@.mapping, *header),
{
    if header.logs.len() == 1 {
        let log = &header.logs[0];
        let commitment = MappingCommitment {
            block_hash: header.hash,
            ethereum_block_hash: log.block_hash,
            ethereum_transaction_hashes: copy_vec(&log.transaction_hashes),
        };
        backend.mapping.write_hashes(commitment);
        Ok(())
    } else if header.logs.len() == 0 {
        backend.mapping.write_none(header.hash);
        Ok(())
    } else {
        Err(IndexError::MultipleLogs)
    }
}

/// Syncs the genesis header, which carries no log: the execution layer's
/// genesis block is taken from what the runtime reports.
pub fn sync_genesis_block(
    runtime: &GenesisRuntime,
    backend: &mut Backend,
    header: &HostHeader,
) -> (r: Result<(), IndexError>)
    requires
        old(backend).wf(),
    ensures
        final(backend).wf(),
        r == (match *runtime {
            GenesisRuntime::Api { current_block: None } => Err::<(), IndexError>(
                IndexError::EthereumGenesisNotFound,
            ),
            _ => Ok::<(), IndexError>(()),
        }),
        final(backend)@.meta == old(backend)@.meta,
        final(backend)@.mapping == mapping_after_genesis(
            old(backend)@.mapping,
            *runtime,
            header.hash,
        ),
{
    match runtime {
        GenesisRuntime::Api { current_block } => match current_block {
            Some(eth) => {
                let commitment = MappingCommitment {
                    block_hash: header.hash,
                    ethereum_block_hash: *eth,
                    ethereum_transaction_hashes: Vec::new(),
                };
                backend.mapping.write_hashes(commitment);
                Ok(())
            },
            None => Err(IndexError::EthereumGenesisNotFound),
        },
        GenesisRuntime::NoApi => {
            backend.mapping.write_none(header.hash);
            Ok(())
        },
    }
}

/// The index and the outcome of one rollback step from `v`. A block that is
/// not mapped is refused with nothing changed; a missing parent entry is
/// refused after the block was unmapped and unindexed.
pub open spec fn rollback_step(v: BackendView) -> (BackendView, Result<bool, IndexError>) {
    match v.meta.last_synced {
        None => (v, Err(IndexError::NoSyncedBlock)),
        Some(c) => if !v.mapping.block_hash_mapping.contains_key(c.hash) {
            (v, Err(IndexError::UnknownBlockHash(c.hash)))
        } else if c.number > 0 && !v.meta.block_ids.contains_key((c.number - 1) as u32) {
            (
                BackendView {
                    mapping: v.mapping.after_rollback(c.hash),
                    meta: v.meta.without_index_entry(c.number),
                },
                Err(IndexError::UnknownBlockNumber((c.number - 1) as u32)),
            )
        } else {
            (rolled_back(v), Ok(true))
        },
    }
}

/// One rollback step: unmaps and unindexes the checkpoint's block, then moves
/// the checkpoint to its parent, or clears it at genesis.
pub fn rollback_last_block(backend: &mut Backend) -> (r: Result<bool, IndexError>)
    requires
        old(backend).wf(),
    ensures
        final(backend).wf(),
        (final(backend)@, r) == rollback_step(old(backend)@),
{
    let last = match backend.meta.last_synced_block() {
        Some(info) => info,
        None => {
            return Err(IndexError::NoSyncedBlock);
        },
    };
    match backend.mapping.rollback_block_by_id(&last.hash) {
        Ok(()) => {},
        Err(e) => {
            return Err(e);
        },
    }
    backend.meta.remove_block(&last);
    if last.number == 0 {
        backend.meta.clear_last_synced_block();
    } else {
        let number = last.number - 1;
        let hash = match backend.meta.get_synced_block_hash(&number) {
            Ok(h) => h,
            Err(e) => {
                return Err(e);
            },
        };
        backend.meta.write_last_synced_block(&hash, &number);
    }
    Ok(true)
}

/// Whether, from block `n` up to block `high`, the canonical chain has a
/// header at every number and none carries the hash that `v` recorded.
pub open spec fn diverged_from(chain: HostChain, v: BackendView, low: int, high: int) -> bool {
    forall|n: int|
        low <= n <= high ==> #[trigger] chain.has(n) && chain.hash_at(n) != recorded_hash(v, n)
}

/// The checkpoint walk from `v` ended in `w`: `w` agrees with the chain;
/// its checkpoint is the highest block at or below `v`'s whose recorded hash
/// the chain still has (or does not reach yet), every block above it down
/// from `v`'s checkpoint diverged, and no checkpoint is left when every block
/// down to genesis diverged.
pub open spec fn reconciled(chain: HostChain, v: BackendView, w: BackendView) -> bool {
    &&& consistent(chain, w)
    &&& match v.meta.last_synced {
        None => w == v,
        Some(o) => match w.meta.last_synced {
            None => diverged_from(chain, v, 0, o.number as int),
            Some(c) => c.number <= o.number && c.hash == recorded_hash(v, c.number as int)
                && diverged_from(chain, v, c.number + 1, o.number as int),
        },
    }
}

/// How many rollback steps the walk from `v` can take at most.
pub open spec fn walk_fuel(v: BackendView) -> nat {
    match v.meta.last_synced {
        None => 0,
        Some(c) => (c.number + 1) as nat,
    }
}

/// The index and the outcome of walking the checkpoint back from `v` with at
/// most `fuel` rollback steps: it stops where the checkpoint agrees with the
/// chain, and at the first step that is refused.
pub open spec fn walk(chain: HostChain, v: BackendView, fuel: nat) -> (
    BackendView,
    Result<(), IndexError>,
)
    decreases fuel,
{
    if consistent(chain, v) || fuel == 0 {
        (v, Ok(()))
    } else {
        let (w, r) = rollback_step(v);
        match r {
            Err(e) => (w, Err(e)),
            Ok(_) => walk(chain, w, (fuel - 1) as nat),
        }
    }
}

/// The index and the outcome of reconciling `v` with the canonical chain.
pub open spec fn reconcile(chain: HostChain, v: BackendView) -> (BackendView, Result<(), IndexError>) {
    walk(chain, v, walk_fuel(v))
}

/// The index and the outcome of syncing the next block from `v`: the block
/// after the checkpoint, or the genesis block when there is none; `false`
/// when the chain has no further block.
pub open spec fn advance(chain: HostChain, v: BackendView) -> (BackendView, Result<bool, IndexError>) {
    match v.meta.last_synced {
        Some(c) => if c.number + 1 >= chain.headers@.len() {
            (v, Ok(false))
        } else {
            let h = chain.headers@[c.number + 1];
            if h.logs@.len() > 1 {
                (v, Err(IndexError::MultipleLogs))
            } else {
                (
                    BackendView {
                        mapping: mapping_after_block(v.mapping, h),
                        meta: v.meta.with_checkpoint(h.hash, h.number),
                    },
                    Ok(true),
                )
            }
        },
        None => if chain.headers@.len() == 0 {
            (v, Err(IndexError::HeaderNotFound(0)))
        } else if chain.genesis_runtime matches GenesisRuntime::Api { current_block: None } {
            (v, Err(IndexError::EthereumGenesisNotFound))
        } else {
            let g = chain.headers@[0].hash;
            (
                BackendView {
                    mapping: mapping_after_genesis(v.mapping, chain.genesis_runtime, g),
                    meta: v.meta.with_checkpoint(g, 0),
                },
                Ok(true),
            )
        },
    }
}

/// The index and the outcome of one sync step from `v`: reconcile, then,
/// unless that failed, advance.
pub open spec fn one_step(chain: HostChain, v: BackendView) -> (BackendView, Result<bool, IndexError>) {
    let (w, r) = reconcile(chain, v);
    match r {
        Err(e) => (w, Err(e)),
        Ok(_) => advance(chain, w),
    }
}

/// `outcome` seen after earlier steps that synced a block when `any`.
pub open spec fn after_earlier(any: bool, outcome: (BackendView, Result<bool, IndexError>)) -> (
    BackendView,
    Result<bool, IndexError>,
) {
    match outcome.1 {
        Ok(b) => (outcome.0, Ok(any || b)),
        Err(e) => (outcome.0, Err(e)),
    }
}

/// The index and the outcome of `n` sync steps from `v`: they stop at the
/// first error, which is returned; otherwise the result is whether any
/// step synced a block.
pub open spec fn sync_steps(chain: HostChain, v: BackendView, n: nat) -> (
    BackendView,
    Result<bool, IndexError>,
)
    decreases n,
{
    if n == 0 {
        (v, Ok(false))
    } else {
        let (w, r) = one_step(chain, v);
        match r {
            Err(e) => (w, Err(e)),
            Ok(b) => after_earlier(b, sync_steps(chain, w, (n - 1) as nat)),
        }
    }
}

/// Walks the checkpoint back, one rollback step at a time, until it agrees
/// with the canonical chain or is cleared. On success the checkpoint is the
/// highest recorded block at or below the old checkpoint whose hash the
/// canonical chain still has (or that the chain does not reach yet), and no
/// checkpoint is left when every block down to genesis diverged.
pub fn eusure_synced_blocks(chain: &HostChain, backend: &mut Backend) -> (r: Result<(), IndexError>)
    requires
        old(backend).wf(),
    ensures
        final(backend).wf(),
        (final(backend)@, r) == reconcile(*chain, old(backend)@),
        consistent(*chain, old(backend)@) ==> r == Ok::<(), IndexError>(()) && final(backend)@
            == old(backend)@,
        r is Ok ==> reconciled(*chain, old(backend)@, final(backend)@),
{
    let ghost start = backend@;
    loop
        invariant
            start == old(backend)@,
            backend.wf(),
            walk(*chain, backend@, walk_fuel(backend@)) == reconcile(*chain, start),
            backend@.meta.last_synced == start.meta.last_synced ==> backend@ == start,
            consistent(*chain, start) ==> backend@ == start,
            match start.meta.last_synced {
                None => backend@ == start,
                Some(o) => match backend@.meta.last_synced {
                    None => diverged_from(*chain, start, 0, o.number as int),
                    Some(c) => {
                        &&& c.number <= o.number
                        &&& c.hash == recorded_hash(start, c.number as int)
                        &&& diverged_from(*chain, start, c.number + 1, o.number as int)
                        &&& forall|m: u32|
                            m < c.number ==> (#[trigger] backend@.meta.block_ids.contains_key(m)
                                == start.meta.block_ids.contains_key(m))
                                && backend@.meta.block_ids[m] == start.meta.block_ids[m]
                    },
                },
            },
        decreases walk_fuel(backend@),
    {
        let ghost before = backend@;
        let last = match backend.meta.last_synced_block() {
            Some(info) => info,
            None => {
                return Ok(());
            },
        };
        let on_chain = match chain.header(last.number) {
            Some(h) => h.hash,
            None => {
                return Ok(());
            },
        };
        if on_chain == last.hash {
            return Ok(());
        }
        assert(!consistent(*chain, before) && walk_fuel(before) > 0);
        match rollback_last_block(backend) {
            Ok(_) => {
                assert(walk_fuel(backend@) == walk_fuel(before) - 1);
            },
            Err(e) => {
                return Err(e);
            },
        }
    }
}

/// One sync step: reconciles the checkpoint with the canonical chain, then
/// syncs the block after the checkpoint, or the genesis block when there is
/// no checkpoint. Returns whether a block was synced; `false` means that the
/// chain has no block past the checkpoint yet.
pub fn sync_one_block(chain: &HostChain, backend: &mut Backend) -> (r: Result<bool, IndexError>)
    requires
        old(backend).wf(),
        chain.wf(),
    ensures
        final(backend).wf(),
        (final(backend)@, r) == one_step(*chain, old(backend)@),
        at_tip(*chain, old(backend)@) ==> r == Ok::<bool, IndexError>(false) && final(backend)@
            == old(backend)@,
{
    match eusure_synced_blocks(chain, backend) {
        Ok(()) => {},
        Err(e) => {
            return Err(e);
        },
    }
    sync_next_block(chain, backend)
}

/// Syncs the block after the checkpoint, or the genesis block when there is
/// no checkpoint.
fn sync_next_block(chain: &HostChain, backend: &mut Backend) -> (r: Result<bool, IndexError>)
    requires
        old(backend).wf(),
        chain.wf(),
    ensures
        final(backend).wf(),
        (final(backend)@, r) == advance(*chain, old(backend)@),
{
    match backend.meta.last_synced_block() {
        Some(last) => {
            if last.number == u32::MAX || (last.number + 1) as usize >= chain.headers.len() {
                return Ok(false);
            }
            let header = &chain.headers[(last.number + 1) as usize];
            match sync_block(backend, header) {
                Ok(()) => {},
                Err(e) => {
                    return Err(e);
                },
            }
            backend.meta.write_last_synced_block(&header.hash, &header.number);
            Ok(true)
        },
        None => {
            let header = match chain.header(0) {
                Some(h) => h,
                None => {
                    return Err(IndexError::HeaderNotFound(0));
                },
            };
            match sync_genesis_block(&chain.genesis_runtime, backend, header) {
                Ok(()) => {},
                Err(e) => {
                    return Err(e);
                },
            }
            backend.meta.write_last_synced_block(&header.hash, &header.number);
            Ok(true)
        },
    }
}

/// From the best block, any number of sync steps sync nothing and change
/// nothing.
pub proof fn lemma_steps_at_tip(chain: HostChain, v: BackendView, n: nat)
    requires
        at_tip(chain, v),
    ensures
        sync_steps(chain, v, n) == (v, Ok::<bool, IndexError>(false)),
    decreases n,
{
    if n > 0 {
        assert(reconcile(chain, v) == (v, Ok::<(), IndexError>(())));
        assert(one_step(chain, v) == (v, Ok::<bool, IndexError>(false)));
        lemma_steps_at_tip(chain, v, (n - 1) as nat);
    }
}

/// Runs `limit` sync steps, each one whatever the earlier ones synced, and
/// returns whether any of them synced a block; the first error ends the run
/// and is returned.
pub fn sync_blocks(chain: &HostChain, backend: &mut Backend, limit: usize) -> (r: Result<
    bool,
    IndexError,
>)
    requires
        old(backend).wf(),
        chain.wf(),
    ensures
        final(backend).wf(),
        (final(backend)@, r) == sync_steps(*chain, old(backend)@, limit as nat),
        at_tip(*chain, old(backend)@) ==> r == Ok::<bool, IndexError>(false) && final(backend)@
            == old(backend)@,
{
    let ghost start = backend@;
    proof {
        if at_tip(*chain, start) {
            lemma_steps_at_tip(*chain, start, limit as nat);
        }
    }
    let mut synced_any = false;
    let mut i: usize = 0;
    while i < limit
        invariant
            start == old(backend)@,
            backend.wf(),
            chain.wf(),
            i <= limit,
            at_tip(*chain, start) ==> sync_steps(*chain, start, limit as nat) == (
                start,
                Ok::<bool, IndexError>(false),
            ),
            sync_steps(*chain, start, limit as nat) == after_earlier(
                synced_any,
                sync_steps(*chain, backend@, (limit - i) as nat),
            ),
        decreases limit - i,
    {
        let ghost before = backend@;
        let progressed = match sync_one_block(chain, backend) {
            Ok(p) => p,
            Err(e) => {
                return Err(e);
            },
        };
        proof {
            let rest = sync_steps(*chain, backend@, (limit - i - 1) as nat);
            assert(sync_steps(*chain, before, (limit - i) as nat) == after_earlier(progressed, rest));
            assert(after_earlier(synced_any, after_earlier(progressed, rest)) == after_earlier(
                synced_any || progressed,
                rest,
            ));
        }
        synced_any = synced_any || progressed;
        i = i + 1;
    }
    Ok(synced_any)
}

} // verus!
