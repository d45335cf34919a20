use vstd::prelude::*;
use crate::hash::H256;

verus! {

/// Why an index operation or a synchronisation step failed.
#[derive(Clone, Copy, PartialEq, Eq, Structural, Debug)]
pub enum IndexError {
    /// No host block hash is recorded for this block number.
    UnknownBlockNumber(u32),
    /// No execution block is mapped to this host block hash.
    UnknownBlockHash(H256),
    /// A rollback was asked for while nothing has been synced.
    NoSyncedBlock,
    /// A host header carries more than one consensus log.
    MultipleLogs,
    /// The host chain has no header at this number.
    HeaderNotFound(u32),
    /// The runtime offers the execution API at genesis but no execution block.
    EthereumGenesisNotFound,
}

} // verus!
