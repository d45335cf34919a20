use mapping_index::backend::{Backend, DatabaseSettings, DatabaseSettingsSrc};
use mapping_index::error::IndexError;
use mapping_index::hash::H256;
use mapping_index::mapping::{MappingCommitment, MappingDb, TransactionMetadata};
use mapping_index::meta::{MetaDb, SyncedBlockInfo};

fn h(n: u64) -> H256 {
    H256::from_low_u64_be(n)
}

fn commitment(host: u64, eth: u64, txs: &[u64]) -> MappingCommitment {
    MappingCommitment {
        block_hash: h(host),
        ethereum_block_hash: h(eth),
        ethereum_transaction_hashes: txs.iter().map(|t| h(*t)).collect(),
    }
}

#[test]
fn hash_constructors() {
    assert_eq!(H256::zero(), H256::from_halves(0, 0));
    assert_eq!(h(7), H256::from_halves(0, 7));
    assert_ne!(h(7), h(8));
}

#[test]
fn database_path() {
    let src = DatabaseSettingsSrc::RocksDb { path: "/data/frontier".to_string(), cache_size: 128 };
    assert_eq!(src.path(), Some("/data/frontier"));
    let settings = DatabaseSettings { source: src };
    assert_eq!(settings.source.path(), Some("/data/frontier"));
}

#[test]
fn empty_stores_read_empty() {
    let meta = MetaDb::new();
    assert!(meta.current_syncing_tips().is_empty());
    assert_eq!(meta.last_synced_block(), None);
    assert_eq!(meta.get_synced_block_hash(&0), Err(IndexError::UnknownBlockNumber(0)));
    let mapping = MappingDb::new();
    assert_eq!(mapping.block_hash(&h(1)), None);
    assert_eq!(mapping.eth_block_hash_from_substrate_hash(&h(1)), Err(IndexError::UnknownBlockHash(h(1))));
    assert!(mapping.eth_transactions(&h(1)).is_empty());
    assert!(mapping.transaction_metadata(&h(1)).is_empty());
}

#[test]
fn checkpoint_reads_back() {
    let mut meta = MetaDb::new();
    meta.write_last_synced_block(&h(42), &7);
    assert_eq!(meta.last_synced_block(), Some(SyncedBlockInfo { hash: h(42), number: 7 }));
    assert_eq!(meta.get_synced_block_hash(&7), Ok(h(42)));
    meta.write_last_synced_block(&h(43), &8);
    assert_eq!(meta.last_synced_block(), Some(SyncedBlockInfo { hash: h(43), number: 8 }));
    assert_eq!(meta.get_synced_block_hash(&7), Ok(h(42)));
    assert_eq!(meta.get_synced_block_hash(&8), Ok(h(43)));
}

#[test]
fn clear_keeps_index_and_remove_drops_entry() {
    let mut meta = MetaDb::new();
    meta.write_last_synced_block(&h(42), &7);
    meta.clear_last_synced_block();
    assert_eq!(meta.last_synced_block(), None);
    assert_eq!(meta.get_synced_block_hash(&7), Ok(h(42)));
    meta.remove_block(&SyncedBlockInfo { hash: h(42), number: 7 });
    assert_eq!(meta.get_synced_block_hash(&7), Err(IndexError::UnknownBlockNumber(7)));
}

#[test]
fn syncing_tips_round_trip() {
    let mut meta = MetaDb::new();
    meta.write_current_syncing_tips(vec![h(1), h(2), h(3)]);
    assert_eq!(meta.current_syncing_tips(), vec![h(1), h(2), h(3)]);
    meta.write_current_syncing_tips(Vec::new());
    assert!(meta.current_syncing_tips().is_empty());
}

#[test]
fn write_hashes_round_trip() {
    let mut mapping = MappingDb::new();
    mapping.write_hashes(commitment(100, 200, &[1, 2, 3]));
    assert_eq!(mapping.block_hash(&h(200)), Some(h(100)));
    assert_eq!(mapping.eth_block_hash_from_substrate_hash(&h(100)), Ok(h(200)));
    assert_eq!(mapping.eth_transactions(&h(200)), vec![h(1), h(2), h(3)]);
}

#[test]
fn write_hashes_assigns_positions() {
    let mut mapping = MappingDb::new();
    mapping.write_hashes(commitment(100, 200, &[10, 11, 12]));
    for (i, tx) in [10u64, 11, 12].iter().enumerate() {
        let records = mapping.transaction_metadata(&h(*tx));
        assert_eq!(
            records,
            vec![TransactionMetadata {
                block_hash: h(100),
                ethereum_block_hash: h(200),
                ethereum_index: i as u32,
            }]
        );
    }
}

#[test]
fn records_accumulate_across_blocks() {
    let mut mapping = MappingDb::new();
    mapping.write_hashes(commitment(100, 200, &[10]));
    mapping.write_hashes(commitment(101, 201, &[11, 10]));
    assert_eq!(
        mapping.transaction_metadata(&h(10)),
        vec![
            TransactionMetadata { block_hash: h(100), ethereum_block_hash: h(200), ethereum_index: 0 },
            TransactionMetadata { block_hash: h(101), ethereum_block_hash: h(201), ethereum_index: 1 },
        ]
    );
}

#[test]
fn repeated_hash_in_one_block_keeps_last_position() {
    let mut mapping = MappingDb::new();
    mapping.write_hashes(commitment(100, 200, &[10, 10]));
    assert_eq!(
        mapping.transaction_metadata(&h(10)),
        vec![TransactionMetadata { block_hash: h(100), ethereum_block_hash: h(200), ethereum_index: 1 }]
    );
}

#[test]
fn empty_transaction_list_is_not_stored() {
    let mut mapping = MappingDb::new();
    mapping.write_hashes(commitment(100, 200, &[1]));
    mapping.write_hashes(commitment(101, 200, &[]));
    assert_eq!(mapping.eth_transactions(&h(200)), vec![h(1)]);
    assert_eq!(mapping.block_hash(&h(200)), Some(h(101)));
}

#[test]
fn write_none_stores_nothing() {
    let mut mapping = MappingDb::new();
    mapping.write_none(h(5));
    assert_eq!(mapping.eth_block_hash_from_substrate_hash(&h(5)), Err(IndexError::UnknownBlockHash(h(5))));
}

#[test]
fn rollback_undoes_write() {
    let mut mapping = MappingDb::new();
    mapping.write_hashes(commitment(100, 200, &[1, 2]));
    assert_eq!(mapping.rollback_block_by_id(&h(100)), Ok(()));
    assert_eq!(mapping.block_hash(&h(200)), None);
    assert_eq!(mapping.eth_block_hash_from_substrate_hash(&h(100)), Err(IndexError::UnknownBlockHash(h(100))));
    assert!(mapping.transaction_metadata(&h(1)).is_empty());
    assert!(mapping.transaction_metadata(&h(2)).is_empty());
    assert_eq!(mapping.eth_transactions(&h(200)), vec![h(1), h(2)]);
}

#[test]
fn rollback_removes_shared_records_wholesale() {
    let mut mapping = MappingDb::new();
    mapping.write_hashes(commitment(100, 200, &[1]));
    mapping.write_hashes(commitment(101, 201, &[1, 3]));
    assert_eq!(mapping.rollback_block_by_id(&h(101)), Ok(()));
    assert!(mapping.transaction_metadata(&h(1)).is_empty());
    assert_eq!(mapping.block_hash(&h(200)), Some(h(100)));
}

#[test]
fn rollback_of_unknown_block_fails() {
    let mut mapping = MappingDb::new();
    mapping.write_hashes(commitment(100, 200, &[1]));
    assert_eq!(mapping.rollback_block_by_id(&h(9)), Err(IndexError::UnknownBlockHash(h(9))));
    assert_eq!(mapping.block_hash(&h(200)), Some(h(100)));
    assert_eq!(mapping.transaction_metadata(&h(1)).len(), 1);
}

#[test]
fn backend_starts_empty() {
    let backend = Backend::new();
    assert_eq!(backend.meta().last_synced_block(), None);
    assert_eq!(backend.mapping().block_hash(&h(0)), None);
}
