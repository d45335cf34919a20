use mapping_index::hash::H256;
use mapping_index::table::Table;

#[test]
fn table_set_get_remove() {
    let mut t: Table<u32, H256> = Table::new();
    assert_eq!(t.get(&1), None);
    t.set(1, H256::from_low_u64_be(10));
    t.set(2, H256::from_low_u64_be(20));
    t.set(1, H256::from_low_u64_be(11));
    assert_eq!(t.get(&1), Some(&H256::from_low_u64_be(11)));
    assert_eq!(t.get(&2), Some(&H256::from_low_u64_be(20)));
    t.remove(&1);
    assert_eq!(t.get(&1), None);
    assert_eq!(t.get(&2), Some(&H256::from_low_u64_be(20)));
    t.remove(&3);
    assert_eq!(t.get(&2), Some(&H256::from_low_u64_be(20)));
}

#[test]
fn table_keyed_by_hash() {
    let mut t: Table<H256, Vec<u8>> = Table::new();
    let k = H256::from_halves(1, 2);
    t.set(k, vec![1, 2, 3]);
    assert_eq!(t.get(&k), Some(&vec![1, 2, 3]));
    assert_eq!(t.get(&H256::from_halves(2, 1)), None);
}
