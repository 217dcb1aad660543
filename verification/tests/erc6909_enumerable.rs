use erc6909::{Erc6909Enumerable, U256};

#[test]
fn record_is_idempotent() {
    let mut en = Erc6909Enumerable::new();
    let id = U256::from_u64(99);
    en._record_id(id);
    assert_eq!(en.total_ids(), U256::one());
    assert_eq!(en.id_by_index(U256::zero()), id);
    en._record_id(id);
    assert_eq!(en.total_ids(), U256::one());
    assert_eq!(en.id_by_index(U256::zero()), id);
}

#[test]
fn first_recorded_identifier_stays_deduplicated() {
    // the identifier at position zero is the delicate case for a
    // reverse index that reads zero for absent keys
    let mut en = Erc6909Enumerable::new();
    let first = U256::from_u64(5);
    en._record_id(first);
    en._record_id(U256::from_u64(6));
    en._record_id(first);
    assert_eq!(en.total_ids(), U256::from_u64(2));
    assert_eq!(en.id_by_index(U256::zero()), first);
    assert_eq!(en.id_by_index(U256::one()), U256::from_u64(6));
}

#[test]
fn identifier_zero_is_recorded_once() {
    let mut en = Erc6909Enumerable::new();
    en._record_id(U256::zero());
    en._record_id(U256::zero());
    assert_eq!(en.total_ids(), U256::one());
    assert_eq!(en.id_by_index(U256::zero()), U256::zero());
}

#[test]
fn insertion_order_is_kept() {
    let mut en = Erc6909Enumerable::new();
    for raw in [9u64, 2, 7, 2, 9, 4] {
        en._record_id(U256::from_u64(raw));
    }
    assert_eq!(en.total_ids(), U256::from_u64(4));
    assert_eq!(en.id_by_index(U256::from_u64(0)), U256::from_u64(9));
    assert_eq!(en.id_by_index(U256::from_u64(1)), U256::from_u64(2));
    assert_eq!(en.id_by_index(U256::from_u64(2)), U256::from_u64(7));
    assert_eq!(en.id_by_index(U256::from_u64(3)), U256::from_u64(4));
}

#[test]
fn out_of_range_index_reads_zero() {
    let mut en = Erc6909Enumerable::new();
    assert_eq!(en.id_by_index(U256::zero()), U256::zero());
    en._record_id(U256::from_u64(11));
    assert_eq!(en.id_by_index(U256::one()), U256::zero());
    assert_eq!(en.id_by_index(U256::from_u64(1000)), U256::zero());
    // an index too large for any machine list is clamped the same way
    assert_eq!(en.id_by_index(U256::new(1, 0)), U256::zero());
}
