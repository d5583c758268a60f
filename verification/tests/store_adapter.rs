use keydb_sync::store::{Batch, FallibleStore, ResilientStore};
use keydb_sync::tip::tip_height_to_bytes;

#[test]
fn missing_tip_height_returns_default() {
    let mut store = ResilientStore::new(FallibleStore::new(0), None, 0);
    assert_eq!(store.read_tip_height(100), 100);
}

#[test]
fn empty_tip_record_returns_default() {
    let mut store = ResilientStore::new(FallibleStore::new(0), None, 0);
    store.put(&b"/__INTERNAL/tip-height".to_vec(), &Vec::new());
    assert_eq!(store.read_tip_height(100), 100);
}

#[test]
fn tip_record_decodes_little_endian() {
    let mut store = ResilientStore::new(FallibleStore::new(0), None, 0);
    store.put(&b"/__INTERNAL/tip-height".to_vec(), &vec![42u8, 0u8, 0u8, 0u8]);
    assert_eq!(store.read_tip_height(100), 42);
    assert_eq!(tip_height_to_bytes(42), vec![42u8, 0u8, 0u8, 0u8]);
}

#[test]
fn store_resilience_absorbs_failures() {
    // A store that fails its first operations must still hand the caller
    // the correct result, with no error surfacing past the adapter.
    let mut store = ResilientStore::new(FallibleStore::new(5), None, 0);
    let key: Vec<u8> = b"k".to_vec();
    let value: Vec<u8> = b"v".to_vec();
    store.put(&key, &value);
    let mut flaky_again = ResilientStore::new(FallibleStore::new(0), None, 0);
    flaky_again.put(&key, &value);
    assert_eq!(store.get(&key), flaky_again.get(&key));
    assert_eq!(store.get(&key), Some(b"v".to_vec()));
}

#[test]
fn delete_removes_a_key() {
    let mut store = ResilientStore::new(FallibleStore::new(3), None, 0);
    let key: Vec<u8> = b"k".to_vec();
    store.put(&key, &b"v".to_vec());
    store.delete(&key);
    assert_eq!(store.get(&key), None);
}

#[test]
fn batch_commit_pairs_height_with_mutations() {
    // The committed batch carries the caller's puts and the advanced tip
    // height as one unit.
    let mut store = ResilientStore::new(FallibleStore::new(0), None, 7);
    let mut batch = Batch::new(None);
    batch.put(&b"a".to_vec(), &b"1".to_vec());
    batch.put(&b"b".to_vec(), &b"2".to_vec());
    store.write(batch);
    assert_eq!(store.get(&b"a".to_vec()), Some(b"1".to_vec()));
    assert_eq!(store.get(&b"b".to_vec()), Some(b"2".to_vec()));
    assert_eq!(store.read_tip_height(0), 8);
}

#[test]
fn failed_commit_leaves_height_and_mutations_invisible() {
    // A crash between staging and commit success: the first attempt fails,
    // and neither the staged mutations nor the advanced height are visible.
    let mut fallible = FallibleStore::new(1);
    let mut batch = Batch::new(None);
    batch.put(&b"a".to_vec(), &b"1".to_vec());
    assert!(fallible.try_write(&batch).is_err());
    let mut store = ResilientStore::new(fallible, None, 7);
    assert_eq!(store.get(&b"a".to_vec()), None);
    assert_eq!(store.read_tip_height(0), 0);

    // Replay commits the same staged batch; now both land together.
    let mut replay = Batch::new(None);
    replay.put(&b"a".to_vec(), &b"1".to_vec());
    store.write(replay);
    assert_eq!(store.get(&b"a".to_vec()), Some(b"1".to_vec()));
    assert_eq!(store.read_tip_height(0), 8);
}

#[test]
fn batch_keys_are_namespaced() {
    let label: Option<Vec<u8>> = Some(b"foo".to_vec());
    let mut store = ResilientStore::new(FallibleStore::new(0), label.clone(), 0);
    let mut batch = Batch::new(label);
    batch.put(&b"bar".to_vec(), &b"1".to_vec());
    store.write(batch);
    assert_eq!(store.get(&b"bar".to_vec()), Some(b"1".to_vec()));
    assert_eq!(store.read_tip_height(0), 1);
}

#[test]
fn blockhash_records_round_trip() {
    let mut store = ResilientStore::new(FallibleStore::new(2), None, 0);
    assert_eq!(store.lookup_blockhash(5), None);
    store.record_blockhash(5, &vec![0xaau8, 0xbbu8]);
    assert_eq!(store.lookup_blockhash(5), Some(vec![0xaau8, 0xbbu8]));
    // Overwriting is the expected correction path after a reorg.
    store.record_blockhash(5, &vec![0xccu8]);
    assert_eq!(store.lookup_blockhash(5), Some(vec![0xccu8]));
}

#[test]
fn height_counter_is_persisted_by_next_commit() {
    let mut store = ResilientStore::new(FallibleStore::new(0), None, 0);
    store.set_height(41);
    assert_eq!(store.height(), 41);
    store.write(Batch::new(None));
    assert_eq!(store.read_tip_height(0), 42);
}
