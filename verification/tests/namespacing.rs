use keydb_sync::keys::{height_to_hash_key, tip_height_key, to_labeled_key, to_redis_args, to_redis_key};
use keydb_sync::store::{FallibleStore, ResilientStore};

#[test]
fn labeled_key_prefixes_label_and_separator() {
    let key: Vec<u8> = b"bar".to_vec();
    let label: Option<Vec<u8>> = Some(b"foo".to_vec());
    assert_eq!(to_labeled_key(&key, &label), b"foo://bar".to_vec());
}

#[test]
fn unlabeled_key_is_unchanged() {
    let key: Vec<u8> = b"bar".to_vec();
    assert_eq!(to_labeled_key(&key, &None), b"bar".to_vec());
}

#[test]
fn redis_args_wrap_one_value() {
    let v: Vec<u8> = b"value".to_vec();
    assert_eq!(to_redis_args(&v), vec![b"value".to_vec()]);
}

#[test]
fn redis_key_is_labeled() {
    let v: Vec<u8> = b"k".to_vec();
    let label: Option<Vec<u8>> = Some(b"ns".to_vec());
    assert_eq!(to_redis_key(&v, &label), vec![b"ns://k".to_vec()]);
    assert_eq!(to_redis_key(&v, &None), vec![b"k".to_vec()]);
}

#[test]
fn reserved_keys_spell_out() {
    assert_eq!(tip_height_key(), b"/__INTERNAL/tip-height".to_vec());
    assert_eq!(height_to_hash_key(0), b"/__INTERNAL/height-to-hash/0".to_vec());
    assert_eq!(height_to_hash_key(1042), b"/__INTERNAL/height-to-hash/1042".to_vec());
    assert_eq!(
        height_to_hash_key(u32::MAX),
        b"/__INTERNAL/height-to-hash/4294967295".to_vec()
    );
}

#[test]
fn namespace_isolation_with_label() {
    // With label "foo" set, key "bar" is stored under the combined key
    // "foo://bar" and is retrievable only through the namespacer.
    let mut labeled = ResilientStore::new(FallibleStore::new(0), Some(b"foo".to_vec()), 0);
    let key: Vec<u8> = b"bar".to_vec();
    let value: Vec<u8> = b"v".to_vec();
    labeled.put(&key, &value);
    assert_eq!(labeled.get(&key), Some(b"v".to_vec()));
    // The raw combined key read through the namespacer is a different key.
    assert_eq!(labeled.get(&b"foo://bar".to_vec()), None);

    // A store with no label uses the raw combined key unmodified, so the
    // same journal read without a label only answers under "foo://bar".
    let mut plain = ResilientStore::new(FallibleStore::new(0), None, 0);
    plain.put(&b"foo://bar".to_vec(), &value);
    assert_eq!(plain.get(&b"foo://bar".to_vec()), Some(b"v".to_vec()));
    assert_eq!(plain.get(&b"bar".to_vec()), None);
}

#[test]
fn namespace_isolation_without_label() {
    let mut store = ResilientStore::new(FallibleStore::new(0), None, 0);
    let key: Vec<u8> = b"bar".to_vec();
    let value: Vec<u8> = b"plain".to_vec();
    store.put(&key, &value);
    assert_eq!(store.get(&key), Some(b"plain".to_vec()));
}
