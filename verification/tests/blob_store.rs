use receipts::blob::BlobStore;

const ABC_SHA256: &str = "ba7816bf8f01cfea414140de5dae2223b00361a396177a9cb410ff61f20015ad";

#[test]
fn put_returns_the_sha256_hex_digest() {
    let mut store = BlobStore::new();
    let digest = store.put(&b"abc".to_vec());
    assert_eq!(digest, ABC_SHA256);
}

#[test]
fn put_twice_yields_the_same_digest_and_one_copy() {
    let mut store = BlobStore::new();
    let bytes = b"some receipt bytes".to_vec();
    let first = store.put(&bytes);
    let second = store.put(&bytes);
    assert_eq!(first, second);
    assert_eq!(store.blob_count(), 1);
    let stored = store.get(&first).expect("stored content");
    assert_eq!(stored, &bytes);
}

#[test]
fn different_content_gets_different_digests() {
    let mut store = BlobStore::new();
    let d1 = store.put(&b"abc".to_vec());
    let d2 = store.put(&b"abd".to_vec());
    let d3 = store.put(&b"".to_vec());
    assert_ne!(d1, d2);
    assert_ne!(d1, d3);
    assert_ne!(d2, d3);
}

#[test]
fn get_of_an_unknown_digest_is_none() {
    let store = BlobStore::new();
    assert!(store.get(&ABC_SHA256.to_string()).is_none());
}

#[test]
fn both_contents_stay_retrievable() {
    let mut store = BlobStore::new();
    let a = b"first file".to_vec();
    let b = b"second file".to_vec();
    let da = store.put(&a);
    let db = store.put(&b);
    assert_eq!(store.blob_count(), 2);
    assert_eq!(store.get(&da).expect("first"), &a);
    assert_eq!(store.get(&db).expect("second"), &b);
}
