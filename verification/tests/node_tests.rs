use std::cell::Cell;
use std::rc::Rc;

use sketch_index::node::{Dataset, Factory, Node, Signature};
use sketch_index::sketch::{Score, Sketch};
use sketch_index::storage::{Storage, StorageError};
use sketch_index::ReadDataError;

/// A storage stub serving fixed bytes for one key and counting every load.
struct StubStorage {
    key: String,
    bytes: Vec<u8>,
    calls: Rc<Cell<usize>>,
}

impl StubStorage {
    fn new(key: &str, bytes: Vec<u8>) -> StubStorage {
        StubStorage { key: key.to_string(), bytes, calls: Rc::new(Cell::new(0)) }
    }
}

impl Storage for StubStorage {
    fn load(&self, key: &str) -> Result<Vec<u8>, StorageError> {
        self.calls.set(self.calls.get() + 1);
        if key == self.key {
            Ok(self.bytes.clone())
        } else {
            Err(StorageError)
        }
    }
}

fn sketch(w: u64, k: u64, buckets: Vec<u64>) -> Sketch {
    Sketch { w, k, buckets }
}

fn score_value(s: &Score) -> f64 {
    s.num as f64 / s.den as f64
}

#[test]
fn factory_node_is_prepopulated() {
    let f = Factory::with_default_params();
    let mut n = f.factory::<StubStorage>("internal", None);
    let sk = n.data().expect("factory node must have a realized sketch");
    assert_eq!(sk.w, 9);
    assert_eq!(sk.k, 31);
    assert_eq!(sk.buckets.len(), 0);
    assert_eq!(n.name, "internal".to_string());
    assert_eq!(n.filename, "internal".to_string());
    assert_eq!(n.metadata.len(), 0);
}

#[test]
fn factory_nodes_are_fully_similar() {
    let f = Factory::with_default_params();
    let mut a = f.factory::<StubStorage>("a", None);
    let mut b = f.factory::<StubStorage>("a", None);
    let sc = a.similarity(&mut b).expect("both sketches are realized");
    assert_eq!(score_value(&sc), 1.0);
}

#[test]
fn read_without_storage_fails_with_load_error() {
    let mut n: Node<StubStorage> = Node::new("leaf", "leaf", None);
    assert_eq!(n.data(), Err(ReadDataError::LoadError));
    assert_eq!(n.data(), Err(ReadDataError::LoadError));
}

#[test]
fn lazy_load_reads_storage_exactly_once() {
    let expected = sketch(9, 31, vec![5, 0, 7]);
    let bytes = expected.to_bytes();
    let stub = StubStorage::new("leaf1", bytes);
    let calls = Rc::clone(&stub.calls);
    let mut n = Node::new("leaf1", "leaf1", Some(stub));

    let first = n.data().expect("the stub serves valid bytes");
    assert_eq!(first, expected);
    assert_eq!(calls.get(), 1);

    let second = n.data().expect("the cached sketch is returned");
    assert_eq!(second, expected);
    assert_eq!(calls.get(), 1);
}

#[test]
fn storage_failure_surfaces_as_storage_error() {
    let stub = StubStorage::new("other_key", vec![]);
    let calls = Rc::clone(&stub.calls);
    let mut n = Node::new("leaf1", "leaf1", Some(stub));
    assert_eq!(n.data(), Err(ReadDataError::StorageError));
    assert_eq!(calls.get(), 1);
}

#[test]
fn bad_bytes_surface_as_decode_error() {
    let stub = StubStorage::new("leaf1", vec![1, 2, 3]);
    let mut n = Node::new("leaf1", "leaf1", Some(stub));
    assert_eq!(n.data(), Err(ReadDataError::DecodeError));
}

#[test]
fn similarity_is_symmetric_between_nodes() {
    let f = Factory::new(9, 31);
    let mut a = f.factory::<StubStorage>("a", None);
    let mut b = f.factory::<StubStorage>("b", None);
    let da = Dataset::new(vec![Signature::Ukhs(sketch(9, 31, vec![2, 4]))]);
    let db = Dataset::new(vec![Signature::Ukhs(sketch(9, 31, vec![1, 4, 8]))]);
    da.update(&mut a).expect("single matching signature");
    db.update(&mut b).expect("single matching signature");

    let ab = a.similarity(&mut b).expect("both realized");
    let ba = b.similarity(&mut a).expect("both realized");
    assert_eq!(ab, ba);
    // diff mass 1 + 0 + 8 over total weight 2 + 4 + 8
    assert_eq!(ab.num, 5);
    assert_eq!(ab.den, 14);
}

#[test]
fn similarity_of_a_node_with_itself_is_one() {
    let f = Factory::new(9, 31);
    let mut a = f.factory::<StubStorage>("a", None);
    let d = Dataset::new(vec![Signature::Ukhs(sketch(9, 31, vec![3, 1, 4, 1, 5]))]);
    d.update(&mut a).expect("single matching signature");

    let sk = a.data().expect("realized");
    let sc = sk.similarity(&sk);
    assert_eq!(sc.num, sc.den);
    assert_eq!(score_value(&sc), 1.0);
}

#[test]
fn update_with_single_matching_signature_merges() {
    let f = Factory::new(9, 31);
    let mut n = f.factory::<StubStorage>("parent", None);
    let d = Dataset::new(vec![Signature::Ukhs(sketch(9, 31, vec![1, 2, 3]))]);
    assert_eq!(d.update(&mut n), Ok(()));
    let sk = n.data().expect("realized");
    assert_eq!(sk, sketch(9, 31, vec![1, 2, 3]));

    let d2 = Dataset::new(vec![Signature::Ukhs(sketch(9, 31, vec![10, 0, 0, 4]))]);
    assert_eq!(d2.update(&mut n), Ok(()));
    let sk2 = n.data().expect("realized");
    assert_eq!(sk2, sketch(9, 31, vec![11, 2, 3, 4]));
}

#[test]
fn update_merge_saturates_bucket_counts() {
    let f = Factory::new(9, 31);
    let mut n = f.factory::<StubStorage>("parent", None);
    let d = Dataset::new(vec![Signature::Ukhs(sketch(9, 31, vec![u64::MAX, 1]))]);
    assert_eq!(d.update(&mut n), Ok(()));
    let d2 = Dataset::new(vec![Signature::Ukhs(sketch(9, 31, vec![7, 2]))]);
    assert_eq!(d2.update(&mut n), Ok(()));
    let sk = n.data().expect("realized");
    assert_eq!(sk.buckets, vec![u64::MAX, 3]);
}

#[test]
fn update_with_empty_dataset_is_unsupported_and_atomic() {
    let f = Factory::new(9, 31);
    let mut n = f.factory::<StubStorage>("parent", None);
    let before = n.data().expect("realized");
    let d = Dataset::new(vec![]);
    assert_eq!(d.update(&mut n), Err(ReadDataError::UnsupportedOperation));
    assert_eq!(n.data().expect("unchanged"), before);
}

#[test]
fn update_with_two_signatures_is_unsupported_and_atomic() {
    let f = Factory::new(9, 31);
    let mut n = f.factory::<StubStorage>("parent", None);
    let d0 = Dataset::new(vec![Signature::Ukhs(sketch(9, 31, vec![4]))]);
    d0.update(&mut n).expect("single matching signature");
    let before = n.data().expect("realized");

    let d = Dataset::new(vec![
        Signature::Ukhs(sketch(9, 31, vec![1])),
        Signature::Ukhs(sketch(9, 31, vec![2])),
    ]);
    assert_eq!(d.update(&mut n), Err(ReadDataError::UnsupportedOperation));
    assert_eq!(n.data().expect("unchanged"), before);
}

#[test]
fn update_with_mismatched_family_is_unsupported_and_atomic() {
    let f = Factory::new(9, 31);
    let mut n = f.factory::<StubStorage>("parent", None);
    let before = n.data().expect("realized");
    let d = Dataset::new(vec![Signature::MinHash(vec![1, 2, 3])]);
    assert_eq!(d.update(&mut n), Err(ReadDataError::UnsupportedOperation));
    assert_eq!(n.data().expect("unchanged"), before);
}

#[test]
fn node_to_node_update_is_unsupported() {
    let f = Factory::new(9, 31);
    let a = f.factory::<StubStorage>("a", None);
    let mut b = f.factory::<StubStorage>("b", None);
    assert_eq!(a.update(&mut b), Err(ReadDataError::UnsupportedOperation));
}

#[test]
fn containment_is_unsupported() {
    let f = Factory::new(9, 31);
    let a = f.factory::<StubStorage>("a", None);
    let b = f.factory::<StubStorage>("b", None);
    assert_eq!(a.containment(&b), Err(ReadDataError::UnsupportedOperation));
    let d = Dataset::new(vec![Signature::Ukhs(sketch(9, 31, vec![1]))]);
    assert_eq!(a.containment_to_dataset(&d), Err(ReadDataError::UnsupportedOperation));
}

#[test]
fn similarity_to_dataset_matches_node_similarity() {
    let f = Factory::new(9, 31);
    let mut a = f.factory::<StubStorage>("a", None);
    let da = Dataset::new(vec![Signature::Ukhs(sketch(9, 31, vec![2, 4]))]);
    da.update(&mut a).expect("single matching signature");

    let query = Dataset::new(vec![Signature::Ukhs(sketch(9, 31, vec![1, 4, 8]))]);
    let sc = a.similarity_to_dataset(&query).expect("single matching signature");
    assert_eq!(sc.num, 5);
    assert_eq!(sc.den, 14);
}

#[test]
fn similarity_to_dataset_rejects_bad_selections() {
    let f = Factory::new(9, 31);
    let mut a = f.factory::<StubStorage>("a", None);
    let empty = Dataset::new(vec![]);
    assert_eq!(a.similarity_to_dataset(&empty), Err(ReadDataError::UnsupportedOperation));
    let double = Dataset::new(vec![
        Signature::Ukhs(sketch(9, 31, vec![1])),
        Signature::Ukhs(sketch(9, 31, vec![2])),
    ]);
    assert_eq!(a.similarity_to_dataset(&double), Err(ReadDataError::UnsupportedOperation));
    let minhash = Dataset::new(vec![Signature::MinHash(vec![1])]);
    assert_eq!(a.similarity_to_dataset(&minhash), Err(ReadDataError::UnsupportedOperation));
}

#[test]
fn dataset_data_returns_signatures_in_order() {
    let d = Dataset::new(vec![
        Signature::MinHash(vec![9]),
        Signature::Ukhs(sketch(9, 31, vec![1])),
    ]);
    let sigs = d.data();
    assert_eq!(sigs.len(), 2);
    assert!(matches!(sigs[0], Signature::MinHash(_)));
    assert!(matches!(sigs[1], Signature::Ukhs(_)));
}

#[test]
fn comparison_failure_leaves_nodes_untouched() {
    // One node resolvable, the other with neither sketch nor storage.
    let f = Factory::new(9, 31);
    let mut a = f.factory::<StubStorage>("a", None);
    let before = a.data().expect("realized");
    let mut broken: Node<StubStorage> = Node::new("b", "b", None);
    assert_eq!(a.similarity(&mut broken), Err(ReadDataError::LoadError));
    assert_eq!(a.data().expect("unchanged"), before);
    assert_eq!(broken.data(), Err(ReadDataError::LoadError));
}
