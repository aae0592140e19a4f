use vstd::prelude::*;
use vstd::hash_map::StringHashMap;
use vstd::string::StringExecFns;
use crate::sketch::{Sketch, Score, sim_num, sim_den, is_merge_of};
use crate::storage::Storage;
use crate::ReadDataError;

verus! {

#[verifier::external_type_specification]
#[verifier::external_body]
#[verifier::reject_recursive_types(T)]
pub struct ExLazy<T>(lazy_init::Lazy<T>);

/// What a lazy cell holds: nothing until it is realized, then exactly one
/// sketch for the rest of its life.
pub uninterp spec fn cell_contents(c: lazy_init::Lazy<Sketch>) -> Option<Sketch>;

/// Relies on lazy_init::Lazy::new: a fresh cell is uninitialized.
#[verifier::external_body]
fn cell_new() -> (c: lazy_init::Lazy<Sketch>)
    ensures
        cell_contents(c) is None,
{
    lazy_init::Lazy::new()
}

/// Relies on lazy_init::Lazy::get: returns the realized value if there is
/// one, and runs no initializer.
#[verifier::external_body]
fn cell_get(c: &lazy_init::Lazy<Sketch>) -> (r: Option<Sketch>)
    ensures
        r == cell_contents(*c),
{
    c.get().cloned()
}

/// Relies on lazy_init::Lazy::get_or_create: realizes the cell with the
/// given value if it is empty, and returns the realized value either way.
#[verifier::external_body]
fn cell_get_or_create(c: &mut lazy_init::Lazy<Sketch>, v: Sketch) -> (r: Sketch)
    ensures
        cell_contents(*old(c)) is Some ==> cell_contents(*final(c)) == cell_contents(*old(c)),
        cell_contents(*old(c)) is None ==> cell_contents(*final(c)) == Some(v),
        Some(r) == cell_contents(*final(c)),
{
    c.get_or_create(move || v).clone()
}

/// A signature attached to a dataset, tagged by the sketch family it was
/// built with, so that the core can reject a mismatched family instead of
/// misreading it.
pub enum Signature {
    Ukhs(Sketch),
    MinHash(Vec<u64>),
}

/// A leaf-level container holding the raw signatures of one dataset.
pub struct Dataset {
    pub signatures: Vec<Signature>,
}

/// Whether a dataset resolves to exactly one signature of the expected
/// sketch family; every other cardinality or family is an unresolved
/// selection case.
pub open spec fn single_ukhs(d: Dataset) -> bool {
    d.signatures@.len() == 1 && d.signatures@[0] is Ukhs
}

/// The sketch of a dataset's single matching-family signature.
pub open spec fn dataset_sketch(d: Dataset) -> Sketch {
    d.signatures@[0]->Ukhs_0
}

/// A tree entry: identity, an optional shared storage handle, and a
/// write-once cell holding this node's realized sketch.
pub struct Node<S> {
    pub name: String,
    pub filename: String,
    pub metadata: StringHashMap<String>,
    pub storage: Option<S>,
    pub cell: lazy_init::Lazy<Sketch>,
}

impl<S> Node<S> {
    /// The realized sketch of this node, if the cell has been populated.
    pub closed spec fn sketch(self) -> Option<Sketch> {
        cell_contents(self.cell)
    }

    /// Whether `post` keeps every field of `pre` but the sketch cell
    /// unchanged: identity and the shared storage handle.
    pub open spec fn keeps_identity(pre: Node<S>, post: Node<S>) -> bool {
        post.name == pre.name && post.filename == pre.filename && post.metadata == pre.metadata
            && post.storage == pre.storage
    }

    /// Whether a realized sketch of `pre` survives unchanged into `post`.
    pub open spec fn keeps_sketch(pre: Node<S>, post: Node<S>) -> bool {
        pre.sketch() is Some ==> post.sketch() == pre.sketch()
    }

    /// A leaf node as the index builder creates it: named, keyed into the
    /// given storage, with nothing realized yet.
    pub fn new(name: &str, filename: &str, storage: Option<S>) -> (n: Node<S>)
        ensures
            n.name@ == name@,
            n.filename@ == filename@,
            n.metadata@ == Map::<Seq<char>, String>::empty(),
            n.storage == storage,
            n.sketch() is None,
    {
        Node {
            name: String::from_str(name),
            filename: String::from_str(filename),
            metadata: StringHashMap::new(),
            storage,
            cell: cell_new(),
        }
    }

    /// Swap in a freshly realized sketch, dropping whatever the cell held.
    fn replace_sketch(&mut self, v: Sketch)
        ensures
            final(self).sketch() == Some(v),
            final(self).name == old(self).name,
            final(self).filename == old(self).filename,
            final(self).metadata == old(self).metadata,
            final(self).storage == old(self).storage,
    {
        self.cell = cell_new();
        let _ = cell_get_or_create(&mut self.cell, v);
    }

    /// Folding one node's sketch into another is an open design question for
    /// this sketch family, so it is rejected rather than guessed at.
    pub fn update(&self, other: &mut Node<S>) -> (r: Result<(), ReadDataError>)
        ensures
            r == Err::<(), ReadDataError>(ReadDataError::UnsupportedOperation),
            *final(other) == *old(other),
    {
        Err(ReadDataError::UnsupportedOperation)
    }

    /// Asymmetric containment of one node in another is an open design
    /// question for this sketch family, so it is rejected rather than
    /// guessed at.
    pub fn containment(&self, _other: &Node<S>) -> (r: Result<Score, ReadDataError>)
        ensures
            r == Err::<Score, ReadDataError>(ReadDataError::UnsupportedOperation),
    {
        Err(ReadDataError::UnsupportedOperation)
    }

    /// Containment of a dataset in a node is likewise rejected.
    pub fn containment_to_dataset(&self, _other: &Dataset) -> (r: Result<Score, ReadDataError>)
        ensures
            r == Err::<Score, ReadDataError>(ReadDataError::UnsupportedOperation),
    {
        Err(ReadDataError::UnsupportedOperation)
    }
}

impl<S: Storage> Node<S> {
    /// The read path: return the realized sketch, materializing it from
    /// storage exactly once if the cell is still empty. A realized sketch is
    /// never recomputed, and a node with neither a realized sketch nor a
    /// storage handle has no source of truth to read from.
    pub fn data(&mut self) -> (r: Result<Sketch, ReadDataError>)
        ensures
            Node::keeps_identity(*old(self), *final(self)),
            old(self).sketch() is Some ==> *final(self) == *old(self) && r == Ok::<
                Sketch,
                ReadDataError,
            >(old(self).sketch()->Some_0),
            match r {
                Ok(sk) => final(self).sketch() == Some(sk) && (old(self).sketch() is None ==> old(
                    self,
                ).storage is Some),
                Err(e) => final(self).sketch() == old(self).sketch() && old(self).sketch() is None
                    && e != ReadDataError::UnsupportedOperation && (e == ReadDataError::LoadError
                    <==> old(self).storage is None),
            },
    {
        match cell_get(&self.cell) {
            Some(sk) => Ok(sk),
            None => {
                match &self.storage {
                    Some(st) => {
                        let bytes = match st.load(self.filename.as_str()) {
                            Ok(b) => b,
                            Err(_) => {
                                return Err(ReadDataError::StorageError);
                            },
                        };
                        match Sketch::from_bytes(&bytes) {
                            Ok(sk) => {
                                let r = cell_get_or_create(&mut self.cell, sk);
                                Ok(r)
                            },
                            Err(_) => Err(ReadDataError::DecodeError),
                        }
                    },
                    None => Err(ReadDataError::LoadError),
                }
            },
        }
    }

    /// Symmetric similarity of two nodes: one minus the distance of their
    /// sketches, each materialized through the read path if need be. A
    /// comparison never disturbs an already realized sketch.
    pub fn similarity(&mut self, other: &mut Node<S>) -> (r: Result<Score, ReadDataError>)
        ensures
            Node::keeps_identity(*old(self), *final(self)),
            Node::keeps_identity(*old(other), *final(other)),
            Node::keeps_sketch(*old(self), *final(self)),
            Node::keeps_sketch(*old(other), *final(other)),
            old(self).sketch() is Some && old(other).sketch() is Some ==> r is Ok,
            old(self).sketch() is None && old(self).storage is None ==> r == Err::<
                Score,
                ReadDataError,
            >(ReadDataError::LoadError),
            old(self).sketch() is Some && old(other).sketch() is None && old(other).storage is None
                ==> r == Err::<Score, ReadDataError>(ReadDataError::LoadError),
            match r {
                Ok(sc) => final(self).sketch() is Some && final(other).sketch() is Some && sc.num
                    == sim_num(final(self).sketch()->Some_0, final(other).sketch()->Some_0)
                    && sc.den == sim_den(final(self).sketch()->Some_0, final(other).sketch()->Some_0)
                    && 0 <= sc.num <= sc.den && 1 <= sc.den && (old(self).sketch() is None ==> old(
                    self,
                ).storage is Some) && (old(other).sketch() is None ==> old(other).storage is Some),
                Err(e) => e != ReadDataError::UnsupportedOperation && final(other).sketch() == old(
                    other,
                ).sketch() && (e == ReadDataError::LoadError ==> (old(self).sketch() is None && old(
                    self,
                ).storage is None) || (old(other).sketch() is None && old(other).storage is None)),
            },
    {
        let me_sig = match self.data() {
            Ok(s) => s,
            Err(e) => {
                return Err(e);
            },
        };
        let o_sig = match other.data() {
            Ok(s) => s,
            Err(e) => {
                return Err(e);
            },
        };
        Ok(me_sig.similarity(&o_sig))
    }

    /// Symmetric similarity of this node against a dataset, after resolving
    /// the dataset to its single matching-family signature; any other
    /// cardinality or family is rejected as an unresolved selection case.
    pub fn similarity_to_dataset(&mut self, other: &Dataset) -> (r: Result<Score, ReadDataError>)
        ensures
            Node::keeps_identity(*old(self), *final(self)),
            Node::keeps_sketch(*old(self), *final(self)),
            single_ukhs(*other) && old(self).sketch() is Some ==> r is Ok,
            match r {
                Ok(sc) => single_ukhs(*other) && final(self).sketch() is Some && sc.num == sim_num(
                    final(self).sketch()->Some_0,
                    dataset_sketch(*other),
                ) && sc.den == sim_den(final(self).sketch()->Some_0, dataset_sketch(*other)) && 0
                    <= sc.num <= sc.den && 1 <= sc.den && (old(self).sketch() is None ==> old(
                    self,
                ).storage is Some),
                Err(e) => final(self).sketch() == old(self).sketch() && (e
                    == ReadDataError::UnsupportedOperation <==> !single_ukhs(*other)) && (e
                    == ReadDataError::LoadError <==> single_ukhs(*other) && old(self).sketch()
                    is None && old(self).storage is None),
            },
    {
        if other.signatures.len() != 1 {
            return Err(ReadDataError::UnsupportedOperation);
        }
        match &other.signatures[0] {
            Signature::Ukhs(o_sig) => {
                let me_sig = match self.data() {
                    Ok(s) => s,
                    Err(e) => {
                        return Err(e);
                    },
                };
                Ok(me_sig.similarity(o_sig))
            },
            _ => Err(ReadDataError::UnsupportedOperation),
        }
    }
}

impl Dataset {
    /// A dataset over the given signatures.
    pub fn new(signatures: Vec<Signature>) -> (d: Dataset)
        ensures
            d.signatures == signatures,
    {
        Dataset { signatures }
    }

    /// The ordered signatures this dataset holds.
    pub fn data(&self) -> (r: &Vec<Signature>)
        ensures
            r == &self.signatures,
    {
        &self.signatures
    }

    /// Fold this dataset's sketch into a target node: resolve the dataset to
    /// its single matching-family signature, read the target's current
    /// sketch, merge the signature's sketch into a copy of it, and replace
    /// the target's cell with the merged result. On any failure the target's
    /// previous sketch state is left untouched.
    pub fn update<S: Storage>(&self, other: &mut Node<S>) -> (r: Result<(), ReadDataError>)
        ensures
            Node::keeps_identity(*old(other), *final(other)),
            single_ukhs(*self) && old(other).sketch() is Some ==> r is Ok,
            match r {
                Ok(()) => single_ukhs(*self) && final(other).sketch() is Some && (old(
                    other,
                ).sketch() is None ==> old(other).storage is Some) && (exists|base: Sketch|
                    #[trigger] is_merge_of(
                        final(other).sketch()->Some_0,
                        base,
                        dataset_sketch(*self),
                    ) && (old(other).sketch() is Some ==> Some(base) == old(other).sketch())),
                Err(e) => final(other).sketch() == old(other).sketch() && (e
                    == ReadDataError::UnsupportedOperation <==> !single_ukhs(*self)) && (e
                    == ReadDataError::LoadError <==> single_ukhs(*self) && old(other).sketch()
                    is None && old(other).storage is None),
            },
    {
        if self.signatures.len() != 1 {
            return Err(ReadDataError::UnsupportedOperation);
        }
        match &self.signatures[0] {
            Signature::Ukhs(sig) => {
                let mut data = match other.data() {
                    Ok(s) => s,
                    Err(e) => {
                        return Err(e);
                    },
                };
                let ghost base = data;
                data.merge(sig);
                other.replace_sketch(data);
                proof {
                    assert(is_merge_of(other.sketch()->Some_0, base, dataset_sketch(*self)));
                    assert(exists|b2: Sketch|
                        #[trigger] is_merge_of(other.sketch()->Some_0, b2, dataset_sketch(*self))
                            && (old(other).sketch() is Some ==> Some(b2) == old(other).sketch()));
                }
                Ok(())
            },
            _ => Err(ReadDataError::UnsupportedOperation),
        }
    }
}

/// Builds fresh internal nodes for a chosen sketch configuration during
/// bottom-up index construction.
pub struct Factory {
    pub w: u64,
    pub k: u64,
}

impl Factory {
    /// A factory for the given window and k-mer sizes.
    pub fn new(w: u64, k: u64) -> (f: Factory)
        ensures
            f.w == w,
            f.k == k,
    {
        Factory { w, k }
    }

    /// A factory with the default construction parameters of the family.
    pub fn with_default_params() -> (f: Factory)
        ensures
            f.w == 9,
            f.k == 31,
    {
        Factory { w: 9, k: 31 }
    }

    /// A fresh internal node: empty metadata, the given shared storage
    /// handle, and a cell pre-populated with an empty sketch built from this
    /// factory's parameters.
    pub fn factory<S>(&self, name: &str, storage: Option<S>) -> (n: Node<S>)
        ensures
            n.name@ == name@,
            n.filename@ == name@,
            n.metadata@ == Map::<Seq<char>, String>::empty(),
            n.storage == storage,
            (n.sketch() matches Some(s) && s.w == self.w && s.k == self.k && s.buckets@
                == Seq::<u64>::empty()),
    {
        let mut cell = cell_new();
        let _ = cell_get_or_create(&mut cell, Sketch::new(self.w, self.k));
        Node {
            name: String::from_str(name),
            filename: String::from_str(name),
            metadata: StringHashMap::new(),
            storage,
            cell,
        }
    }
}

} // verus!
