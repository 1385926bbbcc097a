use vstd::prelude::*;
use vstd::slice::slice_to_vec;

verus! {

/// A raw byte-keyed store, owned by the host environment.
///
/// The facade borrows it — exclusively for writes, shared for reads —
/// and never manages its lifecycle. Its observable state is a map from
/// key bytes to value bytes; a write replaces the value wholesale.
pub trait Storage {
    /// The key-to-value map this store currently holds.
    spec fn contents(&self) -> Map<Seq<u8>, Seq<u8>>;

    /// Read the raw bytes stored under `key`; `None` if the key was
    /// never written.
    fn get(&self, key: &[u8]) -> (r: Option<Vec<u8>>)
        ensures
            match r {
                Some(v) => self.contents().contains_key(key@) && v@ == self.contents()[key@],
                None => !self.contents().contains_key(key@),
            },
    ;

    /// Write `value` under `key`, replacing any earlier value.
    fn set(&mut self, key: &[u8], value: &[u8])
        ensures
            final(self).contents() == old(self).contents().insert(key@, value@),
    ;
}

/// Concatenate a namespace and a key into one lookup key.
///
/// No delimiter is inserted: keeping distinct `(namespace, key)` pairs
/// from aliasing to the same combined key is the caller's
/// responsibility (fixed-width namespaces, or namespaces none of which
/// is a prefix of another).
pub fn concat(namespace: &[u8], key: &[u8]) -> (r: Vec<u8>)
    ensures
        r@ == namespace@ + key@,
{
    let mut combined = slice_to_vec(namespace);
    let mut tail = slice_to_vec(key);
    combined.append(&mut tail);
    combined
}

/// Byte-wise equality of two byte slices.
fn bytes_eq(a: &[u8], b: &[u8]) -> (r: bool)
    ensures
        r == (a@ == b@),
{
    if a.len() != b.len() {
        return false;
    }
    let mut i: usize = 0;
    while i < a.len()
        invariant
            i <= a.len(),
            a@.len() == b@.len(),
            forall|j: int| 0 <= j < i ==> a@[j] == b@[j],
        decreases a.len() - i,
    {
        if a[i] != b[i] {
            return false;
        }
        i = i + 1;
    }
    proof {
        assert(a@ =~= b@);
    }
    true
}

/// The map described by a log of writes: later entries override earlier
/// ones.
pub open spec fn written(log: Seq<(Vec<u8>, Vec<u8>)>) -> Map<Seq<u8>, Seq<u8>>
    decreases log.len(),
{
    if log.len() == 0 {
        Map::empty()
    } else {
        written(log.drop_last()).insert(log.last().0@, log.last().1@)
    }
}

/// If entry `i` holds key `k` and no later entry does, the log maps `k`
/// to the value of entry `i`.
proof fn lemma_written_found(log: Seq<(Vec<u8>, Vec<u8>)>, i: int, k: Seq<u8>)
    requires
        0 <= i < log.len(),
        log[i].0@ == k,
        forall|j: int| i < j < log.len() ==> log[j].0@ != k,
    ensures
        written(log).contains_key(k),
        written(log)[k] == log[i].1@,
    decreases log.len(),
{
    if i < log.len() - 1 {
        lemma_written_found(log.drop_last(), i, k);
    }
}

/// A key no entry holds is absent from the log's map.
proof fn lemma_written_absent(log: Seq<(Vec<u8>, Vec<u8>)>, k: Seq<u8>)
    requires
        forall|j: int| 0 <= j < log.len() ==> log[j].0@ != k,
    ensures
        !written(log).contains_key(k),
    decreases log.len(),
{
    if log.len() > 0 {
        lemma_written_absent(log.drop_last(), k);
    }
}

/// An in-memory [`Storage`] backend: an append-only log of writes in
/// which the latest write to a key wins.
#[derive(Clone)]
pub struct MemoryStorage {
    entries: Vec<(Vec<u8>, Vec<u8>)>,
}

impl MemoryStorage {
    /// An empty store: no key has ever been written.
    pub fn new() -> (r: MemoryStorage)
        ensures
            r.contents() == Map::<Seq<u8>, Seq<u8>>::empty(),
    {
        MemoryStorage { entries: Vec::new() }
    }
}

impl Storage for MemoryStorage {
    closed spec fn contents(&self) -> Map<Seq<u8>, Seq<u8>> {
        written(self.entries@)
    }

    fn get(&self, key: &[u8]) -> (r: Option<Vec<u8>>) {
        let mut i: usize = self.entries.len();
        while i > 0
            invariant
                i <= self.entries.len(),
                forall|j: int| i <= j < self.entries@.len() ==> self.entries@[j].0@ != key@,
            decreases i,
        {
            i = i - 1;
            if bytes_eq(self.entries[i].0.as_slice(), key) {
                let value = self.entries[i].1.clone();
                proof {
                    lemma_written_found(self.entries@, i as int, key@);
                    assert(value@ =~= self.entries@[i as int].1@);
                }
                return Some(value);
            }
        }
        proof {
            lemma_written_absent(self.entries@, key@);
        }
        None
    }

    fn set(&mut self, key: &[u8], value: &[u8]) {
        let k = slice_to_vec(key);
        let v = slice_to_vec(value);
        self.entries.push((k, v));
        proof {
            assert(self.entries@.drop_last() =~= old(self).entries@);
        }
    }
}

} // verus!
