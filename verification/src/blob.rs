use crate::digest::digest_of;
use crate::digest::file_digest;
use vstd::prelude::*;
use vstd::slice::slice_to_vec;

verus! {

/// A content-addressed store of file bytes: each entry is kept under the
/// digest of its content, and identical content is stored only once.
pub struct BlobStore {
    entries: Vec<(String, Vec<u8>)>,
}

/// The map from digest keys to stored bytes that a sequence of entries
/// holds; a later entry would win, but a well-formed store never repeats
/// a key.
pub open spec fn entries_map(s: Seq<(String, Vec<u8>)>) -> Map<Seq<char>, Seq<u8>>
    decreases s.len(),
{
    if s.len() == 0 {
        Map::empty()
    } else {
        entries_map(s.drop_last()).insert(s.last().0@, s.last().1@)
    }
}

/// No two entries share a digest key.
pub open spec fn unique_keys(s: Seq<(String, Vec<u8>)>) -> bool {
    forall|i: int, j: int| 0 <= i < j < s.len() ==> s[i].0@ != s[j].0@
}

/// What one store of bytes does to the stored map: nothing if the digest
/// key is already present, else it adds the bytes under that key.
pub open spec fn put_spec(m: Map<Seq<char>, Seq<u8>>, b: Seq<u8>) -> Map<Seq<char>, Seq<u8>> {
    if m.contains_key(digest_of(b)) {
        m
    } else {
        m.insert(digest_of(b), b)
    }
}

/// A key is in the map exactly when some entry carries it.
proof fn lemma_entries_map_domain(s: Seq<(String, Vec<u8>)>, k: Seq<char>)
    ensures
        entries_map(s).contains_key(k) <==> (exists|i: int|
            0 <= i < s.len() && s[i].0@ == k),
    decreases s.len(),
{
    if s.len() > 0 {
        lemma_entries_map_domain(s.drop_last(), k);
        if s.last().0@ == k {
            assert(s[s.len() - 1].0@ == k);
        } else if exists|i: int| 0 <= i < s.len() && s[i].0@ == k {
            let i = choose|i: int| 0 <= i < s.len() && s[i].0@ == k;
            assert(0 <= i < s.len() - 1 && s.drop_last()[i].0@ == k);
        }
    }
}

/// With unique keys, the map sends each entry's key to that entry's bytes.
proof fn lemma_entries_map_at(s: Seq<(String, Vec<u8>)>, i: int)
    requires
        unique_keys(s),
        0 <= i < s.len(),
    ensures
        entries_map(s).contains_key(s[i].0@),
        entries_map(s)[s[i].0@] == s[i].1@,
    decreases s.len(),
{
    if i < s.len() - 1 {
        assert(unique_keys(s.drop_last()));
        lemma_entries_map_at(s.drop_last(), i);
    }
}

/// With unique keys, the map holds exactly one entry for each stored
/// content.
proof fn lemma_entries_map_card(s: Seq<(String, Vec<u8>)>)
    requires
        unique_keys(s),
    ensures
        entries_map(s).dom().finite(),
        entries_map(s).dom().len() == s.len(),
    decreases s.len(),
{
    if s.len() > 0 {
        assert(unique_keys(s.drop_last()));
        lemma_entries_map_card(s.drop_last());
        lemma_entries_map_domain(s.drop_last(), s.last().0@);
        assert(!entries_map(s.drop_last()).contains_key(s.last().0@));
        assert(entries_map(s).dom() =~= entries_map(s.drop_last()).dom().insert(s.last().0@));
    }
}

impl BlobStore {
    /// Whether the store's entries are well formed: no digest key repeats.
    pub closed spec fn wf(self) -> bool {
        unique_keys(self.entries@)
    }

    /// An empty store.
    pub fn new() -> (r: BlobStore)
        ensures
            r.wf(),
            r@ == Map::<Seq<char>, Seq<u8>>::empty(),
    {
        BlobStore { entries: Vec::new() }
    }

    /// The index of the entry under the given key, if one exists.
    fn find(&self, key: &String) -> (r: Option<usize>)
        ensures
            match r {
                Some(i) => i < self.entries@.len() && self.entries@[i as int].0@ == key@,
                None => forall|i: int|
                    0 <= i < self.entries@.len() ==> self.entries@[i].0@ != key@,
            },
    {
        let mut i: usize = 0;
        while i < self.entries.len()
            invariant
                i <= self.entries@.len(),
                forall|j: int| 0 <= j < i ==> self.entries@[j].0@ != key@,
            decreases self.entries@.len() - i,
        {
            if self.entries[i].0 == *key {
                return Some(i);
            }
            i = i + 1;
        }
        None
    }

    /// Stores the bytes under the digest of their content and returns that
    /// digest. If an entry with the digest already exists it is left
    /// unchanged, so identical content is never stored twice. The write is
    /// complete when this returns: a caller may hand the digest on only
    /// afterwards.
    pub fn put(&mut self, bytes: &Vec<u8>) -> (digest: String)
        requires
            old(self).wf(),
        ensures
            final(self).wf(),
            digest@ == digest_of(bytes@),
            final(self)@ == put_spec(old(self)@, bytes@),
    {
        let d = file_digest(bytes);
        proof {
            lemma_entries_map_domain(self.entries@, d@);
        }
        match self.find(&d) {
            Some(i) => {
                proof {
                    lemma_entries_map_at(self.entries@, i as int);
                }
                d
            },
            None => {
                let ghost old_entries = self.entries@;
                let content = slice_to_vec(bytes.as_slice());
                let key = d.clone();
                self.entries.push((key, content));
                proof {
                    assert(self.entries@.drop_last() =~= old_entries);
                    assert(forall|i: int, j: int|
                        0 <= i < j < self.entries@.len() ==> self.entries@[i].0@
                            != self.entries@[j].0@);
                }
                d
            },
        }
    }

    /// How many distinct contents the store holds: one for each digest
    /// key.
    pub fn blob_count(&self) -> (r: usize)
        requires
            self.wf(),
        ensures
            r == self@.dom().len(),
    {
        proof {
            lemma_entries_map_card(self.entries@);
        }
        self.entries.len()
    }

    /// Returns the bytes stored under the given digest, if any.
    pub fn get(&self, digest: &String) -> (r: Option<&Vec<u8>>)
        requires
            self.wf(),
        ensures
            match r {
                Some(v) => self@.contains_key(digest@) && v@ == self@[digest@],
                None => !self@.contains_key(digest@),
            },
    {
        proof {
            lemma_entries_map_domain(self.entries@, digest@);
        }
        match self.find(digest) {
            Some(i) => {
                proof {
                    lemma_entries_map_at(self.entries@, i as int);
                }
                Some(&self.entries[i].1)
            },
            None => None,
        }
    }
}

impl View for BlobStore {
    type V = Map<Seq<char>, Seq<u8>>;

    closed spec fn view(&self) -> Map<Seq<char>, Seq<u8>> {
        entries_map(self.entries@)
    }
}

/// Storing the same content twice yields the same digest both times and
/// leaves the store exactly as after the first time: it holds one copy of
/// that content, under its one digest key.
pub proof fn lemma_put_idempotent(m: Map<Seq<char>, Seq<u8>>, b: Seq<u8>)
    ensures
        put_spec(put_spec(m, b), b) == put_spec(m, b),
        put_spec(m, b).contains_key(digest_of(b)),
{
    assert(put_spec(put_spec(m, b), b) =~= put_spec(m, b));
}

/// Equal byte sequences always receive equal digests.
pub proof fn lemma_digest_deterministic(b1: Seq<u8>, b2: Seq<u8>)
    requires
        b1 == b2,
    ensures
        digest_of(b1) == digest_of(b2),
{
}

/// Round trip: after storing bytes whose digest key was still free, or
/// already held those very bytes, the store maps that key to exactly those
/// bytes.
pub proof fn lemma_store_round_trip(m: Map<Seq<char>, Seq<u8>>, b: Seq<u8>)
    requires
        m.contains_key(digest_of(b)) ==> m[digest_of(b)] == b,
    ensures
        put_spec(m, b).contains_key(digest_of(b)),
        put_spec(m, b)[digest_of(b)] == b,
{
}

} // verus!
