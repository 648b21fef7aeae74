//! The request history: an insertion-ordered mapping from URL to the text of
//! the response that the URL last produced.

use vstd::prelude::*;

verus! {

/// An entry of the store, as the specifications see it: the URL and the
/// stored value, both as character sequences.
pub type SpecEntry = (Seq<char>, Seq<char>);

/// Error returned by positional lookups past the end of the store.
#[derive(Clone, Copy, Debug, PartialEq, Eq, Structural)]
pub enum StoreError {
    OutOfRange,
}

/// True when no two entries of `s` share a URL.
pub open spec fn unique_keys(s: Seq<SpecEntry>) -> bool {
    forall|i: int, j: int| 0 <= i < j < s.len() ==> s[i].0 != s[j].0
}

/// True when some entry of `s` has the URL `k`.
pub open spec fn has_key(s: Seq<SpecEntry>, k: Seq<char>) -> bool {
    exists|i: int| 0 <= i < s.len() && s[i].0 == k
}

/// The position of the entry with URL `k` (meaningful when `has_key` holds
/// and keys are unique).
pub open spec fn key_index(s: Seq<SpecEntry>, k: Seq<char>) -> int {
    choose|i: int| 0 <= i < s.len() && s[i].0 == k
}

/// What inserting `k -> v` does to the store's contents: a seen URL keeps
/// its position and gets the new value; an unseen URL goes at the end.
pub open spec fn spec_insert(s: Seq<SpecEntry>, k: Seq<char>, v: Seq<char>) -> Seq<SpecEntry> {
    if has_key(s, k) {
        s.update(key_index(s, k), (k, v))
    } else {
        s.push((k, v))
    }
}

/// The URLs of `s`, in insertion order.
pub open spec fn keys_of(s: Seq<SpecEntry>) -> Seq<Seq<char>> {
    s.map(|i: int, e: SpecEntry| e.0)
}

/// What a positional lookup returns: the entry at `i`, or `OutOfRange`
/// past the end.
pub open spec fn spec_entry_at(s: Seq<SpecEntry>, i: int) -> Result<SpecEntry, StoreError> {
    if 0 <= i < s.len() {
        Ok(s[i])
    } else {
        Err(StoreError::OutOfRange)
    }
}

/// An insertion-ordered mapping from URL to response text. URLs are unique;
/// inserting a seen URL overwrites its value in place.
pub struct RequestStore {
    urls: Vec<String>,
    values: Vec<String>,
}

impl View for RequestStore {
    type V = Seq<SpecEntry>;

    closed spec fn view(&self) -> Seq<SpecEntry> {
        Seq::new(self.urls@.len(), |i: int| (self.urls@[i]@, self.values@[i]@))
    }
}

impl RequestStore {
    /// Internal bookkeeping: one stored value per URL.
    pub closed spec fn paired(&self) -> bool {
        self.urls@.len() == self.values@.len()
    }

    /// The store's invariant: values paired with URLs, URLs unique.
    pub open spec fn wf(&self) -> bool {
        self.paired() && unique_keys(self@)
    }

    /// Creates an empty store.
    pub fn new() -> (s: RequestStore)
        ensures
            s.wf(),
            s@ =~= Seq::<SpecEntry>::empty(),
    {
        RequestStore { urls: Vec::new(), values: Vec::new() }
    }

    /// The number of entries.
    pub fn size(&self) -> (n: usize)
        ensures
            n == self@.len(),
    {
        self.urls.len()
    }

    /// Adds `url -> value` at the end if `url` is unseen; otherwise
    /// overwrites the value of the existing entry, keeping its position.
    pub fn insert(&mut self, url: String, value: String)
        requires
            old(self).wf(),
        ensures
            final(self).wf(),
            final(self)@ =~= spec_insert(old(self)@, url@, value@),
    {
        let n = self.urls.len();
        let mut i: usize = 0;
        while i < n
            invariant
                *self == *old(self),
                self.wf(),
                n == self@.len(),
                i <= n,
                forall|j: int| 0 <= j < i ==> self@[j].0 != url@,
            decreases n - i,
        {
            if self.urls[i] == url {
                proof {
                    lemma_key_index_of(self@, url@, i as int);
                }
                self.values[i] = value;
                proof {
                    assert(self@ =~= old(self)@.update(i as int, (url@, value@)));
                    assert(forall|m: int|
                        0 <= m < self@.len() ==> self@[m].0 == old(self)@[m].0);
                    assert(unique_keys(self@));
                }
                return ;
            }
            i += 1;
        }
        assert(!has_key(self@, url@));
        self.urls.push(url);
        self.values.push(value);
        assert(self@ =~= old(self)@.push((url@, value@)));
    }

    /// Removes every entry.
    pub fn clear(&mut self)
        ensures
            final(self).wf(),
            final(self)@ =~= Seq::<SpecEntry>::empty(),
    {
        self.urls.clear();
        self.values.clear();
    }

    /// Returns the entry at the given zero-based position in insertion
    /// order, or `OutOfRange` past the end.
    pub fn entry_at(&self, index: usize) -> (r: Result<(String, String), StoreError>)
        requires
            self.wf(),
        ensures
            entry_at_matches(self@, index as int, r),
    {
        if index < self.urls.len() {
            Ok((self.urls[index].clone(), self.values[index].clone()))
        } else {
            Err(StoreError::OutOfRange)
        }
    }

    /// The URLs in insertion order, as a snapshot.
    pub fn keys_in_order(&self) -> (ks: Vec<String>)
        ensures
            ks@.len() == self@.len(),
            forall|i: int| 0 <= i < ks@.len() ==> ks@[i]@ == self@[i].0,
    {
        let n = self.urls.len();
        let mut ks: Vec<String> = Vec::new();
        let mut i: usize = 0;
        while i < n
            invariant
                n == self@.len(),
                i <= n,
                ks@.len() == i,
                forall|j: int| 0 <= j < i ==> ks@[j]@ == self@[j].0,
            decreases n - i,
        {
            ks.push(self.urls[i].clone());
            i += 1;
        }
        ks
    }
}

/// Relates an executable lookup result to the model's: equal positions give
/// equal entries, an out-of-range position gives the same error.
pub open spec fn entry_at_matches(
    s: Seq<SpecEntry>,
    i: int,
    r: Result<(String, String), StoreError>,
) -> bool {
    match (spec_entry_at(s, i), r) {
        (Ok(se), Ok(e)) => se == (e.0@, e.1@),
        (Err(a), Err(b)) => a == b,
        _ => false,
    }
}

/// Inserting keeps the URLs unique.
pub proof fn lemma_spec_insert_preserves_unique(s: Seq<SpecEntry>, k: Seq<char>, v: Seq<char>)
    requires
        unique_keys(s),
    ensures
        unique_keys(spec_insert(s, k, v)),
{
    let t = spec_insert(s, k, v);
    if has_key(s, k) {
        let i = key_index(s, k);
        assert(0 <= i < s.len() && s[i].0 == k);
        assert(forall|m: int| 0 <= m < t.len() ==> t[m].0 == s[m].0);
    }
}

/// Inserting a URL that the store already holds only updates its value:
/// the listing of URLs, the entry's position, and the size are those of the
/// first insertion, and the entry carries the latest value.
pub proof fn lemma_insert_existing_url_keeps_order(
    s: Seq<SpecEntry>,
    url: Seq<char>,
    v1: Seq<char>,
    v2: Seq<char>,
)
    requires
        unique_keys(s),
    ensures
        ({
            let once = spec_insert(s, url, v1);
            let twice = spec_insert(once, url, v2);
            &&& keys_of(twice) =~= keys_of(once)
            &&& has_key(twice, url)
            &&& key_index(twice, url) == key_index(once, url)
            &&& twice[key_index(twice, url)] == (url, v2)
            &&& twice.len() == once.len()
        }),
{
    let once = spec_insert(s, url, v1);
    let twice = spec_insert(once, url, v2);
    lemma_spec_insert_preserves_unique(s, url, v1);
    let i: int = if has_key(s, url) {
        key_index(s, url)
    } else {
        s.len() as int
    };
    if has_key(s, url) {
        assert(0 <= key_index(s, url) < s.len() && s[key_index(s, url)].0 == url);
    }
    assert(once[i].0 == url);
    lemma_key_index_of(once, url, i);
    assert(twice =~= once.update(i, (url, v2)));
    lemma_key_index_of(twice, url, i);
    assert(keys_of(twice) =~= keys_of(once));
}

/// An emptied store answers exactly as a fresh one: every positional lookup
/// is out of range and the listing of URLs is empty.
pub proof fn lemma_empty_store_lookups(i: int)
    ensures
        spec_entry_at(Seq::<SpecEntry>::empty(), i) == Err::<SpecEntry, StoreError>(
            StoreError::OutOfRange,
        ),
        keys_of(Seq::<SpecEntry>::empty()) =~= Seq::<Seq<char>>::empty(),
{
}

/// Inserting never shrinks the store, and fills an empty one.
pub proof fn lemma_spec_insert_grows(s: Seq<SpecEntry>, k: Seq<char>, v: Seq<char>)
    ensures
        spec_insert(s, k, v).len() >= s.len(),
        s.len() == 0 ==> spec_insert(s, k, v).len() == 1,
{
    if has_key(s, k) {
        assert(0 <= key_index(s, k) < s.len());
    }
}

/// An entry seen at position `i` of a store with unique URLs is the one
/// `key_index` points at.
pub proof fn lemma_key_index_of(s: Seq<SpecEntry>, k: Seq<char>, i: int)
    requires
        unique_keys(s),
        0 <= i < s.len(),
        s[i].0 == k,
    ensures
        has_key(s, k),
        key_index(s, k) == i,
{
    assert(has_key(s, k));
    let j = key_index(s, k);
    assert(0 <= j < s.len() && s[j].0 == k);
    if j != i {
        assert(s[i].0 != s[j].0);
    }
}

} // verus!
