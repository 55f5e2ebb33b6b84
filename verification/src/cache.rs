//! The provider cache and blob cache models: what a provider knows about
//! each mod without touching the network, keyed by the specification's
//! address, with one entry per address.

use vstd::prelude::*;

use crate::mod_info::{ModInfo, ModInfoView};
use crate::text::str_eq;

verus! {

/// Failure of the underlying metadata store.
#[derive(Debug, PartialEq, Eq)]
pub enum CacheError {
    /// The store could not be read or written.
    Io { path: String },
    /// The store's contents could not be decoded.
    Corrupt { path: String },
    /// The store was written by an incompatible version.
    VersionMismatch { found: u32, expected: u32 },
}

/// Failure of the underlying content-addressed blob store.
#[derive(Debug, PartialEq, Eq)]
pub enum BlobCacheError {
    /// The blob store could not be read or written.
    Io { path: String },
    /// A stored blob does not match its content address.
    Corrupt { hash: String },
}

/// The mathematical value of a [`CacheEntry`].
#[verifier::ext_equal]
pub struct CacheEntryView {
    pub spec_url: Seq<char>,
    pub info: ModInfoView,
    pub pinned: bool,
    pub modfile_url: Option<Seq<char>>,
}

/// Everything a provider has recorded about one specification: resolved
/// metadata, whether the specification denotes an exact version, and the
/// address of the downloadable artifact, if the mod has one.
#[derive(Debug, PartialEq, Eq)]
pub struct CacheEntry {
    pub spec_url: String,
    pub info: ModInfo,
    pub pinned: bool,
    pub modfile_url: Option<String>,
}

impl View for CacheEntry {
    type V = CacheEntryView;

    open spec fn view(&self) -> CacheEntryView {
        CacheEntryView {
            spec_url: self.spec_url@,
            info: self.info@,
            pinned: self.pinned,
            modfile_url: match self.modfile_url {
                Some(u) => Some(u@),
                None => None,
            },
        }
    }
}

impl Clone for CacheEntry {
    fn clone(&self) -> (r: Self)
        ensures
            r == *self,
    {
        CacheEntry {
            spec_url: self.spec_url.clone(),
            info: self.info.clone(),
            pinned: self.pinned,
            modfile_url: match &self.modfile_url {
                Some(u) => Some(u.clone()),
                None => None,
            },
        }
    }
}

/// The metadata cache a provider reads during resolution and rewrites
/// during cache updates. Shared readers take it by `&`; the single writer
/// of an update takes it by `&mut`.
pub struct ProviderCache {
    pub entries: Vec<CacheEntry>,
}

impl ProviderCache {
    /// Each address has at most one entry.
    pub open spec fn wf(self) -> bool {
        forall|i: int, j: int|
            0 <= i < self.entries@.len() && 0 <= j < self.entries@.len() && i != j
                ==> self.entries@[i]@.spec_url != self.entries@[j]@.spec_url
    }

    /// Some entry is recorded under `url`.
    pub open spec fn has_entry(self, url: Seq<char>) -> bool {
        exists|i: int| 0 <= i < self.entries@.len() && self.entries@[i]@.spec_url == url
    }

    /// The index of the entry recorded under `url`, where one exists.
    pub open spec fn entry_index_of(self, url: Seq<char>) -> int {
        choose|i: int| 0 <= i < self.entries@.len() && self.entries@[i]@.spec_url == url
    }

    /// The entry recorded under `url`, as a partial map of the cache.
    pub open spec fn lookup(self, url: Seq<char>) -> Option<CacheEntryView> {
        if self.has_entry(url) {
            Some(self.entries@[self.entry_index_of(url)]@)
        } else {
            None
        }
    }

    /// In a well-formed cache an entry found at an index is the one
    /// `lookup` denotes: indices under one address are unique.
    proof fn lemma_entry_at(self, url: Seq<char>, i: int)
        requires
            self.wf(),
            0 <= i < self.entries@.len(),
            self.entries@[i]@.spec_url == url,
        ensures
            self.has_entry(url),
            self.entry_index_of(url) == i,
            self.lookup(url) == Some(self.entries@[i]@),
    {
        assert(self.has_entry(url));
        let j = self.entry_index_of(url);
        assert(0 <= j < self.entries@.len() && self.entries@[j]@.spec_url == url);
        if i != j {
            assert(self.entries@[i]@.spec_url != self.entries@[j]@.spec_url);
        }
    }

    pub fn new() -> (r: ProviderCache)
        ensures
            r.wf(),
            r.entries@.len() == 0,
            forall|u: Seq<char>| !r.has_entry(u),
    {
        ProviderCache { entries: Vec::new() }
    }

    /// Cache-only lookup of the entry recorded under `url`; performs no
    /// I/O of any kind.
    pub fn get(&self, url: &str) -> (r: Option<&CacheEntry>)
        requires
            self.wf(),
        ensures
            match r {
                Some(e) => self.lookup(url@) == Some(e@),
                None => self.lookup(url@) is None,
            },
    {
        let n = self.entries.len();
        let mut i: usize = 0;
        while i < n
            invariant
                self.wf(),
                n == self.entries@.len(),
                i <= n,
                forall|j: int| 0 <= j < i ==> self.entries@[j]@.spec_url != url@,
            decreases n - i,
        {
            if str_eq(self.entries[i].spec_url.as_str(), url) {
                proof {
                    self.lemma_entry_at(url@, i as int);
                }
                return Some(&self.entries[i]);
            }
            i += 1;
        }
        proof {
            assert(!self.has_entry(url@));
        }
        None
    }

    /// Inserts `entry` under its address, replacing any entry already
    /// recorded there; entries under every other address are untouched.
    pub fn upsert(&mut self, entry: CacheEntry)
        requires
            old(self).wf(),
        ensures
            final(self).wf(),
            final(self).lookup(entry@.spec_url) == Some(entry@),
            forall|u: Seq<char>|
                u != entry@.spec_url ==> final(self).lookup(u) == old(self).lookup(u),
            forall|u: Seq<char>|
                final(self).has_entry(u) <==> (old(self).has_entry(u) || u == entry@.spec_url),
    {
        let ghost key = entry@.spec_url;
        let ghost ev = entry@;
        let n = self.entries.len();
        let mut i: usize = 0;
        while i < n
            invariant
                *self == *old(self),
                old(self).wf(),
                n == self.entries@.len(),
                i <= n,
                forall|j: int| 0 <= j < i ==> self.entries@[j]@.spec_url != key,
                ev == entry@,
                key == ev.spec_url,
            decreases n - i,
        {
            if str_eq(self.entries[i].spec_url.as_str(), entry.spec_url.as_str()) {
                let ghost old_self = *self;
                self.entries[i] = entry;
                proof {
                    assert(self.entries@[i as int]@ == ev);
                    self.lemma_replace_frame(old_self, ev, i as int);
                }
                return;
            }
            i += 1;
        }
        let ghost old_self = *self;
        self.entries.push(entry);
        proof {
            assert forall|p: int, q: int|
                0 <= p < self.entries@.len() && 0 <= q < self.entries@.len() && p != q
                    implies self.entries@[p]@.spec_url != self.entries@[q]@.spec_url by {
                if p < old_self.entries@.len() && q < old_self.entries@.len() {
                    assert(old_self.wf());
                } else if p == old_self.entries@.len() as int {
                    assert(old_self.entries@[q]@.spec_url != key);
                } else if q == old_self.entries@.len() as int {
                    assert(old_self.entries@[p]@.spec_url != key);
                }
            }
            assert(self.wf());
            assert(self.entries@[old_self.entries@.len() as int]@ == ev);
            self.lemma_entry_at(key, old_self.entries@.len() as int);
            assert forall|u: Seq<char>| u != key
                implies self.lookup(u) == old_self.lookup(u) by {
                self.lemma_agree(old_self, u);
            }
            assert forall|u: Seq<char>|
                self.has_entry(u) <==> (old_self.has_entry(u) || u == key) by {
                if self.has_entry(u) && u != key {
                    let j = self.entry_index_of(u);
                    assert(0 <= j < self.entries@.len() && self.entries@[j]@.spec_url == u);
                    assert(j < old_self.entries@.len());
                    assert(old_self.entries@[j]@.spec_url == u);
                }
                if old_self.has_entry(u) {
                    let j = choose|j: int|
                        0 <= j < old_self.entries@.len() && old_self.entries@[j]@.spec_url == u;
                    assert(self.entries@[j]@.spec_url == u);
                }
            }
        }
    }

    /// Two well-formed caches whose entry lists agree on which indices
    /// hold `u` agree on `lookup(u)`.
    proof fn lemma_agree(self, other: ProviderCache, u: Seq<char>)
        requires
            self.wf(),
            other.wf(),
            forall|j: int|
                0 <= j < other.entries@.len()
                    ==> j < self.entries@.len() && self.entries@[j]@ == other.entries@[j]@,
            forall|j: int|
                other.entries@.len() <= j < self.entries@.len()
                    ==> self.entries@[j]@.spec_url != u,
        ensures
            self.lookup(u) == other.lookup(u),
    {
        if other.has_entry(u) {
            let j = other.entry_index_of(u);
            assert(0 <= j < other.entries@.len() && other.entries@[j]@.spec_url == u);
            assert(self.entries@[j]@.spec_url == u);
            self.lemma_entry_at(u, j);
            other.lemma_entry_at(u, j);
        } else {
            if self.has_entry(u) {
                let j = self.entry_index_of(u);
                assert(0 <= j < self.entries@.len() && self.entries@[j]@.spec_url == u);
                assert(j < other.entries@.len());
                assert(other.entries@[j]@.spec_url == u);
            }
        }
    }

    proof fn lemma_replace_frame(self, old_self: ProviderCache, ev: CacheEntryView, i: int)
        requires
            old_self.wf(),
            0 <= i < old_self.entries@.len(),
            old_self.entries@[i]@.spec_url == ev.spec_url,
            self.entries@.len() == old_self.entries@.len(),
            self.entries@[i]@ == ev,
            forall|j: int|
                0 <= j < old_self.entries@.len() && j != i
                    ==> self.entries@[j]@ == old_self.entries@[j]@,
        ensures
            self.wf(),
            self.lookup(ev.spec_url) == Some(ev),
            forall|u: Seq<char>| u != ev.spec_url ==> self.lookup(u) == old_self.lookup(u),
            forall|u: Seq<char>| self.has_entry(u) <==> (old_self.has_entry(u) || u == ev.spec_url),
    {
        let key = ev.spec_url;
        assert forall|p: int, q: int|
            0 <= p < self.entries@.len() && 0 <= q < self.entries@.len() && p != q
                implies self.entries@[p]@.spec_url != self.entries@[q]@.spec_url by {
            assert(old_self.entries@[p]@.spec_url != old_self.entries@[q]@.spec_url);
            if p == i {
                assert(self.entries@[q]@.spec_url != key);
            } else if q == i {
                assert(self.entries@[p]@.spec_url != key);
            }
        }
        self.lemma_entry_at(key, i);
        old_self.lemma_entry_at(key, i);
        assert forall|u: Seq<char>| u != key implies self.lookup(u) == old_self.lookup(u) by {
            if old_self.has_entry(u) {
                let j = old_self.entry_index_of(u);
                assert(0 <= j < old_self.entries@.len() && old_self.entries@[j]@.spec_url == u);
                assert(j != i);
                self.lemma_entry_at(u, j);
                old_self.lemma_entry_at(u, j);
            } else {
                if self.has_entry(u) {
                    let j = self.entry_index_of(u);
                    assert(0 <= j < self.entries@.len() && self.entries@[j]@.spec_url == u);
                    assert(j != i);
                    assert(old_self.entries@[j]@.spec_url == u);
                }
            }
        }
        assert forall|u: Seq<char>|
            self.has_entry(u) <==> (old_self.has_entry(u) || u == key) by {
            if self.has_entry(u) && u != key {
                let j = self.entry_index_of(u);
                assert(0 <= j < self.entries@.len() && self.entries@[j]@.spec_url == u);
                assert(j != i);
                assert(old_self.entries@[j]@.spec_url == u);
            }
            if old_self.has_entry(u) && u != key {
                let j = old_self.entry_index_of(u);
                assert(0 <= j < old_self.entries@.len() && old_self.entries@[j]@.spec_url == u);
                assert(j != i);
                assert(self.entries@[j]@.spec_url == u);
            }
        }
    }
}

/// Updates for different addresses do not disturb one another: when `c1`
/// records `e1` into `c0` and `c2` records `e2` into `c1` (the shape
/// `upsert` guarantees), and the two addresses differ, both entries are
/// individually correct afterwards and every other address is untouched —
/// in either order of the two updates.
pub proof fn lemma_updates_do_not_interfere(
    c0: ProviderCache,
    c1: ProviderCache,
    c2: ProviderCache,
    e1: CacheEntry,
    e2: CacheEntry,
)
    requires
        c1.lookup(e1@.spec_url) == Some(e1@),
        forall|u: Seq<char>| u != e1@.spec_url ==> c1.lookup(u) == c0.lookup(u),
        c2.lookup(e2@.spec_url) == Some(e2@),
        forall|u: Seq<char>| u != e2@.spec_url ==> c2.lookup(u) == c1.lookup(u),
        e1@.spec_url != e2@.spec_url,
    ensures
        c2.lookup(e1@.spec_url) == Some(e1@),
        c2.lookup(e2@.spec_url) == Some(e2@),
        forall|u: Seq<char>|
            u != e1@.spec_url && u != e2@.spec_url ==> c2.lookup(u) == c0.lookup(u),
{
}

/// A content-addressed store of already-fetched artifact bytes: a map from
/// content hash to the local path holding those bytes.
pub struct BlobCache {
    pub blobs: Vec<(String, String)>,
}

impl BlobCache {
    /// Some blob is recorded under `hash`.
    pub open spec fn has_blob(self, hash: Seq<char>) -> bool {
        exists|i: int| 0 <= i < self.blobs@.len() && self.blobs@[i].0@ == hash
    }

    pub fn new() -> (r: BlobCache)
        ensures
            r.blobs@.len() == 0,
            forall|h: Seq<char>| !r.has_blob(h),
    {
        BlobCache { blobs: Vec::new() }
    }

    /// Cache-only lookup of the local path recorded under `hash`;
    /// performs no I/O of any kind.
    pub fn get_blob(&self, hash: &str) -> (r: Option<&String>)
        ensures
            match r {
                Some(p) => exists|i: int|
                    0 <= i < self.blobs@.len() && self.blobs@[i].0@ == hash@
                        && self.blobs@[i].1@ == p@,
                None => !self.has_blob(hash@),
            },
    {
        let n = self.blobs.len();
        let mut i: usize = 0;
        while i < n
            invariant
                n == self.blobs@.len(),
                i <= n,
                forall|j: int| 0 <= j < i ==> self.blobs@[j].0@ != hash@,
            decreases n - i,
        {
            if str_eq(self.blobs[i].0.as_str(), hash) {
                return Some(&self.blobs[i].1);
            }
            i += 1;
        }
        None
    }

    /// Records the blob at `path` under `hash`.
    pub fn put_blob(&mut self, hash: String, path: String)
        ensures
            final(self).blobs@ == old(self).blobs@.push((hash, path)),
    {
        self.blobs.push((hash, path));
    }
}

} // verus!
