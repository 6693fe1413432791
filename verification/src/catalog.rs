//! The locally cached snapshot of remote catalog entries.
//!
//! The cache is replaced wholesale on every refresh (drop-and-reload, never
//! merged), so staleness is all-or-nothing. Lookup is by substring match
//! against the display name, folding ASCII letter case, in insertion order:
//! the first hit wins, deterministically, for as long as the table is
//! unchanged.

use vstd::prelude::*;

use crate::errors::StoreError;
use crate::text::{contains_seq, contains_sub, str_equal};

verus! {

/// One canonical entity record as the remote service publishes it. The two
/// timestamps are ISO-8601 strings kept opaque: compared only for display,
/// never parsed.
#[derive(Debug, PartialEq, Eq)]
pub struct CatalogEntry {
    /// Stable, globally unique, immutable identifier.
    pub id: String,
    /// Display name; mutable upstream.
    pub display_name: String,
    pub description: String,
    /// Monotonically non-decreasing per id upstream.
    pub version: u64,
    pub thumbnail_ref: String,
    pub created_at: String,
    pub updated_at: String,
}

impl Clone for CatalogEntry {
    fn clone(&self) -> (r: Self)
        ensures
            r == *self,
    {
        CatalogEntry {
            id: self.id.clone(),
            display_name: self.display_name.clone(),
            description: self.description.clone(),
            version: self.version,
            thumbnail_ref: self.thumbnail_ref.clone(),
            created_at: self.created_at.clone(),
            updated_at: self.updated_at.clone(),
        }
    }
}

/// No two entries share an id.
pub open spec fn unique_ids(s: Seq<CatalogEntry>) -> bool {
    forall|i: int, j: int| 0 <= i < j < s.len() ==> s[i].id@ != s[j].id@
}

/// An entry matches a query when its display name contains the query as a
/// substring, compared insensitively to ASCII letter case (the storage
/// layer's pattern match folds ASCII case the same way) and sensitively to
/// everything else.
pub open spec fn entry_matches(e: CatalogEntry, q: Seq<char>) -> bool {
    contains_seq(e.display_name@, q)
}

/// The first entry of `s`, in order, that matches `q`.
pub open spec fn first_match(s: Seq<CatalogEntry>, q: Seq<char>) -> Option<CatalogEntry>
    decreases s.len(),
{
    if s.len() == 0 {
        None
    } else if entry_matches(s[0], q) {
        Some(s[0])
    } else {
        first_match(s.drop_first(), q)
    }
}

/// A match preceded by no other match is what `first_match` returns.
pub proof fn lemma_first_match_at(s: Seq<CatalogEntry>, q: Seq<char>, i: int)
    requires
        0 <= i < s.len(),
        entry_matches(s[i], q),
        forall|j: int| 0 <= j < i ==> !entry_matches(s[j], q),
    ensures
        first_match(s, q) == Some(s[i]),
    decreases s.len(),
{
    if i > 0 {
        let rest = s.drop_first();
        assert(forall|j: int| 0 <= j < rest.len() ==> rest[j] == s[j + 1]);
        lemma_first_match_at(rest, q, i - 1);
    }
}

/// When no entry matches, `first_match` reports none.
pub proof fn lemma_first_match_absent(s: Seq<CatalogEntry>, q: Seq<char>)
    requires
        forall|j: int| 0 <= j < s.len() ==> !entry_matches(s[j], q),
    ensures
        first_match(s, q) is None,
    decreases s.len(),
{
    if s.len() > 0 {
        let rest = s.drop_first();
        assert(forall|j: int| 0 <= j < rest.len() ==> rest[j] == s[j + 1]);
        lemma_first_match_absent(rest, q);
    }
}

/// The cached snapshot, owned exclusively by the local process.
pub struct CatalogCache {
    entries: Vec<CatalogEntry>,
}

impl CatalogCache {
    /// The order-preserving sequence of cached entries.
    pub closed spec fn view_entries(&self) -> Seq<CatalogEntry> {
        self.entries@
    }

    /// An id determines at most one cached row.
    pub open spec fn wf(&self) -> bool {
        unique_ids(self.view_entries())
    }

    /// An empty cache: the state before any refresh has completed.
    pub fn new() -> (c: Self)
        ensures
            c.view_entries() == Seq::<CatalogEntry>::empty(),
            c.wf(),
    {
        let c = CatalogCache { entries: Vec::new() };
        proof {
            assert(c.entries@ =~= Seq::<CatalogEntry>::empty());
        }
        c
    }

    /// Replace the whole snapshot. The replacement is all-or-nothing: on
    /// success the cache holds exactly `entries`; input that violates the
    /// unique-id invariant is refused as corrupt and the cache keeps its
    /// previous contents untouched.
    pub fn replace_all(&mut self, entries: Vec<CatalogEntry>) -> (r: Result<(), StoreError>)
        requires
            old(self).wf(),
        ensures
            final(self).wf(),
            r is Ok <==> unique_ids(entries@),
            r is Ok ==> final(self).view_entries() == entries@,
            r is Err ==> final(self).view_entries() == old(self).view_entries() && r == Err::<(),
                StoreError>(StoreError::Corrupt),
            final(self).view_entries() == old(self).view_entries() || final(self).view_entries()
                == entries@,
    {
        if ids_unique(&entries) {
            self.entries = entries;
            Ok(())
        } else {
            Err(StoreError::Corrupt)
        }
    }

    /// A copy of every cached entry, in insertion order.
    pub fn all(&self) -> (r: Vec<CatalogEntry>)
        ensures
            r@ == self.view_entries(),
    {
        let mut out: Vec<CatalogEntry> = Vec::new();
        let mut i: usize = 0;
        while i < self.entries.len()
            invariant
                0 <= i <= self.entries@.len(),
                out@ =~= self.entries@.subrange(0, i as int),
            decreases self.entries@.len() - i,
        {
            out.push(self.entries[i].clone());
            i = i + 1;
        }
        proof {
            assert(self.entries@.subrange(0, self.entries@.len() as int) =~= self.entries@);
        }
        out
    }

    /// Number of cached entries.
    pub fn len(&self) -> (r: usize)
        ensures
            r == self.view_entries().len(),
    {
        self.entries.len()
    }

    /// The first entry, in insertion order, whose display name contains
    /// `query`; first-hit semantics, not best-match ranking.
    pub fn find_exact(&self, query: &str) -> (r: Option<CatalogEntry>)
        ensures
            r == first_match(self.view_entries(), query@),
    {
        let mut i: usize = 0;
        while i < self.entries.len()
            invariant
                0 <= i <= self.entries@.len(),
                forall|j: int| 0 <= j < i ==> !entry_matches(self.entries@[j], query@),
            decreases self.entries@.len() - i,
        {
            if contains_sub(self.entries[i].display_name.as_str(), query) {
                proof {
                    lemma_first_match_at(self.entries@, query@, i as int);
                }
                return Some(self.entries[i].clone());
            }
            i = i + 1;
        }
        proof {
            lemma_first_match_absent(self.entries@, query@);
        }
        None
    }

    /// Every entry whose display name contains `query`, in insertion order.
    pub fn find_all_matching(&self, query: &str) -> (r: Vec<CatalogEntry>)
        ensures
            r@ == self.view_entries().filter(|e: CatalogEntry| entry_matches(e, query@)),
    {
        let ghost pred = |e: CatalogEntry| entry_matches(e, query@);
        let mut out: Vec<CatalogEntry> = Vec::new();
        let mut i: usize = 0;
        proof {
            reveal(Seq::filter);
            assert(out@ =~= self.entries@.subrange(0, 0).filter(pred));
        }
        while i < self.entries.len()
            invariant
                0 <= i <= self.entries@.len(),
                out@ == self.entries@.subrange(0, i as int).filter(
                    |e: CatalogEntry| entry_matches(e, query@),
                ),
            decreases self.entries@.len() - i,
        {
            proof {
                reveal(Seq::filter);
                let prefix = self.entries@.subrange(0, i + 1);
                assert(prefix.drop_last() =~= self.entries@.subrange(0, i as int));
                assert(prefix.last() == self.entries@[i as int]);
            }
            if contains_sub(self.entries[i].display_name.as_str(), query) {
                out.push(self.entries[i].clone());
            }
            i = i + 1;
        }
        proof {
            assert(self.entries@.subrange(0, self.entries@.len() as int) =~= self.entries@);
        }
        out
    }
}

/// No two of the given entries share an id.
fn ids_unique(entries: &Vec<CatalogEntry>) -> (r: bool)
    ensures
        r == unique_ids(entries@),
{
    let n = entries.len();
    let mut i: usize = 0;
    while i < n
        invariant
            n == entries@.len(),
            0 <= i <= n,
            forall|a: int, b: int| 0 <= a < b < n && a < i ==> entries@[a].id@ != entries@[b].id@,
        decreases n - i,
    {
        let mut j: usize = i + 1;
        while j < n
            invariant
                n == entries@.len(),
                0 <= i < n,
                i < j <= n,
                forall|b: int| i < b < j ==> entries@[i as int].id@ != entries@[b].id@,
            decreases n - j,
        {
            if str_equal(entries[i].id.as_str(), entries[j].id.as_str()) {
                return false;
            }
            j = j + 1;
        }
        i = i + 1;
    }
    true
}

/// After a replacement attempt the cache holds either the whole previous
/// snapshot or the whole incoming one, so a reader never observes an entry
/// count strictly between the two when they differ.
pub proof fn lemma_replace_all_atomic(
    pre: Seq<CatalogEntry>,
    post: Seq<CatalogEntry>,
    incoming: Seq<CatalogEntry>,
)
    requires
        post == pre || post == incoming,
    ensures
        post.len() == pre.len() || post.len() == incoming.len(),
        pre.len() < incoming.len() ==> !(pre.len() < post.len() < incoming.len()),
        incoming.len() < pre.len() ==> !(incoming.len() < post.len() < pre.len()),
{
}

} // verus!
