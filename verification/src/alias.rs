//! The user-curated alias table: short names mapped to canonical entity ids.
//!
//! Aliases have a lifecycle independent of the catalog snapshot: an alias may
//! point at an id that no longer exists anywhere, which is a soft-dangling
//! reference detected only at resolution time, not an integrity violation.
//! Setting an existing name never overwrites silently: repointing a trusted
//! shortcut at an unintended entity would be worse than demanding an explicit
//! remove-then-set.

use vstd::prelude::*;

use crate::text::str_equal;

verus! {

/// One alias: a unique short name and the id it targets.
#[derive(Debug, PartialEq, Eq)]
pub struct AliasEntry {
    pub name: String,
    pub target_id: String,
}

impl Clone for AliasEntry {
    fn clone(&self) -> (r: Self)
        ensures
            r == *self,
    {
        AliasEntry { name: self.name.clone(), target_id: self.target_id.clone() }
    }
}

/// Outcome of a set request.
#[derive(Clone, Copy, Debug, PartialEq, Eq, Structural)]
pub enum AliasSetOutcome {
    /// The name was free and now maps to the given id.
    Created,
    /// The name already had a mapping, which was left untouched.
    AlreadyExists,
}

/// Outcome of a remove request.
#[derive(Clone, Copy, Debug, PartialEq, Eq, Structural)]
pub enum AliasRemoveOutcome {
    Removed,
    NotFound,
}

/// No two entries share a name.
pub open spec fn unique_names(s: Seq<AliasEntry>) -> bool {
    forall|i: int, j: int| 0 <= i < j < s.len() ==> s[i].name@ != s[j].name@
}

/// The id that `name` maps to: the target of the first entry carrying the
/// name (with unique names, the only one), or nothing.
pub open spec fn lookup(s: Seq<AliasEntry>, name: Seq<char>) -> Option<Seq<char>>
    decreases s.len(),
{
    if s.len() == 0 {
        None
    } else if s[0].name@ == name {
        Some(s[0].target_id@)
    } else {
        lookup(s.drop_first(), name)
    }
}

/// An entry of the name preceded by none of the same name is what `lookup`
/// finds.
pub proof fn lemma_lookup_at(s: Seq<AliasEntry>, name: Seq<char>, i: int)
    requires
        0 <= i < s.len(),
        s[i].name@ == name,
        forall|j: int| 0 <= j < i ==> s[j].name@ != name,
    ensures
        lookup(s, name) == Some(s[i].target_id@),
    decreases s.len(),
{
    if i > 0 {
        let rest = s.drop_first();
        assert(forall|j: int| 0 <= j < rest.len() ==> rest[j] == s[j + 1]);
        lemma_lookup_at(rest, name, i - 1);
    }
}

/// When no entry carries the name, `lookup` reports nothing.
pub proof fn lemma_lookup_absent(s: Seq<AliasEntry>, name: Seq<char>)
    requires
        forall|j: int| 0 <= j < s.len() ==> s[j].name@ != name,
    ensures
        lookup(s, name) is None,
    decreases s.len(),
{
    if s.len() > 0 {
        let rest = s.drop_first();
        assert(forall|j: int| 0 <= j < rest.len() ==> rest[j] == s[j + 1]);
        lemma_lookup_absent(rest, name);
    }
}

/// Appending an entry changes no existing mapping; it gives the appended
/// name its target only where the name had none before.
pub proof fn lemma_lookup_push(s: Seq<AliasEntry>, e: AliasEntry, n: Seq<char>)
    ensures
        lookup(s.push(e), n) == if lookup(s, n) is Some {
            lookup(s, n)
        } else if e.name@ == n {
            Some(e.target_id@)
        } else {
            None
        },
    decreases s.len(),
{
    if s.len() == 0 {
        assert(s.push(e)[0] == e);
        assert(s.push(e).drop_first() =~= Seq::<AliasEntry>::empty());
    } else {
        assert(s.push(e)[0] == s[0]);
        assert(s.push(e).drop_first() =~= s.drop_first().push(e));
        lemma_lookup_push(s.drop_first(), e, n);
    }
}

/// With unique names, removing the entry at `i` erases exactly its own
/// name's mapping and no other.
pub proof fn lemma_lookup_remove(s: Seq<AliasEntry>, i: int, n: Seq<char>)
    requires
        0 <= i < s.len(),
        unique_names(s),
    ensures
        lookup(s.remove(i), n) == if s[i].name@ == n {
            None
        } else {
            lookup(s, n)
        },
    decreases s.len(),
{
    let t = s.remove(i);
    if i == 0 {
        assert(t =~= s.drop_first());
        if s[0].name@ == n {
            assert(forall|j: int| 0 <= j < t.len() ==> t[j] == s[j + 1]);
            assert(forall|j: int| 0 <= j < t.len() ==> t[j].name@ != n);
            lemma_lookup_absent(t, n);
        }
    } else {
        assert(t[0] == s[0]);
        if s[0].name@ == n {
        } else {
            let rest = s.drop_first();
            assert(forall|j: int| 0 <= j < rest.len() ==> rest[j] == s[j + 1]);
            assert(unique_names(rest));
            assert(t.drop_first() =~= rest.remove(i - 1));
            lemma_lookup_remove(rest, i - 1, n);
        }
    }
}

/// The alias table, owned exclusively by the local process.
pub struct AliasTable {
    entries: Vec<AliasEntry>,
}

impl AliasTable {
    /// The order-preserving sequence of alias entries.
    pub closed spec fn view_entries(&self) -> Seq<AliasEntry> {
        self.entries@
    }

    /// A name determines at most one entry.
    pub open spec fn wf(&self) -> bool {
        unique_names(self.view_entries())
    }

    /// An empty table.
    pub fn new() -> (t: Self)
        ensures
            t.view_entries() == Seq::<AliasEntry>::empty(),
            t.wf(),
    {
        let t = AliasTable { entries: Vec::new() };
        proof {
            assert(t.entries@ =~= Seq::<AliasEntry>::empty());
        }
        t
    }

    /// Index of the entry carrying `name`, if any.
    fn find_name_index(&self, name: &str) -> (r: Option<usize>)
        ensures
            match r {
                Some(i) => i < self.view_entries().len() && self.view_entries()[i as int].name@
                    == name@ && (forall|j: int|
                    0 <= j < i ==> self.view_entries()[j].name@ != name@),
                None => forall|j: int|
                    0 <= j < self.view_entries().len() ==> self.view_entries()[j].name@ != name@,
            },
    {
        let mut i: usize = 0;
        while i < self.entries.len()
            invariant
                0 <= i <= self.entries@.len(),
                forall|j: int| 0 <= j < i ==> self.entries@[j].name@ != name@,
            decreases self.entries@.len() - i,
        {
            if str_equal(self.entries[i].name.as_str(), name) {
                return Some(i);
            }
            i = i + 1;
        }
        None
    }

    /// Map `name` to `target_id` if the name is free. A pre-existing name
    /// keeps its mapping untouched and the call reports `AlreadyExists`;
    /// repointing requires an explicit remove first.
    pub fn set(&mut self, name: String, target_id: String) -> (r: AliasSetOutcome)
        requires
            old(self).wf(),
        ensures
            final(self).wf(),
            lookup(old(self).view_entries(), name@) is Some ==> r
                == AliasSetOutcome::AlreadyExists && final(self).view_entries() == old(
                self,
            ).view_entries(),
            lookup(old(self).view_entries(), name@) is None ==> r == AliasSetOutcome::Created
                && final(self).view_entries() == old(self).view_entries().push(
                (AliasEntry { name, target_id }),
            ),
            lookup(final(self).view_entries(), name@) == if lookup(
                old(self).view_entries(),
                name@,
            ) is Some {
                lookup(old(self).view_entries(), name@)
            } else {
                Some(target_id@)
            },
            forall|n: Seq<char>|
                n != name@ ==> lookup(final(self).view_entries(), n) == lookup(
                    old(self).view_entries(),
                    n,
                ),
    {
        match self.find_name_index(name.as_str()) {
            Some(i) => {
                proof {
                    lemma_lookup_at(self.entries@, name@, i as int);
                }
                AliasSetOutcome::AlreadyExists
            },
            None => {
                proof {
                    lemma_lookup_absent(self.entries@, name@);
                }
                let ghost pre = self.entries@;
                let entry = AliasEntry { name, target_id };
                self.entries.push(entry);
                proof {
                    assert forall|n: Seq<char>| true implies lookup(self.entries@, n) == (
                    if lookup(pre, n) is Some {
                        lookup(pre, n)
                    } else if entry.name@ == n {
                        Some(entry.target_id@)
                    } else {
                        None
                    }) by {
                        lemma_lookup_push(pre, entry, n);
                    }
                    assert forall|i: int, j: int|
                        0 <= i < j < self.entries@.len() implies self.entries@[i].name@
                        != self.entries@[j].name@ by {
                        if j == pre.len() {
                            assert(self.entries@[i] == pre[i]);
                        }
                    }
                }
                AliasSetOutcome::Created
            },
        }
    }

    /// Drop the mapping of `name`. An absent name mutates nothing and the
    /// call reports `NotFound`.
    pub fn remove(&mut self, name: &str) -> (r: AliasRemoveOutcome)
        requires
            old(self).wf(),
        ensures
            final(self).wf(),
            lookup(old(self).view_entries(), name@) is None ==> r == AliasRemoveOutcome::NotFound
                && final(self).view_entries() == old(self).view_entries(),
            lookup(old(self).view_entries(), name@) is Some ==> r == AliasRemoveOutcome::Removed
                && exists|i: int|
                0 <= i < old(self).view_entries().len() && old(self).view_entries()[i].name@
                    == name@ && final(self).view_entries() == old(self).view_entries().remove(i),
            lookup(final(self).view_entries(), name@) is None,
            forall|n: Seq<char>|
                n != name@ ==> lookup(final(self).view_entries(), n) == lookup(
                    old(self).view_entries(),
                    n,
                ),
    {
        match self.find_name_index(name) {
            Some(i) => {
                proof {
                    lemma_lookup_at(self.entries@, name@, i as int);
                }
                let ghost pre = self.entries@;
                self.entries.remove(i);
                proof {
                    assert forall|n: Seq<char>| true implies lookup(self.entries@, n) == (
                    if pre[i as int].name@ == n {
                        None
                    } else {
                        lookup(pre, n)
                    }) by {
                        lemma_lookup_remove(pre, i as int, n);
                    }
                    assert forall|a: int, b: int|
                        0 <= a < b < self.entries@.len() implies self.entries@[a].name@
                        != self.entries@[b].name@ by {
                        assert(self.entries@[a] == if a < i as int {
                            pre[a]
                        } else {
                            pre[a + 1]
                        });
                        assert(self.entries@[b] == if b < i as int {
                            pre[b]
                        } else {
                            pre[b + 1]
                        });
                    }
                }
                AliasRemoveOutcome::Removed
            },
            None => {
                proof {
                    lemma_lookup_absent(self.entries@, name@);
                }
                AliasRemoveOutcome::NotFound
            },
        }
    }

    /// The id that `name` maps to right now, if any.
    pub fn resolve(&self, name: &str) -> (r: Option<String>)
        ensures
            match r {
                Some(id) => lookup(self.view_entries(), name@) == Some(id@),
                None => lookup(self.view_entries(), name@) is None,
            },
    {
        match self.find_name_index(name) {
            Some(i) => {
                proof {
                    lemma_lookup_at(self.entries@, name@, i as int);
                }
                Some(self.entries[i].target_id.clone())
            },
            None => {
                proof {
                    lemma_lookup_absent(self.entries@, name@);
                }
                None
            },
        }
    }

    /// A copy of every alias entry, in insertion order.
    pub fn all(&self) -> (r: Vec<AliasEntry>)
        ensures
            r@ == self.view_entries(),
    {
        let mut out: Vec<AliasEntry> = Vec::new();
        let mut i: usize = 0;
        while i < self.entries.len()
            invariant
                0 <= i <= self.entries@.len(),
                out@ =~= self.entries@.subrange(0, i as int),
            decreases self.entries@.len() - i,
        {
            out.push(self.entries[i].clone());
            i = i + 1;
        }
        proof {
            assert(self.entries@.subrange(0, self.entries@.len() as int) =~= self.entries@);
        }
        out
    }

    /// Number of aliases.
    pub fn len(&self) -> (r: usize)
        ensures
            r == self.view_entries().len(),
    {
        self.entries.len()
    }
}

} // verus!
