//! Identifier resolution: turn one user-supplied identifier — explicit id,
//! search query, or alias — into exactly one canonical entity id, or a
//! precise failure.

use vstd::prelude::*;

use crate::alias::{lookup, AliasTable};
use crate::catalog::{first_match, CatalogCache};
use crate::errors::ResolveError;

verus! {

/// One user-supplied identifier. The caller supplies exactly one kind;
/// mutual exclusivity is enforced at the boundary, not here.
#[derive(Debug, PartialEq, Eq)]
pub enum Identifier {
    /// An explicit canonical id, taken as-is.
    Id(String),
    /// A substring query against the catalog snapshot.
    Query(String),
    /// A user-defined alias name.
    Alias(String),
}

/// Resolve an identifier against the current catalog snapshot and alias
/// table.
///
/// An explicit id resolves to itself with no existence check: the remote
/// switch call is the source of truth for validity. A query resolves to the
/// first substring match in insertion order (first-hit semantics, not
/// best-match ranking), or `NoMatch`. An alias resolves through the alias
/// table's state at call time, or `UnknownAlias`.
pub fn resolve(ident: &Identifier, cache: &CatalogCache, aliases: &AliasTable) -> (r: Result<
    String,
    ResolveError,
>)
    ensures
        *ident matches Identifier::Id(x) ==> r matches Ok(out) && out@ == x@,
        *ident matches Identifier::Query(q) ==> match first_match(cache.view_entries(), q@) {
            Some(e) => r matches Ok(out) && out@ == e.id@,
            None => r == Err::<String, ResolveError>(ResolveError::NoMatch),
        },
        *ident matches Identifier::Alias(a) ==> match lookup(aliases.view_entries(), a@) {
            Some(id) => r matches Ok(out) && out@ == id,
            None => r == Err::<String, ResolveError>(ResolveError::UnknownAlias),
        },
        r == Err::<String, ResolveError>(ResolveError::UnknownAlias) ==> *ident is Alias,
{
    match ident {
        Identifier::Id(x) => Ok(x.clone()),
        Identifier::Query(q) => match cache.find_exact(q.as_str()) {
            Some(e) => Ok(e.id),
            None => Err(ResolveError::NoMatch),
        },
        Identifier::Alias(a) => match aliases.resolve(a.as_str()) {
            Some(id) => Ok(id),
            None => Err(ResolveError::UnknownAlias),
        },
    }
}

/// Boundary check for the three mutually exclusive identifier flags: any
/// count of supplied flags other than exactly one is ambiguous input.
pub fn selector_from_flags(
    id: Option<String>,
    query: Option<String>,
    alias: Option<String>,
) -> (r: Result<Identifier, ResolveError>)
    ensures
        id matches Some(x) ==> ((query is None && alias is None) ==> r == Ok::<
            Identifier,
            ResolveError,
        >(Identifier::Id(x))),
        query matches Some(q) ==> ((id is None && alias is None) ==> r == Ok::<
            Identifier,
            ResolveError,
        >(Identifier::Query(q))),
        alias matches Some(a) ==> ((id is None && query is None) ==> r == Ok::<
            Identifier,
            ResolveError,
        >(Identifier::Alias(a))),
        ((id is Some && query is Some) || (id is Some && alias is Some) || (query is Some
            && alias is Some) || (id is None && query is None && alias is None)) ==> r == Err::<
            Identifier,
            ResolveError,
        >(ResolveError::AmbiguousInput),
{
    match (id, query, alias) {
        (Some(x), None, None) => Ok(Identifier::Id(x)),
        (None, Some(q), None) => Ok(Identifier::Query(q)),
        (None, None, Some(a)) => Ok(Identifier::Alias(a)),
        _ => Err(ResolveError::AmbiguousInput),
    }
}

} // verus!
