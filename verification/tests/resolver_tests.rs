use avatarctl::alias::AliasTable;
use avatarctl::catalog::{CatalogCache, CatalogEntry};
use avatarctl::errors::ResolveError;
use avatarctl::resolver::{resolve, selector_from_flags, Identifier};

fn entry(id: &str, name: &str) -> CatalogEntry {
    CatalogEntry {
        id: id.to_string(),
        display_name: name.to_string(),
        description: String::new(),
        version: 1,
        thumbnail_ref: String::new(),
        created_at: String::new(),
        updated_at: String::new(),
    }
}

#[test]
fn scenario_e_unknown_alias() {
    // Resolution is pure table lookup: with no "ghost" entry the failure is
    // decided locally and no remote call can be involved.
    let cache = CatalogCache::new();
    let aliases = AliasTable::new();
    let r = resolve(&Identifier::Alias("ghost".to_string()), &cache, &aliases);
    assert_eq!(r, Err(ResolveError::UnknownAlias));
}

#[test]
fn id_resolves_to_itself_without_existence_check() {
    let cache = CatalogCache::new();
    let aliases = AliasTable::new();
    let r = resolve(&Identifier::Id("avtr_404".to_string()), &cache, &aliases);
    assert_eq!(r, Ok("avtr_404".to_string()));
}

#[test]
fn query_resolves_to_first_hit() {
    let mut cache = CatalogCache::new();
    cache
        .replace_all(vec![
            entry("avtr_1", "Red Fox"),
            entry("avtr_2", "Blue Fox"),
        ])
        .unwrap();
    let aliases = AliasTable::new();
    let r = resolve(&Identifier::Query("fox".to_string()), &cache, &aliases);
    assert_eq!(r, Ok("avtr_1".to_string()));
}

#[test]
fn query_without_match_is_no_match() {
    let mut cache = CatalogCache::new();
    cache.replace_all(vec![entry("avtr_1", "Car")]).unwrap();
    let aliases = AliasTable::new();
    let r = resolve(&Identifier::Query("fox".to_string()), &cache, &aliases);
    assert_eq!(r, Err(ResolveError::NoMatch));
}

#[test]
fn alias_resolves_through_current_table_state() {
    let cache = CatalogCache::new();
    let mut aliases = AliasTable::new();
    aliases.set("main".to_string(), "ent-1".to_string());
    let r = resolve(&Identifier::Alias("main".to_string()), &cache, &aliases);
    assert_eq!(r, Ok("ent-1".to_string()));
    // After removing the alias the same call fails: never stale.
    aliases.remove("main");
    let r2 = resolve(&Identifier::Alias("main".to_string()), &cache, &aliases);
    assert_eq!(r2, Err(ResolveError::UnknownAlias));
}

#[test]
fn selector_accepts_exactly_one_flag() {
    assert_eq!(
        selector_from_flags(Some("avtr_1".to_string()), None, None),
        Ok(Identifier::Id("avtr_1".to_string()))
    );
    assert_eq!(
        selector_from_flags(None, Some("fox".to_string()), None),
        Ok(Identifier::Query("fox".to_string()))
    );
    assert_eq!(
        selector_from_flags(None, None, Some("main".to_string())),
        Ok(Identifier::Alias("main".to_string()))
    );
}

#[test]
fn selector_rejects_more_than_one_flag() {
    assert_eq!(
        selector_from_flags(Some("avtr_1".to_string()), Some("fox".to_string()), None),
        Err(ResolveError::AmbiguousInput)
    );
    assert_eq!(
        selector_from_flags(
            Some("avtr_1".to_string()),
            Some("fox".to_string()),
            Some("main".to_string())
        ),
        Err(ResolveError::AmbiguousInput)
    );
}

#[test]
fn selector_rejects_no_flag_at_all() {
    assert_eq!(
        selector_from_flags(None, None, None),
        Err(ResolveError::AmbiguousInput)
    );
}
