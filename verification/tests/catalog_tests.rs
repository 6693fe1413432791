use avatarctl::catalog::{CatalogCache, CatalogEntry};
use avatarctl::errors::StoreError;

fn entry(id: &str, name: &str) -> CatalogEntry {
    CatalogEntry {
        id: id.to_string(),
        display_name: name.to_string(),
        description: String::new(),
        version: 1,
        thumbnail_ref: String::new(),
        created_at: String::new(),
        updated_at: String::new(),
    }
}

fn fox_cache() -> CatalogCache {
    let mut cache = CatalogCache::new();
    let entries = vec![
        entry("avtr_1", "Red Fox"),
        entry("avtr_2", "Blue Fox"),
        entry("avtr_3", "Car"),
    ];
    cache.replace_all(entries).unwrap();
    cache
}

#[test]
fn scenario_c_find_all_matching_in_insertion_order() {
    let cache = fox_cache();
    let hits = cache.find_all_matching("fox");
    let names: Vec<&str> = hits.iter().map(|e| e.display_name.as_str()).collect();
    assert_eq!(names, vec!["Red Fox", "Blue Fox"]);
}

#[test]
fn scenario_c_find_exact_takes_first_hit() {
    let cache = fox_cache();
    let hit = cache.find_exact("fox").expect("two entries match");
    assert_eq!(hit.display_name, "Red Fox");
    assert_eq!(hit.id, "avtr_1");
}

#[test]
fn find_exact_without_match_is_none() {
    let cache = fox_cache();
    assert!(cache.find_exact("zebra").is_none());
}

#[test]
fn match_folds_ascii_case_only() {
    let cache = fox_cache();
    assert!(cache.find_exact("CAR").is_some());
    assert!(cache.find_exact("cAr").is_some());
    assert!(cache.find_exact("cár").is_none());
}

#[test]
fn empty_query_matches_every_entry() {
    let cache = fox_cache();
    assert_eq!(cache.find_all_matching("").len(), 3);
    assert_eq!(cache.find_exact("").unwrap().id, "avtr_1");
}

#[test]
fn replace_all_swaps_the_whole_snapshot() {
    let mut cache = CatalogCache::new();
    cache
        .replace_all(vec![entry("avtr_1", "One"), entry("avtr_2", "Two")])
        .unwrap();
    assert_eq!(cache.len(), 2);
    cache
        .replace_all(vec![
            entry("avtr_7", "Seven"),
            entry("avtr_8", "Eight"),
            entry("avtr_9", "Nine"),
        ])
        .unwrap();
    assert_eq!(cache.len(), 3);
    let all = cache.all();
    assert_eq!(all[0].id, "avtr_7");
    assert_eq!(all[2].id, "avtr_9");
}

#[test]
fn replace_all_refuses_duplicate_ids_and_keeps_old_snapshot() {
    let mut cache = CatalogCache::new();
    cache
        .replace_all(vec![entry("avtr_1", "One"), entry("avtr_2", "Two")])
        .unwrap();
    let result = cache.replace_all(vec![
        entry("avtr_5", "Five"),
        entry("avtr_5", "Five again"),
        entry("avtr_6", "Six"),
    ]);
    assert_eq!(result, Err(StoreError::Corrupt));
    // The reader sees the full old count, never a partial replacement.
    assert_eq!(cache.len(), 2);
    assert_eq!(cache.all()[0].id, "avtr_1");
}

#[test]
fn all_returns_copies_in_insertion_order() {
    let cache = fox_cache();
    let all = cache.all();
    assert_eq!(all.len(), 3);
    assert_eq!(all[0].display_name, "Red Fox");
    assert_eq!(all[1].display_name, "Blue Fox");
    assert_eq!(all[2].display_name, "Car");
}
