use avatarctl::alias::{AliasRemoveOutcome, AliasSetOutcome, AliasTable};

#[test]
fn scenario_b_set_never_overwrites() {
    let mut table = AliasTable::new();
    assert_eq!(
        table.set("main".to_string(), "ent-1".to_string()),
        AliasSetOutcome::Created
    );
    assert_eq!(
        table.set("main".to_string(), "ent-2".to_string()),
        AliasSetOutcome::AlreadyExists
    );
    assert_eq!(table.resolve("main"), Some("ent-1".to_string()));
}

#[test]
fn remove_absent_name_mutates_nothing() {
    let mut table = AliasTable::new();
    table.set("kept".to_string(), "ent-1".to_string());
    assert_eq!(table.remove("ghost"), AliasRemoveOutcome::NotFound);
    assert_eq!(table.len(), 1);
    assert_eq!(table.resolve("kept"), Some("ent-1".to_string()));
}

#[test]
fn remove_then_set_repoints_an_alias() {
    let mut table = AliasTable::new();
    table.set("main".to_string(), "ent-1".to_string());
    assert_eq!(table.remove("main"), AliasRemoveOutcome::Removed);
    assert_eq!(table.resolve("main"), None);
    assert_eq!(
        table.set("main".to_string(), "ent-2".to_string()),
        AliasSetOutcome::Created
    );
    assert_eq!(table.resolve("main"), Some("ent-2".to_string()));
}

#[test]
fn remove_leaves_other_aliases_alone() {
    let mut table = AliasTable::new();
    table.set("a".to_string(), "ent-1".to_string());
    table.set("b".to_string(), "ent-2".to_string());
    table.set("c".to_string(), "ent-3".to_string());
    assert_eq!(table.remove("b"), AliasRemoveOutcome::Removed);
    assert_eq!(table.len(), 2);
    assert_eq!(table.resolve("a"), Some("ent-1".to_string()));
    assert_eq!(table.resolve("c"), Some("ent-3".to_string()));
}

#[test]
fn resolve_unknown_name_is_none() {
    let table = AliasTable::new();
    assert_eq!(table.resolve("anything"), None);
}

#[test]
fn all_lists_aliases_in_insertion_order() {
    let mut table = AliasTable::new();
    table.set("z".to_string(), "ent-9".to_string());
    table.set("a".to_string(), "ent-1".to_string());
    let all = table.all();
    assert_eq!(all.len(), 2);
    assert_eq!(all[0].name, "z");
    assert_eq!(all[0].target_id, "ent-9");
    assert_eq!(all[1].name, "a");
}

#[test]
fn aliases_may_dangle_without_error() {
    // An alias may target an id that exists nowhere; that is detected only
    // at resolution time against the remote, never here.
    let mut table = AliasTable::new();
    assert_eq!(
        table.set("old".to_string(), "ent-gone".to_string()),
        AliasSetOutcome::Created
    );
    assert_eq!(table.resolve("old"), Some("ent-gone".to_string()));
}
