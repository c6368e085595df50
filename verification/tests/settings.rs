use tajagi::secret::{ApiKeyStore, MemoryApiKeyStore};
use tajagi::settings::{SlotTable, StringMap};

#[test]
fn string_map_insert_get_remove_round_trip() {
    let mut m = StringMap::new();
    m.insert("a".to_string(), "1".to_string());
    m.insert("b".to_string(), "2".to_string());
    m.insert("a".to_string(), "3".to_string());
    assert_eq!(m.get("a"), Some(&"3".to_string()));
    assert_eq!(m.get("c"), None);
    m.remove("a");
    assert_eq!(m.get("a"), None);
    assert_eq!(m.get("b"), Some(&"2".to_string()));
    let mut pairs = m.to_pairs();
    pairs.sort();
    assert_eq!(pairs, vec![("b".to_string(), "2".to_string())]);
}

#[test]
fn duplicate_pairs_keep_the_last_value() {
    let m = StringMap::from_pairs(vec![
        ("k".to_string(), "first".to_string()),
        ("k".to_string(), "second".to_string()),
    ]);
    assert_eq!(m.get("k"), Some(&"second".to_string()));
    assert_eq!(m.to_pairs().len(), 1);
}

#[test]
fn slot_table_sorted_entries() {
    let t = SlotTable::from_pairs(vec![
        (7, "custom".to_string()),
        (2, "polish".to_string()),
        (7, "prompt_english".to_string()),
    ]);
    assert_eq!(
        t.sorted_entries(),
        vec![(2, "polish".to_string()), (7, "prompt_english".to_string())]
    );
}

#[test]
fn memory_store_over_a_settings_table() {
    let mut table = StringMap::new();
    table.insert("openai".to_string(), "sk".to_string());
    let mut store = MemoryApiKeyStore::from_table(table);
    assert_eq!(store.get("openai").unwrap(), Some("sk".to_string()));
    store.delete("openai").unwrap();
    assert_eq!(store.table().get("openai"), Some(&String::new()));
}
