use tajagi::secret::{
    after_destination_read, after_source_read, keyring_credential, keyring_delete_result,
    keyring_read_result, keyring_write_result, migration_outcome, DestinationVerdict,
    KeyringFailure, ProviderOutcome,
};
use tajagi::secret::{
    answer_after_keyring_read, delete_api_key, get_api_key, migrate_secret_map, provider_ids_with_keys, set_api_key,
    ApiKeyStore, KeyringApiKeyStore, MemoryApiKeyStore, Secret, SecretError,
};
use tajagi::settings::StringMap;

fn provider(id: &str) -> String {
    id.to_string()
}

fn keyrings() -> Vec<String> {
    vec![provider("openai"), provider("anthropic"), provider("ollama")]
}

#[test]
fn settings_store_get_set_delete() {
    let mut store = MemoryApiKeyStore::new(Vec::new());
    assert_eq!(store.get("openai").unwrap(), None);
    store.set("openai", "sk-secret").unwrap();
    assert_eq!(store.get("openai").unwrap(), Some("sk-secret".to_string()));
    store.delete("openai").unwrap();
    assert_eq!(store.get("openai").unwrap(), None);
}

#[test]
fn secret_debug_redacts_values() {
    let out = Secret(&"hunter2").redacted();
    assert!(!out.contains("hunter2"));
    assert!(out.contains("[REDACTED]"));
    assert!(Secret(&"").redacted().contains("<empty>"));
}

#[test]
fn migration_moves_keys_and_clears_source() {
    let source_keys = vec![
        ("openai".to_string(), "sk-1".to_string()),
        ("anthropic".to_string(), "sk-2".to_string()),
        // Empty keys and providers without keys are not migrated.
        ("ollama".to_string(), String::new()),
    ];
    let mut source = MemoryApiKeyStore::new(source_keys.clone());
    let mut dest = MemoryApiKeyStore::new(Vec::new());

    let report = migrate_secret_map(&mut source, &mut dest, &keyrings());
    assert_eq!(report.migrated, 2);
    assert_eq!(report.skipped, 0);

    assert_eq!(dest.get("openai").unwrap(), Some("sk-1".to_string()));
    assert_eq!(dest.get("anthropic").unwrap(), Some("sk-2".to_string()));
    assert_eq!(dest.get("ollama").unwrap(), None);
    // Moved keys are cleared from the source.
    assert_eq!(source.get("openai").unwrap(), None);
    assert_eq!(source.get("anthropic").unwrap(), None);
}

#[test]
fn migration_skips_providers_already_in_dest() {
    let source_keys = vec![("openai".to_string(), "sk-stale".to_string())];
    let mut source = MemoryApiKeyStore::new(source_keys.clone());

    let dest_keys = vec![("openai".to_string(), "sk-fresh".to_string())];
    let mut dest = MemoryApiKeyStore::new(dest_keys);

    let report = migrate_secret_map(&mut source, &mut dest, &keyrings());
    assert_eq!(report.migrated, 0);
    assert_eq!(report.skipped, 1);
    assert_eq!(dest.get("openai").unwrap(), Some("sk-fresh".to_string()));
    assert_eq!(source.get("openai").unwrap(), Some("sk-stale".to_string()));
}

struct Broken;

impl ApiKeyStore for Broken {
    fn get(&self, _: &str) -> Result<Option<String>, SecretError> {
        Err(SecretError::Unavailable("keychain locked".to_string()))
    }
    fn set(&mut self, _: &str, _: &str) -> Result<(), SecretError> {
        Err(SecretError::Unavailable("keychain locked".to_string()))
    }
    fn delete(&mut self, _: &str) -> Result<(), SecretError> {
        Err(SecretError::Unavailable("keychain locked".to_string()))
    }
}

#[test]
fn keyring_unavailable_surfaces_error_not_panic() {
    let store = Broken;
    let err = store.get("openai").unwrap_err();
    assert!(matches!(err, SecretError::Unavailable(_)));
}

#[test]
fn migration_leaves_providers_with_unreadable_destination() {
    let mut source = MemoryApiKeyStore::new(vec![("openai".to_string(), "sk-1".to_string())]);
    let mut dest = Broken;
    let report = migrate_secret_map(&mut source, &mut dest, &keyrings());
    assert_eq!(report.migrated, 0);
    assert_eq!(report.skipped, 0);
    assert_eq!(source.get("openai").unwrap(), Some("sk-1".to_string()));
}

#[test]
fn migration_of_a_repeated_provider_moves_once_then_skips() {
    let mut source = MemoryApiKeyStore::new(vec![("openai".to_string(), "sk-1".to_string())]);
    let mut dest = MemoryApiKeyStore::new(Vec::new());
    let ids = vec![provider("openai"), provider("openai")];
    let report = migrate_secret_map(&mut source, &mut dest, &ids);
    assert_eq!(report.migrated, 1);
    assert_eq!(report.skipped, 1);
    assert_eq!(dest.get("openai").unwrap(), Some("sk-1".to_string()));
}

#[test]
fn whitespace_keys_read_as_missing() {
    let mut store = MemoryApiKeyStore::new(vec![("a".to_string(), " \t".to_string())]);
    assert_eq!(store.get("a").unwrap(), None);
    store.set("a", "  k  ").unwrap();
    assert_eq!(store.get("a").unwrap(), Some("  k  ".to_string()));
}

#[test]
fn later_pairs_replace_earlier_ones() {
    let store = MemoryApiKeyStore::new(vec![
        ("a".to_string(), "old".to_string()),
        ("a".to_string(), "new".to_string()),
    ]);
    assert_eq!(store.get("a").unwrap(), Some("new".to_string()));
}

#[test]
fn secret_error_display_text() {
    assert_eq!(
        SecretError::Store("disk full".to_string()).to_string(),
        "Secret store error: disk full"
    );
    assert_eq!(
        SecretError::Unavailable("keychain locked".to_string()).to_string(),
        "keychain locked"
    );
}

#[test]
fn layered_lookup_prefers_keyring_and_falls_back() {
    let settings = MemoryApiKeyStore::new(vec![("openai".to_string(), "sk-settings".to_string())]);
    let none: Option<MemoryApiKeyStore> = None;
    assert_eq!(get_api_key(&none, &settings, "openai").unwrap(), Some("sk-settings".to_string()));

    let ring = Some(MemoryApiKeyStore::new(vec![("openai".to_string(), "sk-ring".to_string())]));
    assert_eq!(get_api_key(&ring, &settings, "openai").unwrap(), Some("sk-ring".to_string()));

    let empty_ring = Some(MemoryApiKeyStore::new(Vec::new()));
    assert_eq!(
        get_api_key(&empty_ring, &settings, "openai").unwrap(),
        Some("sk-settings".to_string())
    );

    let broken = Some(Broken);
    assert!(get_api_key(&broken, &settings, "openai").is_err());
}

#[test]
fn layered_set_and_delete() {
    let mut settings = MemoryApiKeyStore::new(vec![("openai".to_string(), "sk-old".to_string())]);
    let mut ring = Some(MemoryApiKeyStore::new(Vec::new()));
    set_api_key(&mut ring, &mut settings, "openai", "sk-new").unwrap();
    assert_eq!(ring.as_ref().unwrap().get("openai").unwrap(), Some("sk-new".to_string()));
    assert_eq!(settings.get("openai").unwrap(), Some("sk-old".to_string()));

    delete_api_key(&mut ring, &mut settings, "openai").unwrap();
    assert_eq!(ring.as_ref().unwrap().get("openai").unwrap(), None);
    assert_eq!(settings.get("openai").unwrap(), None);

    let mut no_ring: Option<KeyringApiKeyStore> = None;
    set_api_key(&mut no_ring, &mut settings, "anthropic", "sk-a").unwrap();
    assert_eq!(settings.get("anthropic").unwrap(), Some("sk-a".to_string()));

    let mut broken = Some(Broken);
    assert!(delete_api_key(&mut broken, &mut settings, "anthropic").is_err());
    assert_eq!(settings.get("anthropic").unwrap(), Some("sk-a".to_string()));
}

#[test]
fn provider_ids_with_keys_lists_non_blank_keys_once() {
    let table = StringMap::from_pairs(vec![
        ("openai".to_string(), "sk-1".to_string()),
        ("ollama".to_string(), "  ".to_string()),
        ("openai".to_string(), "sk-2".to_string()),
        ("groq".to_string(), "gk".to_string()),
    ]);
    let mut ids = provider_ids_with_keys(&table);
    ids.sort();
    assert_eq!(ids, vec!["groq".to_string(), "openai".to_string()]);
}

#[test]
fn keyring_outcomes_map_to_store_answers() {
    assert_eq!(keyring_read_result(Ok("sk".to_string())).unwrap(), Some("sk".to_string()));
    assert_eq!(keyring_read_result(Err(KeyringFailure::NoEntry)).unwrap(), None);
    match keyring_read_result(Err(KeyringFailure::Failed("locked".to_string()))) {
        Err(SecretError::Store(msg)) => assert_eq!(msg, "locked"),
        other => panic!("unexpected {:?}", other),
    }
    assert_eq!(keyring_write_result(Ok::<u8, String>(3)).unwrap(), 3);
    match keyring_write_result(Err::<(), String>("denied".to_string())) {
        Err(SecretError::Store(msg)) => assert_eq!(msg, "denied"),
        other => panic!("unexpected {:?}", other),
    }
}

#[test]
fn keyring_delete_outcomes() {
    assert!(keyring_delete_result(Ok(())).is_ok());
    assert!(keyring_delete_result(Err(KeyringFailure::NoEntry)).is_ok());
    match keyring_delete_result(Err(KeyringFailure::Failed("locked".to_string()))) {
        Err(SecretError::Store(msg)) => assert_eq!(msg, "locked"),
        other => panic!("unexpected {:?}", other),
    }
    let (service, user) = keyring_credential("openai");
    assert_eq!(service, "com.hee10k.tajagi.api-keys");
    assert_eq!(user, "openai");
}

#[test]
fn migration_records_each_provider_outcome() {
    let mut source = MemoryApiKeyStore::new(vec![
        ("openai".to_string(), "sk-1".to_string()),
        ("anthropic".to_string(), "sk-2".to_string()),
    ]);
    let mut dest = MemoryApiKeyStore::new(vec![("anthropic".to_string(), "sk-new".to_string())]);
    let report = migrate_secret_map(&mut source, &mut dest, &keyrings());
    assert_eq!(
        report.outcomes,
        vec![ProviderOutcome::Moved, ProviderOutcome::Skipped, ProviderOutcome::Left]
    );
    // A second run moves nothing and skips the providers the destination holds.
    let again = migrate_secret_map(&mut source, &mut dest, &keyrings());
    assert_eq!(again.migrated, 0);
    assert_eq!(again.skipped, 2);
    assert_eq!(dest.get("openai").unwrap(), Some("sk-1".to_string()));
    assert_eq!(dest.get("anthropic").unwrap(), Some("sk-new".to_string()));
    assert_eq!(source.get("anthropic").unwrap(), Some("sk-2".to_string()));
}

#[test]
fn per_provider_decisions() {
    assert_eq!(after_destination_read(&Ok(Some("k".to_string()))), DestinationVerdict::Skip);
    assert_eq!(after_destination_read(&Ok(Some(" ".to_string()))), DestinationVerdict::ReadSource);
    assert_eq!(after_destination_read(&Ok(None)), DestinationVerdict::ReadSource);
    assert_eq!(
        after_destination_read(&Err(SecretError::Store("x".to_string()))),
        DestinationVerdict::Leave
    );
    assert_eq!(after_source_read(&Ok(Some("k".to_string()))), Some("k".to_string()));
    assert_eq!(after_source_read(&Ok(Some("\t".to_string()))), None);
    let none: Result<Option<String>, SecretError> = Ok(None);
    let key: Result<Option<String>, SecretError> = Ok(Some("k".to_string()));
    let failed: Result<(), SecretError> = Err(SecretError::Store("x".to_string()));
    assert_eq!(migration_outcome(&none, Some(&key), Some(&Ok(()))), ProviderOutcome::Moved);
    assert_eq!(migration_outcome(&none, Some(&key), Some(&failed)), ProviderOutcome::Left);
    assert_eq!(migration_outcome(&none, Some(&none), None), ProviderOutcome::Left);
    assert_eq!(
        migration_outcome(&Err(SecretError::Store("x".to_string())), None, None),
        ProviderOutcome::Left
    );
    assert_eq!(migration_outcome(&key, None, None), ProviderOutcome::Skipped);
}

struct FailingWrites(MemoryApiKeyStore);

impl ApiKeyStore for FailingWrites {
    fn get(&self, id: &str) -> Result<Option<String>, SecretError> {
        self.0.get(id)
    }
    fn set(&mut self, _: &str, _: &str) -> Result<(), SecretError> {
        Err(SecretError::Store("read-only".to_string()))
    }
    fn delete(&mut self, _: &str) -> Result<(), SecretError> {
        Err(SecretError::Store("read-only".to_string()))
    }
}

#[test]
fn failed_destination_write_leaves_the_source_key() {
    let mut source = MemoryApiKeyStore::new(vec![("openai".to_string(), "sk-1".to_string())]);
    let mut dest = FailingWrites(MemoryApiKeyStore::new(Vec::new()));
    let report = migrate_secret_map(&mut source, &mut dest, &keyrings());
    assert_eq!(report.migrated, 0);
    assert_eq!(report.skipped, 0);
    assert_eq!(report.outcomes[0], ProviderOutcome::Left);
    assert_eq!(source.get("openai").unwrap(), Some("sk-1".to_string()));
}

#[test]
fn keyring_read_answers_or_defers_to_settings() {
    let settings = MemoryApiKeyStore::new(vec![("openai".to_string(), "sk-settings".to_string())]);
    match answer_after_keyring_read(Err(SecretError::Store("locked".to_string())), &settings, "openai") {
        Err(SecretError::Store(msg)) => assert_eq!(msg, "locked"),
        other => panic!("unexpected {:?}", other),
    }
    assert_eq!(
        answer_after_keyring_read(Ok(Some("sk-ring".to_string())), &settings, "openai").unwrap(),
        Some("sk-ring".to_string())
    );
    assert_eq!(
        answer_after_keyring_read(Ok(None), &settings, "openai").unwrap(),
        Some("sk-settings".to_string())
    );
    assert_eq!(answer_after_keyring_read(Ok(None), &settings, "groq").unwrap(), None);
}

#[test]
fn delete_without_keyring_leaves_an_empty_settings_entry() {
    let mut settings = MemoryApiKeyStore::new(vec![
        ("openai".to_string(), "sk-1".to_string()),
        ("groq".to_string(), "gk".to_string()),
    ]);
    let mut no_ring: Option<MemoryApiKeyStore> = None;
    delete_api_key(&mut no_ring, &mut settings, "openai").unwrap();
    assert_eq!(settings.table().get("openai").map(|k| k.as_str()), Some(""));
    assert_eq!(get_api_key(&no_ring, &settings, "openai").unwrap(), None);
    assert_eq!(settings.get("groq").unwrap(), Some("gk".to_string()));
    delete_api_key(&mut no_ring, &mut settings, "anthropic").unwrap();
    assert_eq!(settings.table().get("anthropic").map(|k| k.as_str()), Some(""));
}
