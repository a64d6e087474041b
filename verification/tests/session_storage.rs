use flowfull::session::{LookupAction, MemoryStore, SessionCache, SessionLookup};
use flowfull::{FileStorage, FlowfullError, PUBFLOW_SESSION_ID, PUBFLOW_USER_DATA};

/// Runs a lookup against a provider answer and a store, as the session
/// manager does.
fn lookup(
    cached: Option<&str>,
    fixed: Option<&str>,
    provider: Option<Option<&str>>,
    store: Option<&MemoryStore>,
) -> (Option<String>, Vec<LookupAction>) {
    let cached = cached.map(|s| s.to_string());
    let fixed = fixed.map(|s| s.to_string());
    let (mut machine, mut action) =
        SessionLookup::begin(cached.as_ref(), fixed.as_ref(), provider.is_some(), store.is_some());
    let mut seen = Vec::new();
    loop {
        seen.push(action.clone());
        let value = match &action {
            LookupAction::Found(id) => return (Some(id.clone()), seen),
            LookupAction::NotFound => return (None, seen),
            LookupAction::CallProvider => provider.unwrap().map(|s| s.to_string()),
            LookupAction::ReadStorage(key) => store.unwrap().get_item(key),
        };
        let (next, next_action) = machine.on_value(value);
        machine = next;
        action = next_action;
    }
}

#[test]
fn memory_storage_round_trips_values() {
    let mut storage = MemoryStore::new();
    storage.set_item(PUBFLOW_SESSION_ID, "ses_123");
    assert_eq!(storage.get_item(PUBFLOW_SESSION_ID), Some("ses_123".to_string()));
    storage.remove_item(PUBFLOW_SESSION_ID);
    assert_eq!(storage.get_item(PUBFLOW_SESSION_ID), None);
}

#[test]
fn session_manager_prefers_static_session() {
    let mut store = MemoryStore::new();
    store.set_item(PUBFLOW_SESSION_ID, "stored_session");
    let (found, actions) = lookup(None, Some("static_session"), None, Some(&store));
    assert_eq!(found, Some("static_session".to_string()));
    assert_eq!(actions.len(), 1);
}

#[test]
fn session_manager_reads_legacy_keys() {
    let mut store = MemoryStore::new();
    store.set_item("session_id", "legacy");
    let (found, actions) = lookup(None, None, None, Some(&store));
    assert_eq!(found, Some("legacy".to_string()));
    assert_eq!(
        actions,
        vec![
            LookupAction::ReadStorage("pubflow_session_id".to_string()),
            LookupAction::ReadStorage("flowfull_session_id".to_string()),
            LookupAction::ReadStorage("session_id".to_string()),
            LookupAction::Found("legacy".to_string()),
        ]
    );
}

#[test]
fn removing_the_session_and_user_keys_forgets_both() {
    let mut store = MemoryStore::new();
    store.set_item(PUBFLOW_SESSION_ID, "ses");
    store.set_item(PUBFLOW_USER_DATA, "{\"id\":\"usr\"}");
    store.remove_item(PUBFLOW_SESSION_ID);
    store.remove_item(PUBFLOW_USER_DATA);
    assert_eq!(store.get_item(PUBFLOW_SESSION_ID), None);
    assert_eq!(store.get_item(PUBFLOW_USER_DATA), None);
}

#[test]
fn memory_store_overwrites_and_clears() {
    let mut store = MemoryStore::new();
    store.set_item("a", "1");
    store.set_item("b", "2");
    store.set_item("a", "3");
    assert_eq!(store.get_item("a"), Some("3".to_string()));
    assert_eq!(store.get_item("b"), Some("2".to_string()));
    store.clear();
    assert_eq!(store.get_item("a"), None);
    assert_eq!(store.get_item("b"), None);
}

#[test]
fn cached_session_comes_first() {
    let mut store = MemoryStore::new();
    store.set_item(PUBFLOW_SESSION_ID, "stored");
    let (found, _) = lookup(Some("cached"), Some("fixed"), Some(Some("provided")), Some(&store));
    assert_eq!(found, Some("cached".to_string()));
}

#[test]
fn provider_session_comes_before_storage_and_empty_ones_are_skipped() {
    let mut store = MemoryStore::new();
    store.set_item(PUBFLOW_SESSION_ID, "stored");
    let (found, actions) = lookup(None, None, Some(Some("provided")), Some(&store));
    assert_eq!(found, Some("provided".to_string()));
    assert_eq!(actions[0], LookupAction::CallProvider);

    let (found, _) = lookup(None, None, Some(Some("")), Some(&store));
    assert_eq!(found, Some("stored".to_string()));

    store.set_item(PUBFLOW_SESSION_ID, "");
    store.set_item("sessionId", "camel");
    let (found, _) = lookup(None, None, Some(None), Some(&store));
    assert_eq!(found, Some("camel".to_string()));
}

#[test]
fn lookup_without_sources_finds_nothing() {
    let (found, actions) = lookup(None, None, None, None);
    assert_eq!(found, None);
    assert_eq!(actions, vec![LookupAction::NotFound]);

    let store = MemoryStore::new();
    let (found, actions) = lookup(None, None, Some(None), Some(&store));
    assert_eq!(found, None);
    assert_eq!(actions.len(), 6);
}

#[test]
fn file_storage_keeps_keys_inside_its_directory() {
    let storage = FileStorage::new("/tmp/store");
    let path = storage.path_for_key(PUBFLOW_SESSION_ID).unwrap();
    assert!(
        path == "/tmp/store/pubflow_session_id" || path == "/tmp/store\\pubflow_session_id",
        "{path}"
    );
    assert_eq!(storage.base(), "/tmp/store");
    for bad in ["", "a/b", "a\\b", "..", "a..b", "c:d"] {
        match storage.path_for_key(bad) {
            Err(FlowfullError::Storage(message)) => {
                assert_eq!(message, format!("invalid storage key: {bad}"))
            }
            other => panic!("{bad}: {other:?}"),
        }
    }
    assert!(storage.path_for_key("a.b").is_ok());
    assert_eq!(FileStorage::new("").path_for_key("k").unwrap(), "k");
    assert_eq!(FileStorage::new("/tmp/store/").path_for_key("k").unwrap(), "/tmp/store/k");
}

#[test]
fn a_cached_session_is_answered_until_cleared() {
    let mut cache = SessionCache::new();
    let fixed = "fixed".to_string();
    let (_, action) = cache.begin(Some(&fixed), true, true);
    assert_eq!(action, LookupAction::Found("fixed".to_string()));
    cache.remember(&action);
    let (_, again) = cache.begin(None, true, true);
    assert_eq!(again, LookupAction::Found("fixed".to_string()));
    cache.set("ses_new");
    let (_, after_set) = cache.begin(Some(&fixed), true, true);
    assert_eq!(after_set, LookupAction::Found("ses_new".to_string()));
    cache.remember(&LookupAction::NotFound);
    assert_eq!(cache.begin(None, false, false).1, LookupAction::Found("ses_new".to_string()));
    cache.clear();
    assert_eq!(cache.begin(None, true, false).1, LookupAction::CallProvider);
}
