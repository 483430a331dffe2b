use wal_control::meta_store::{ChangeMsg, MetaStore, MetaStoreHandle, StoreError, StoreOutcome};
use wal_control::namespace::{DatabaseConfig, NamespaceName};

fn quota(q: u64) -> DatabaseConfig {
    DatabaseConfig { quota: Some(q), block_reads: false, block_writes: false }
}

#[test]
fn internal_round_trip() {
    let mut h = MetaStoreHandle::internal();
    assert_eq!(h.get(), DatabaseConfig::default());
    let cfg = quota(7);
    assert!(matches!(h.store(cfg), StoreOutcome::Applied));
    assert_eq!(h.get(), cfg);
    let cfg2 = DatabaseConfig { quota: None, block_reads: true, block_writes: true };
    assert!(matches!(h.store(cfg2), StoreOutcome::Applied));
    assert_eq!(h.get(), cfg2);
}

#[test]
fn new_test_handle_is_internal() {
    let h = MetaStoreHandle::new_test();
    assert_eq!(h.get(), DatabaseConfig::default());
    assert_eq!(h.name().as_str(), "_libsql_server_internal");
}

#[test]
fn with_config_starts_from_given_value() {
    let h = MetaStoreHandle::with_config(quota(3));
    assert_eq!(h.get(), quota(3));
}

#[test]
fn internal_handle_has_no_channel() {
    let h = MetaStoreHandle::internal();
    let msg = ChangeMsg { namespace: NamespaceName::new("n1".to_string()), config: quota(1) };
    assert_eq!(h.send_change(msg), Err(StoreError::NotExternal));
    assert!(h.change_sender().is_none());
    assert!(h.config_receiver().is_none());
}

#[test]
fn fresh_handle_observes_stored_quota() {
    let mut store: MetaStore<u8> = MetaStore::new(0);
    let h1 = store.handle(NamespaceName::new("n1".to_string()));
    assert_eq!(h1.get(), DatabaseConfig::default());

    let mut h1 = h1;
    let out = h1.store(quota(100));
    let msg = match out {
        StoreOutcome::Pending(m) => m,
        StoreOutcome::Applied => panic!("external store must go through the channel"),
    };
    assert_eq!(msg.namespace.as_str(), "n1");
    assert_eq!(h1.send_change(msg), Ok(()));
    assert_eq!(store.apply_pending(16), 1);

    assert_eq!(h1.get(), quota(100));
    let h2 = store.handle(NamespaceName::new("n1".to_string()));
    assert_eq!(h2.get(), quota(100));
}

#[test]
fn serialized_stores_take_the_second_value() {
    let mut store: MetaStore<u8> = MetaStore::new(0);
    let mut h = store.handle(NamespaceName::new("n1".to_string()));
    let m1 = match h.store(quota(1)) {
        StoreOutcome::Pending(m) => m,
        _ => panic!("external"),
    };
    let m2 = match h.store(quota(2)) {
        StoreOutcome::Pending(m) => m,
        _ => panic!("external"),
    };
    assert_eq!(h.send_change(m1), Ok(()));
    assert_eq!(h.send_change(m2), Ok(()));
    assert_eq!(store.apply_pending(16), 2);
    assert_eq!(h.get(), quota(2));
}

#[test]
fn namespaces_do_not_mix() {
    let mut store: MetaStore<u8> = MetaStore::new(0);
    let mut h1 = store.handle(NamespaceName::new("n1".to_string()));
    let h2 = store.handle(NamespaceName::new("n2".to_string()));
    let m = match h1.store(quota(9)) {
        StoreOutcome::Pending(m) => m,
        _ => panic!("external"),
    };
    h1.send_change(m).unwrap();
    store.apply_pending(16);
    assert_eq!(h1.get(), quota(9));
    assert_eq!(h2.get(), DatabaseConfig::default());
}

#[test]
fn duplicate_handle_shares_the_cell() {
    let mut store: MetaStore<u8> = MetaStore::new(0);
    let mut h1 = store.handle(NamespaceName::new("n1".to_string()));
    let h3 = h1.dup();
    let m = match h1.store(quota(42)) {
        StoreOutcome::Pending(m) => m,
        _ => panic!("external"),
    };
    h1.send_change(m).unwrap();
    store.apply_pending(16);
    assert_eq!(h3.get(), quota(42));
}

#[test]
fn apply_change_creates_missing_cell() {
    let mut store: MetaStore<u8> = MetaStore::new(0);
    store.apply_change(ChangeMsg {
        namespace: NamespaceName::new("late".to_string()),
        config: quota(5),
    });
    let h = store.handle(NamespaceName::new("late".to_string()));
    assert_eq!(h.get(), quota(5));
}

#[test]
fn channel_full_is_reported() {
    let mut store: MetaStore<u8> = MetaStore::new(0);
    let mut h = store.handle(NamespaceName::new("n1".to_string()));
    let mut full_seen = false;
    for _ in 0..300 {
        let m = match h.store(quota(1)) {
            StoreOutcome::Pending(m) => m,
            _ => panic!("external"),
        };
        match h.send_change(m) {
            Ok(()) => {}
            Err(StoreError::ChannelFull) => {
                full_seen = true;
                break;
            }
            Err(e) => panic!("unexpected error: {:?}", e),
        }
    }
    assert!(full_seen);
    // draining makes room again
    assert!(store.apply_pending(512) > 0);
    let m = match h.store(quota(2)) {
        StoreOutcome::Pending(m) => m,
        _ => panic!("external"),
    };
    assert_eq!(h.send_change(m), Ok(()));
}

#[test]
fn closed_channel_is_reported() {
    let mut store: MetaStore<u8> = MetaStore::new(0);
    let mut h = store.handle(NamespaceName::new("n1".to_string()));
    drop(store);
    let m = match h.store(quota(1)) {
        StoreOutcome::Pending(m) => m,
        _ => panic!("external"),
    };
    assert_eq!(h.send_change(m), Err(StoreError::ChannelClosed));
}

#[test]
fn bootstrap_database_is_kept() {
    let store: MetaStore<u64> = MetaStore::new(77);
    assert_eq!(*store.bootstrap_db(), 77);
}
