use std::sync::Arc;

use relay_core::identifier::Identifier;
use relay_core::registry::ActiveConnection;
use relay_core::registry::ActiveConnectionRegistry;

fn connection(server: &str, client: &str, established_at: u64) -> ActiveConnection {
    ActiveConnection::new(
        Identifier::new(server.to_string(), client.to_string()),
        vec!["chat".to_string()],
        established_at,
    )
}

#[test]
fn insert_appends_and_snapshot_reports() {
    let mut registry = ActiveConnectionRegistry::new();
    assert_eq!(registry.len(), 0);
    registry.insert(connection("acme", "bot1", 10));
    registry.insert(connection("acme", "bot2", 11));
    let snapshot = registry.snapshot();
    assert_eq!(snapshot.len(), 2);
    assert_eq!(snapshot[0].identifier.client_id(), "bot1");
    assert_eq!(snapshot[1].identifier.client_id(), "bot2");
    assert_eq!(snapshot[1].established_at, 11);
    assert_eq!(snapshot[0].subscriptions, vec!["chat".to_string()]);
}

#[test]
fn same_identity_may_connect_twice() {
    let mut registry = ActiveConnectionRegistry::new();
    registry.insert(connection("acme", "bot1", 10));
    registry.insert(connection("acme", "bot1", 20));
    assert_eq!(registry.len(), 2);
}

#[test]
fn remove_is_keyed_by_identity_and_time() {
    let mut registry = ActiveConnectionRegistry::new();
    registry.insert(connection("acme", "bot1", 10));
    registry.insert(connection("acme", "bot1", 20));
    registry.insert(connection("acme", "bot2", 10));
    registry.remove(&Identifier::new("acme".to_string(), "bot1".to_string()), 10);
    let snapshot = registry.snapshot();
    assert_eq!(snapshot.len(), 2);
    assert_eq!(snapshot[0].identifier.client_id(), "bot1");
    assert_eq!(snapshot[0].established_at, 20);
    assert_eq!(snapshot[1].identifier.client_id(), "bot2");
}

#[test]
fn remove_of_absent_key_changes_nothing() {
    let mut registry = ActiveConnectionRegistry::new();
    registry.insert(connection("acme", "bot1", 10));
    registry.remove(&Identifier::new("other".to_string(), "bot1".to_string()), 10);
    assert_eq!(registry.len(), 1);
}

#[test]
fn concurrent_inserts_lose_nothing() {
    const TASKS: usize = 64;
    let runtime = tokio::runtime::Builder::new_multi_thread()
        .worker_threads(8)
        .build()
        .unwrap();
    let registry = Arc::new(tokio::sync::Mutex::new(ActiveConnectionRegistry::new()));
    runtime.block_on(async {
        let mut handles = Vec::new();
        for k in 0..TASKS {
            let shared = registry.clone();
            handles.push(tokio::spawn(async move {
                let conn = connection("acme", &format!("bot{}", k), k as u64);
                shared.lock().await.insert(conn);
            }));
        }
        for handle in handles {
            handle.await.unwrap();
        }
    });
    let registry = Arc::try_unwrap(registry).ok().unwrap().into_inner();
    let snapshot = registry.snapshot();
    assert_eq!(snapshot.len(), TASKS);
    let mut seen: Vec<u64> = snapshot.iter().map(|c| c.established_at).collect();
    seen.sort();
    let expected: Vec<u64> = (0..TASKS as u64).collect();
    assert_eq!(seen, expected);
    for conn in snapshot.iter() {
        assert_eq!(
            conn.identifier.client_id(),
            format!("bot{}", conn.established_at)
        );
    }
}
