use hub_remote::session::{SessionStore, UserSession};

#[test]
fn upsert_keeps_pinned_entities() {
    let mut store = SessionStore::new();
    store.restore(
        1,
        UserSession {
            last_menu_id: 5,
            current_context: "AA".to_string(),
            header_entities: vec!["sensor.t".to_string()],
        },
    );
    store.upsert(1, 6, "AQEK".to_string());
    let s = store.get(1).unwrap();
    assert_eq!(s.last_menu_id, 6);
    assert_eq!(s.current_context, "AQEK");
    assert_eq!(s.header_entities, vec!["sensor.t".to_string()]);

    store.upsert(2, 8, "AA".to_string());
    assert!(store.get(2).unwrap().header_entities.is_empty());
    let mut users: Vec<u64> = store.list().into_iter().map(|(u, _)| u).collect();
    users.sort();
    assert_eq!(users, vec![1, 2]);
}
