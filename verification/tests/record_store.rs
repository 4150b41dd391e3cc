use sky_bet_roulette::bet::Bet;
use sky_bet_roulette::game::{Game, PlayedGame};
use sky_bet_roulette::store::RecordStore;

fn record(uuid: u128, service_id: &str) -> PlayedGame {
    PlayedGame {
        uuid,
        game: Game::EuropeanRoulette,
        bets: vec![Bet {
            player_id: "player_one".to_string(),
            bet: "00".to_string(),
            chips_in: 10,
            chips_out: Some(360),
        }],
        service_id: service_id.to_string(),
        occurred: 1700000000,
        result: "00".to_string(),
    }
}

#[test]
fn test_owner_retrieves_inserted_record() {
    let mut store = RecordStore::new();
    store.insert(record(42, "svc_a"));

    let found = store.get(42, "svc_a").expect("owner should find the record");
    assert_eq!(found.uuid, 42);
    assert_eq!(found.service_id, "svc_a");
    assert_eq!(found.result, "00");
    assert_eq!(found.bets[0].chips_out, Some(360));
}

#[test]
fn test_other_service_sees_nothing() {
    let mut store = RecordStore::new();
    store.insert(record(42, "svc_a"));
    assert!(store.get(42, "svc_b").is_none());
}

#[test]
fn test_unknown_id_is_not_found() {
    let mut store = RecordStore::new();
    store.insert(record(42, "svc_a"));
    assert!(store.get(7, "svc_a").is_none());
}

#[test]
fn test_many_records_stay_independently_retrievable() {
    let mut store = RecordStore::new();
    for i in 0u128..100 {
        let owner = format!("svc_{}", i % 7);
        store.insert(record(i, &owner));
    }
    assert_eq!(store.len(), 100);
    for i in 0u128..100 {
        let owner = format!("svc_{}", i % 7);
        let other = format!("svc_{}", (i + 1) % 7);
        let found = store.get(i, &owner).expect("record should still be present");
        assert_eq!(found.uuid, i);
        assert_eq!(found.service_id, owner);
        assert!(store.get(i, &other).is_none());
    }
}

#[test]
fn test_concurrent_inserts_all_retrievable() {
    let rt = tokio::runtime::Builder::new_multi_thread()
        .worker_threads(4)
        .build()
        .unwrap();
    rt.block_on(async {
        let store = std::sync::Arc::new(tokio::sync::RwLock::new(RecordStore::new()));
        let mut handles = Vec::new();
        for i in 0u128..64 {
            let store = store.clone();
            handles.push(tokio::spawn(async move {
                let owner = format!("svc_{}", i % 8);
                store.write().await.insert(record(i, &owner));
                let guard = store.read().await;
                assert!(guard.get(i, &owner).is_some());
            }));
        }
        for h in handles {
            h.await.unwrap();
        }
        let guard = store.read().await;
        assert_eq!(guard.len(), 64);
        for i in 0u128..64 {
            let owner = format!("svc_{}", i % 8);
            let found = guard.get(i, &owner).expect("record should be present");
            assert_eq!(found.uuid, i);
            assert_eq!(found.service_id, owner);
        }
    });
}

#[test]
fn test_colliding_insert_behaves_as_map_update() {
    // identifiers are freshly generated per play, so a collision does not
    // happen in practice; the store is not required to reject one, and
    // simply keeps the latest record under the key
    let mut store = RecordStore::new();
    store.insert(record(42, "svc_a"));
    store.insert(record(42, "svc_b"));
    assert_eq!(store.len(), 1);
    assert!(store.get(42, "svc_a").is_none());
    let found = store.get(42, "svc_b").expect("latest record should be present");
    assert_eq!(found.service_id, "svc_b");
}
