use kv_server::error::KvError;
use kv_server::kv::{
    decide_after_lookup, find_or_create_after_insert, find_or_create_after_lookup, FindStep, Lookup, KV,
};

fn record(id: i32, platform: &str, identity: &str) -> KV {
    KV {
        id,
        uuid: None,
        platform: platform.to_string(),
        identity: identity.to_string(),
        content: serde_json::Value::Null,
    }
}

#[test]
fn find_or_create_twitter_alice_on_empty_table() {
    // First call: the lookup finds nothing, so the pair is inserted.
    let step = find_or_create_after_lookup("twitter", "alice", Err(diesel::result::Error::NotFound));
    let row = match step {
        FindStep::Insert(row) => row,
        other => panic!("expected an insert, got {:?}", other),
    };
    assert_eq!(row.platform, "twitter");
    assert_eq!(row.identity, "alice");
    let (created, was_found) = find_or_create_after_insert(Ok(record(1, &row.platform, &row.identity))).unwrap();
    assert!(!was_found);
    assert_eq!(created.platform, "twitter");
    assert_eq!(created.identity, "alice");
    assert_eq!(created.id, 1);

    // Second call: the lookup returns the row created above.
    let again = find_or_create_after_lookup("twitter", "alice", Ok(created));
    match again {
        FindStep::Done(Ok((kv, true))) => {
            assert_eq!(kv.id, 1);
            assert_eq!(kv.platform, "twitter");
            assert_eq!(kv.identity, "alice");
        }
        other => panic!("expected the found row, got {:?}", other),
    }
}

#[test]
fn found_row_is_returned_unchanged() {
    let mut kv = record(7, "github", "bob");
    kv.content = serde_json::Value::Bool(true);
    match decide_after_lookup("github", "bob", Lookup::Found(kv)) {
        FindStep::Done(Ok((kv, true))) => {
            assert_eq!(kv.id, 7);
            assert_eq!(kv.content, serde_json::Value::Bool(true));
        }
        other => panic!("unexpected step {:?}", other),
    }
}

#[test]
fn missing_row_leads_to_insert_of_the_pair() {
    match decide_after_lookup("keybase", "carol", Lookup::NotFound) {
        FindStep::Insert(row) => {
            assert_eq!(row.platform, "keybase");
            assert_eq!(row.identity, "carol");
        }
        other => panic!("unexpected step {:?}", other),
    }
}

#[test]
fn lookup_failure_other_than_not_found_never_inserts() {
    let step = find_or_create_after_lookup("twitter", "alice", Err(diesel::result::Error::RollbackTransaction));
    match step {
        FindStep::Done(Err(KvError::Storage(e))) => {
            assert_eq!(e, diesel::result::Error::RollbackTransaction)
        }
        other => panic!("expected the storage failure, got {:?}", other),
    }
    let step = decide_after_lookup("twitter", "alice", Lookup::Failed(diesel::result::Error::AlreadyInTransaction));
    assert!(matches!(step, FindStep::Done(Err(KvError::Storage(diesel::result::Error::AlreadyInTransaction)))));
}

#[test]
fn insert_failure_is_passed_on_unchanged() {
    let r = find_or_create_after_insert(Err(diesel::result::Error::RollbackTransaction));
    assert!(matches!(r, Err(KvError::Storage(diesel::result::Error::RollbackTransaction))));
}
