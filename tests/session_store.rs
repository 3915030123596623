use std::collections::HashSet;
use zero2prod::config::{CacheConfiguration, KeyPrefix};
use zero2prod::error::SessionError;
use zero2prod::key::{
    generate_session_key, generate_subscription_token, SESSION_KEY_LEN, SUBSCRIPTION_TOKEN_LEN,
};
use zero2prod::payload::SessionState;
use zero2prod::store::{
    expiry, finish_step, load_step, save_step, update_step, SaveStep, SessionStore, UpdateStep,
    MAX_SAVE_ATTEMPTS,
};
use zero2prod::table::{MemoryTable, StoredItem, WriteOutcome};

const DAY_MS: u64 = 24 * 60 * 60 * 1000;
const NOW_MS: u64 = 1_700_000_000_000;

fn state(pairs: &[(&str, &str)]) -> SessionState {
    let mut s = SessionState::new();
    for (k, v) in pairs {
        s.insert(k.to_string(), v.to_string());
    }
    s
}

fn store() -> SessionStore<KeyPrefix> {
    SessionStore::new(CacheConfiguration::new())
}

#[test]
fn generated_keys_are_64_alphanumeric_chars() {
    let k = generate_session_key();
    assert_eq!(SESSION_KEY_LEN, 64);
    assert_eq!(k.chars().count(), 64);
    assert!(k.chars().all(|c| c.is_ascii_alphanumeric()));
    assert_ne!(generate_session_key(), k);
}

#[test]
fn subscription_tokens_are_25_alphanumeric_chars() {
    let t = generate_subscription_token();
    assert_eq!(SUBSCRIPTION_TOKEN_LEN, 25);
    assert_eq!(t.chars().count(), 25);
    assert!(t.chars().all(|c| c.is_ascii_alphanumeric()));
    assert_ne!(generate_subscription_token(), t);
}

#[test]
fn save_then_load_returns_the_state() {
    let s = store();
    let mut t = MemoryTable::new();
    let p = state(&[("user", "42"), ("théme", "dárk")]);
    let k = s.save(&mut t, &p, DAY_MS, NOW_MS).unwrap();
    assert_eq!(s.load(&t, &k), Ok(Some(p)));
}

#[test]
fn save_stores_the_expiry_time() {
    let s = store();
    let mut t = MemoryTable::new();
    let k = s.save(&mut t, &state(&[("user", "42")]), DAY_MS, NOW_MS).unwrap();
    let item = t.get(&k).unwrap();
    assert_eq!(item.expires_at, NOW_MS + DAY_MS);
    assert_eq!(item.data, r#"{"user":"42"}"#);
}

#[test]
fn expiry_saturates() {
    assert_eq!(expiry(10, 5), 15);
    assert_eq!(expiry(u64::MAX - 1, 5), u64::MAX);
}

#[test]
fn update_of_an_existing_session_keeps_its_key() {
    let s = store();
    let mut t = MemoryTable::new();
    let k = s.save(&mut t, &state(&[("user", "42")]), DAY_MS, NOW_MS).unwrap();
    let updated = state(&[("user", "43")]);
    let k2 = s.update(&mut t, k.clone(), &updated, DAY_MS, NOW_MS + 1).unwrap();
    assert_eq!(k2, k);
    assert_eq!(s.load(&t, &k), Ok(Some(updated)));
}

#[test]
fn update_of_a_vanished_session_saves_a_new_one() {
    let s = store();
    let mut t = MemoryTable::new();
    let stale = s.save(&mut t, &state(&[("user", "1")]), DAY_MS, NOW_MS).unwrap();
    s.delete(&mut t, &stale).unwrap();
    let p = state(&[("user", "2")]);
    let k2 = s.update(&mut t, stale.clone(), &p, DAY_MS, NOW_MS).unwrap();
    assert_ne!(k2, stale);
    assert_eq!(s.load(&t, &k2), Ok(Some(p)));
    assert_eq!(s.load(&t, &stale), Ok(None));
}

#[test]
fn delete_removes_the_session_and_is_idempotent() {
    let s = store();
    let mut t = MemoryTable::new();
    let k = s.save(&mut t, &state(&[("user", "42")]), DAY_MS, NOW_MS).unwrap();
    assert_eq!(s.delete(&mut t, &k), Ok(()));
    assert_eq!(s.load(&t, &k), Ok(None));
    assert_eq!(s.delete(&mut t, &k), Ok(()));
    assert_eq!(s.load(&t, &k), Ok(None));
}

#[test]
fn renew_keeps_the_state_and_moves_the_expiry() {
    let s = store();
    let mut t = MemoryTable::new();
    let p = state(&[("user", "42"), ("flash", "ok")]);
    let k = s.save(&mut t, &p, DAY_MS, NOW_MS).unwrap();
    let before = s.load(&t, &k);
    assert_eq!(s.renew(&mut t, &k, DAY_MS, NOW_MS + 5_000), Ok(()));
    assert_eq!(s.load(&t, &k), before);
    assert_eq!(s.load(&t, &k), Ok(Some(p)));
    assert_eq!(t.get(&k).unwrap().expires_at, NOW_MS + 5_000 + DAY_MS);
}

#[test]
fn renew_of_a_missing_session_is_a_silent_no_op() {
    let s = store();
    let mut t = MemoryTable::new();
    assert_eq!(s.renew(&mut t, "missing", DAY_MS, NOW_MS), Ok(()));
    assert_eq!(s.load(&t, "missing"), Ok(None));
    assert!(t.get("missing").is_none());
}

#[test]
fn load_of_an_unknown_key_is_none() {
    let s = store();
    let t = MemoryTable::new();
    assert_eq!(s.load(&t, "nobody"), Ok(None));
}

#[test]
fn load_of_an_undecodable_record_is_an_error() {
    let s = store();
    let mut t = MemoryTable::new();
    let item = StoredItem { data: "{not json".to_string(), expires_at: NOW_MS };
    assert_eq!(t.put_if_absent("broken".to_string(), item), WriteOutcome::Written);
    assert_eq!(s.load(&t, "broken"), Err(SessionError::Deserialization));
}

#[test]
fn save_update_delete_scenario() {
    let s = store();
    let mut t = MemoryTable::new();
    let k1 = s.save(&mut t, &state(&[("user", "42")]), DAY_MS, NOW_MS).unwrap();
    assert_eq!(s.load(&t, &k1), Ok(Some(state(&[("user", "42")]))));
    let updated = state(&[("user", "42"), ("flash", "ok")]);
    let k = s.update(&mut t, k1.clone(), &updated, DAY_MS, NOW_MS).unwrap();
    assert_eq!(k, k1);
    assert_eq!(s.load(&t, &k1), Ok(Some(updated)));
    s.delete(&mut t, &k1).unwrap();
    assert_eq!(s.load(&t, &k1), Ok(None));
}

#[test]
fn update_of_an_expired_key_scenario() {
    let s = store();
    let mut t = MemoryTable::new();
    let p = state(&[("user", "7")]);
    let k2 = s.update(&mut t, "expired-key-xyz".to_string(), &p, DAY_MS, NOW_MS).unwrap();
    assert_ne!(k2, "expired-key-xyz");
    assert_eq!(k2.len(), 64);
    assert_eq!(s.load(&t, &k2), Ok(Some(p)));
    assert_eq!(s.load(&t, "expired-key-xyz"), Ok(None));
}

#[test]
fn a_thousand_saves_yield_distinct_keys() {
    let s = store();
    let mut t = MemoryTable::new();
    let p = state(&[("user", "42")]);
    let mut keys = HashSet::new();
    for _ in 0..1000 {
        let k = s.save(&mut t, &p, DAY_MS, NOW_MS).unwrap();
        assert!(keys.insert(k));
    }
    assert_eq!(keys.len(), 1000);
    for k in &keys {
        assert_eq!(s.load(&t, k), Ok(Some(p.clone())));
    }
}

#[test]
fn save_retries_a_taken_key_a_bounded_number_of_times() {
    assert_eq!(MAX_SAVE_ATTEMPTS, 3);
    assert_eq!(save_step(1, WriteOutcome::Written), SaveStep::Saved);
    assert_eq!(save_step(1, WriteOutcome::ConditionFailed), SaveStep::TryAnotherKey);
    assert_eq!(save_step(2, WriteOutcome::ConditionFailed), SaveStep::TryAnotherKey);
    assert_eq!(save_step(3, WriteOutcome::ConditionFailed), SaveStep::Fail(SessionError::Storage));
    assert_eq!(save_step(1, WriteOutcome::Failed), SaveStep::Fail(SessionError::Storage));
}

#[test]
fn update_falls_back_only_on_a_failed_condition() {
    assert_eq!(update_step(WriteOutcome::Written), UpdateStep::Updated);
    assert_eq!(update_step(WriteOutcome::ConditionFailed), UpdateStep::FallBackToSave);
    assert_eq!(update_step(WriteOutcome::Failed), UpdateStep::Fail(SessionError::Storage));
}

#[test]
fn renew_and_delete_fail_only_on_a_backend_failure() {
    assert_eq!(finish_step(WriteOutcome::Written), Ok(()));
    assert_eq!(finish_step(WriteOutcome::ConditionFailed), Ok(()));
    assert_eq!(finish_step(WriteOutcome::Failed), Err(SessionError::Storage));
}

#[test]
fn load_step_decisions() {
    assert_eq!(load_step(None), Ok(None));
    assert_eq!(load_step(Some(None)), Err(SessionError::Deserialization));
    assert_eq!(load_step(Some(Some("oops"))), Err(SessionError::Deserialization));
    assert_eq!(load_step(Some(Some(r#"{"a":"b"}"#))), Ok(Some(state(&[("a", "b")]))));
}

#[test]
fn table_conditional_writes() {
    let mut t = MemoryTable::new();
    let item = |d: &str| StoredItem { data: d.to_string(), expires_at: 1 };
    assert_eq!(t.put_if_present("k".to_string(), item("a")), WriteOutcome::ConditionFailed);
    assert!(t.get("k").is_none());
    assert_eq!(t.put_if_absent("k".to_string(), item("a")), WriteOutcome::Written);
    assert_eq!(t.put_if_absent("k".to_string(), item("b")), WriteOutcome::ConditionFailed);
    assert_eq!(t.get("k").unwrap().data, "a");
    assert_eq!(t.put_if_present("k".to_string(), item("c")), WriteOutcome::Written);
    assert_eq!(t.get("k").unwrap().data, "c");
    assert_eq!(t.set_expiry("k", 99), WriteOutcome::Written);
    assert_eq!(t.get("k").unwrap().expires_at, 99);
    assert_eq!(t.set_expiry("other", 99), WriteOutcome::ConditionFailed);
    t.delete("k");
    assert!(t.get("k").is_none());
}

#[test]
fn error_messages() {
    assert_eq!(SessionError::Deserialization.message(), "the stored session state could not be decoded");
    assert_eq!(SessionError::Storage.message(), "the session storage failed");
}

#[test]
fn expired_sessions_become_unobservable() {
    let s = store();
    let mut t = MemoryTable::new();
    let p = state(&[("user", "42")]);
    let k = s.save(&mut t, &p, DAY_MS, NOW_MS).unwrap();
    t.expire(NOW_MS + DAY_MS - 1);
    assert_eq!(s.load(&t, &k), Ok(Some(p)));
    t.expire(NOW_MS + DAY_MS);
    assert_eq!(s.load(&t, &k), Ok(None));
}

#[test]
fn expire_keeps_only_live_records() {
    let mut t = MemoryTable::new();
    for (key, exp) in [("a", 10u64), ("b", 20), ("c", 30), ("d", 5)] {
        let item = StoredItem { data: key.to_string(), expires_at: exp };
        assert_eq!(t.put_if_absent(key.to_string(), item), WriteOutcome::Written);
    }
    t.expire(10);
    assert!(t.get("a").is_none());
    assert!(t.get("d").is_none());
    assert_eq!(t.get("b").unwrap().expires_at, 20);
    assert_eq!(t.get("c").unwrap().data, "c");
}

#[test]
fn update_after_backend_expiry_falls_back_to_save() {
    let s = store();
    let mut t = MemoryTable::new();
    let k1 = s.save(&mut t, &state(&[("user", "7")]), 1_000, NOW_MS).unwrap();
    t.expire(NOW_MS + 1_000);
    let p = state(&[("user", "7"), ("flash", "ok")]);
    let k2 = s.update(&mut t, k1.clone(), &p, DAY_MS, NOW_MS + 2_000).unwrap();
    assert_ne!(k2, k1);
    assert_eq!(s.load(&t, &k2), Ok(Some(p)));
    assert_eq!(s.load(&t, &k1), Ok(None));
}

#[test]
fn claim_key_refuses_taken_and_avoided_keys() {
    let s = store();
    let mut t = MemoryTable::new();
    let item = |d: &str| StoredItem { data: d.to_string(), expires_at: 1 };
    let k = "k1".to_string();
    assert_eq!(s.claim_key(&mut t, &k, item("a"), None), WriteOutcome::Written);
    assert_eq!(t.get("k1").unwrap().data, "a");
    assert_eq!(s.claim_key(&mut t, &k, item("b"), None), WriteOutcome::ConditionFailed);
    assert_eq!(t.get("k1").unwrap().data, "a");
    let k2 = "k2".to_string();
    assert_eq!(s.claim_key(&mut t, &k2, item("c"), Some(&k2)), WriteOutcome::ConditionFailed);
    assert!(t.get("k2").is_none());
    assert_eq!(s.claim_key(&mut t, &k2, item("c"), Some(&k)), WriteOutcome::Written);
}

#[test]
fn save_on_an_empty_table_succeeds_with_one_record() {
    let s = store();
    let mut t = MemoryTable::new();
    let k1 = s.save(&mut t, &state(&[("user", "42")]), DAY_MS, NOW_MS).unwrap();
    assert_eq!(k1.len(), 64);
    assert!(k1.chars().all(|c| c.is_ascii_alphanumeric()));
    let item = t.get(&k1).unwrap();
    assert_eq!(item.expires_at, NOW_MS + DAY_MS);
}
