use promise_core::promise::Promise;
use promise_core::promise::RequestKey;
use promise_core::data::FetchError;

fn key(s: &str) -> String {
    String::from(s)
}

#[test]
fn defer_then_resolved_is_none() {
    let mut p: Promise<String, u64, FetchError> = Promise::Empty;
    p.defer(key("show-A"));
    assert!(p.resolved().is_none());
    assert!(p.is_pending());
}

#[test]
fn stale_update_returns_false_and_keeps_state() {
    let mut p: Promise<String, u64, FetchError> = Promise::Empty;
    p.defer(key("show-A"));
    let applied = p.update(key("show-B"), Ok(7));
    assert!(!applied);
    assert_eq!(p, Promise::Deferred(key("show-A")));
    assert!(p.is_pending());
    assert!(p.resolved().is_none());
}

#[test]
fn matching_update_returns_true_and_resolves() {
    let mut p: Promise<String, u64, FetchError> = Promise::Empty;
    p.defer(key("show-A"));
    let applied = p.update(key("show-A"), Ok(7));
    assert!(applied);
    assert_eq!(p, Promise::Resolved(key("show-A"), Ok(7)));
    let r = p.resolved();
    assert!(r.is_some());
    let (d, res) = r.unwrap();
    assert_eq!(*d, key("show-A"));
    assert_eq!(*res, Ok(7));
    assert!(!p.is_pending());
}

#[test]
fn update_twice_is_idempotent() {
    let mut once: Promise<String, u64, FetchError> = Promise::Empty;
    once.defer(key("show-A"));
    assert!(once.update(key("show-A"), Ok(7)));

    let mut twice: Promise<String, u64, FetchError> = Promise::Empty;
    twice.defer(key("show-A"));
    assert!(twice.update(key("show-A"), Ok(7)));
    assert!(twice.update(key("show-A"), Ok(7)));

    assert_eq!(once, twice);
}

#[test]
fn update_on_empty_is_ignored() {
    let mut p: Promise<String, u64, FetchError> = Promise::Empty;
    let applied = p.update(key("show-A"), Ok(1));
    assert!(!applied);
    assert_eq!(p, Promise::Empty);
}

#[test]
fn update_on_resolved_compares_against_held_key() {
    let mut p: Promise<String, u64, FetchError> = Promise::Empty;
    p.defer(key("show-A"));
    assert!(p.update(key("show-A"), Ok(1)));
    // A later completion for the same held key is applied again.
    assert!(p.update(key("show-A"), Ok(2)));
    assert_eq!(p, Promise::Resolved(key("show-A"), Ok(2)));
    // A completion for any other key is dropped.
    assert!(!p.update(key("show-B"), Ok(3)));
    assert_eq!(p, Promise::Resolved(key("show-A"), Ok(2)));
}

#[test]
fn error_outcome_is_stored_not_raised() {
    let mut p: Promise<String, u64, FetchError> = Promise::Empty;
    p.defer(key("show-C"));
    assert!(p.update(key("show-C"), Err(FetchError::NotFound)));
    assert_eq!(p, Promise::Resolved(key("show-C"), Err(FetchError::NotFound)));
}

#[test]
fn u64_keys_work_as_request_keys() {
    let mut p: Promise<u64, String, FetchError> = Promise::Empty;
    p.defer(42);
    assert!(!p.update(41, Ok(String::from("wrong"))));
    assert!(p.update(42, Ok(String::from("right"))));
    assert_eq!(p, Promise::Resolved(42, Ok(String::from("right"))));
    assert_eq!(42u64.dup(), 42u64);
    assert!(42u64.same(&42));
    assert!(!42u64.same(&41));
}

#[test]
fn string_key_same_and_dup() {
    let a = key("show-A");
    assert!(a.same(&key("show-A")));
    assert!(!a.same(&key("show-B")));
    assert_eq!(a.dup(), key("show-A"));
}
