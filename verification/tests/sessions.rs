use std::time::{Duration, Instant};

use pds_dash::sessions::{
    age_of, is_within_lifetime, live_or_none, PendingSignup, SignupSessions, SESSION_TTL_NANOS,
};

fn made_ago(secs: u64) -> Instant {
    Instant::now()
        .checked_sub(Duration::from_secs(secs))
        .expect("the monotonic clock has run long enough")
}

fn pending(handle: &str, created_at: Instant) -> PendingSignup {
    PendingSignup {
        handle: handle.to_string(),
        email: format!("{handle}@example.com"),
        password: "hunter2".to_string(),
        invite_code: "invite-1".to_string(),
        created_at,
    }
}

#[test]
fn lifetime_is_ten_minutes() {
    assert_eq!(SESSION_TTL_NANOS, 600_000_000_000);
    assert!(is_within_lifetime(0));
    assert!(is_within_lifetime(599_999_999_999));
    assert!(!is_within_lifetime(600_000_000_000));
    assert!(!is_within_lifetime(u128::MAX));
}

#[test]
fn new_keeps_fields_and_reads_the_clock() {
    let before = Instant::now();
    let p = PendingSignup::new("h.x".into(), "e@x".into(), "pw".into(), "code".into());
    let after = Instant::now();
    assert_eq!(p.handle, "h.x");
    assert_eq!(p.email, "e@x");
    assert_eq!(p.password, "pw");
    assert_eq!(p.invite_code, "code");
    assert!(before <= p.created_at && p.created_at <= after);
}

#[test]
fn take_returns_what_was_saved() {
    let mut s = SignupSessions::new();
    s.save("tok".to_string(), pending("alice.x", Instant::now()));
    let got = s.take("tok").expect("saved sign-up");
    assert_eq!(got.handle, "alice.x");
    assert_eq!(got.invite_code, "invite-1");
}

#[test]
fn take_is_single_use() {
    let mut s = SignupSessions::new();
    s.save("tok".to_string(), pending("alice.x", Instant::now()));
    assert!(s.take("tok").is_some());
    assert!(s.take("tok").is_none());
    assert!(!s.contains("tok"));
}

#[test]
fn take_of_unknown_state_is_none() {
    let mut s = SignupSessions::default();
    s.save("tok".to_string(), pending("alice.x", Instant::now()));
    assert!(s.take("other").is_none());
    assert!(s.contains("tok"));
}

#[test]
fn expired_sign_up_is_not_returned_and_is_removed() {
    let mut s = SignupSessions::new();
    s.save("tok".to_string(), pending("alice.x", made_ago(601)));
    assert!(s.contains("tok"));
    assert!(s.take("tok").is_none());
    assert!(!s.contains("tok"));
}

#[test]
fn young_sign_up_still_counts() {
    let mut s = SignupSessions::new();
    s.save("tok".to_string(), pending("alice.x", made_ago(590)));
    assert!(s.take("tok").is_some());
}

#[test]
fn save_drops_expired_and_keeps_live() {
    let mut s = SignupSessions::new();
    s.save("old".to_string(), pending("old.x", made_ago(700)));
    s.save("young".to_string(), pending("young.x", made_ago(60)));
    s.save("new".to_string(), pending("new.x", Instant::now()));
    assert!(!s.contains("old"));
    assert!(s.contains("young"));
    assert!(s.contains("new"));
    assert_eq!(s.take("young").unwrap().handle, "young.x");
}

#[test]
fn save_replaces_same_state() {
    let mut s = SignupSessions::new();
    s.save("tok".to_string(), pending("first.x", Instant::now()));
    s.save("tok".to_string(), pending("second.x", Instant::now()));
    assert_eq!(s.take("tok").unwrap().handle, "second.x");
    assert!(s.take("tok").is_none());
}

#[test]
fn remove_gives_back_expired_too() {
    let mut s = SignupSessions::new();
    s.save("tok".to_string(), pending("alice.x", made_ago(900)));
    assert_eq!(s.remove("tok").unwrap().handle, "alice.x");
    assert!(s.remove("tok").is_none());
}

#[test]
fn take_leaves_other_states() {
    let mut s = SignupSessions::new();
    s.save("a".to_string(), pending("a.x", Instant::now()));
    s.save("b".to_string(), pending("b.x", Instant::now()));
    assert!(s.take("a").is_some());
    assert_eq!(s.take("b").unwrap().handle, "b.x");
}

#[test]
fn live_or_none_decides_by_age() {
    let p = pending("a.x", Instant::now());
    assert_eq!(live_or_none(p.clone(), 599_999_999_999).unwrap().handle, "a.x");
    assert!(live_or_none(p, 600_000_000_000).is_none());
}

#[test]
fn age_of_takes_the_last_pair() {
    let ages = vec![("a".to_string(), 5u128), ("b".to_string(), 7), ("a".to_string(), 9)];
    assert_eq!(age_of(&ages, &"a".to_string()), Some(9));
    assert_eq!(age_of(&ages, &"b".to_string()), Some(7));
    assert_eq!(age_of(&ages, &"c".to_string()), None);
}

#[test]
fn prune_expired_keeps_exactly_the_young() {
    let mut s = SignupSessions::new();
    for k in ["young", "old", "unaged", "left_out"] {
        s.save(k.to_string(), pending(k, Instant::now()));
    }
    let ages = vec![
        ("young".to_string(), 599_999_999_999u128),
        ("old".to_string(), 600_000_000_000),
        ("left_out".to_string(), 0),
    ];
    s.prune_expired(&ages, "left_out");
    assert!(s.contains("young"));
    assert!(!s.contains("old"));
    assert!(!s.contains("unaged"));
    assert!(!s.contains("left_out"));
}

#[test]
fn ages_at_lists_every_sign_up() {
    let mut s = SignupSessions::new();
    s.save("a".to_string(), pending("a.x", made_ago(30)));
    s.save("b".to_string(), pending("b.x", Instant::now()));
    let ages = s.ages_at(&Instant::now());
    assert_eq!(ages.len(), 2);
    let a = age_of(&ages, &"a".to_string()).unwrap();
    let b = age_of(&ages, &"b".to_string()).unwrap();
    assert!(a >= 30_000_000_000);
    assert!(b < a);
}

#[test]
fn ages_at_measures_from_creation() {
    let mut s = SignupSessions::new();
    let created = made_ago(120);
    s.save("a".to_string(), pending("a.x", created));
    let now = Instant::now();
    let ages = s.ages_at(&now);
    assert_eq!(age_of(&ages, &"a".to_string()), Some(now.saturating_duration_since(created).as_nanos()));
    // An instant before the sign-up was made gives age 0.
    let ages = s.ages_at(&made_ago(600));
    assert_eq!(age_of(&ages, &"a".to_string()), Some(0));
}
