use pingpair::directory::INTEREST_BONUS;
use pingpair::pairing::COMPLETION_BONUS;
use pingpair::state::{PingPairState, STARTING_SCORE};
use pingpair::types::{DomainError, PairingStatus};

fn fresh() -> PingPairState {
    PingPairState::new()
}

fn with_users(ids: &[(&str, &str)]) -> PingPairState {
    let mut s = fresh();
    let mut t: u64 = 1;
    for (id, name) in ids {
        s.create_user(id.to_string(), name.to_string(), t).unwrap();
        t += 1;
    }
    s
}

#[test]
fn create_user_defaults() {
    let mut s = fresh();
    let p = s.create_user("u1".to_string(), "Alice".to_string(), 99).unwrap();
    assert_eq!(p.user_id, "u1");
    assert_eq!(p.name, "Alice");
    assert_eq!(p.net_worth, STARTING_SCORE);
    assert_eq!(p.country, "Unknown");
    assert_eq!(p.timezone, "UTC");
    assert_eq!(p.join_date, 99);
    assert!(p.is_active);
    assert!(!p.skip_next_match);
    assert!(p.interests.is_empty());
    assert!(p.badges.is_empty());
}

#[test]
fn duplicate_create_fails_and_preserves_score() {
    let mut s = with_users(&[("u1", "Alice")]);
    s.apply_event(&"u1".to_string(), 20).unwrap();
    let second = s.create_user("u1".to_string(), "Alice".to_string(), 7);
    assert!(matches!(second, Err(DomainError::AlreadyExists)));
    // Re-activation leaves the score untouched.
    s.deactivate(&"u1".to_string()).unwrap();
    s.reactivate(&"u1".to_string()).unwrap();
    let p = s.get_user(&"u1".to_string()).unwrap();
    assert_eq!(p.net_worth, STARTING_SCORE + 20);
    assert!(p.is_active);
}

#[test]
fn unknown_user_operations_fail_with_not_found() {
    let mut s = fresh();
    let missing = "ghost".to_string();
    assert!(matches!(s.reactivate(&missing), Err(DomainError::NotFound)));
    assert!(matches!(s.deactivate(&missing), Err(DomainError::NotFound)));
    assert!(matches!(s.set_skip_next(&missing, true), Err(DomainError::NotFound)));
    assert!(matches!(
        s.set_timezone(&missing, "UTC".to_string()),
        Err(DomainError::NotFound)
    ));
    assert!(matches!(s.apply_event(&missing, 1), Err(DomainError::NotFound)));
    assert!(s.get_user(&missing).is_none());
}

#[test]
fn add_interest_deduplicates_and_scores() {
    let mut s = with_users(&[("u1", "Alice")]);
    let uid = "u1".to_string();
    assert_eq!(s.add_interest(&uid, "chess".to_string()).unwrap(), true);
    let p = s.get_user(&uid).unwrap();
    assert_eq!(p.net_worth, STARTING_SCORE + INTEREST_BONUS);
    assert_eq!(p.interests, vec!["chess".to_string()]);
    // A duplicate is a no-op.
    assert_eq!(s.add_interest(&uid, "chess".to_string()).unwrap(), false);
    let p = s.get_user(&uid).unwrap();
    assert_eq!(p.net_worth, STARTING_SCORE + INTEREST_BONUS);
    assert_eq!(p.interests.len(), 1);
}

#[test]
fn score_clamps_at_zero() {
    let mut s = with_users(&[("u1", "Alice")]);
    let uid = "u1".to_string();
    let after = s.apply_event(&uid, -1000).unwrap();
    assert_eq!(after, 0);
    assert_eq!(s.get_user(&uid).unwrap().net_worth, 0);
    // And recovers normally afterwards.
    assert_eq!(s.apply_event(&uid, 12).unwrap(), 12);
}

#[test]
fn score_saturates_at_the_type_maximum() {
    let mut s = with_users(&[("u1", "Alice")]);
    let uid = "u1".to_string();
    s.apply_event(&uid, i64::MAX).unwrap();
    assert_eq!(s.get_user(&uid).unwrap().net_worth, u32::MAX);
    s.apply_event(&uid, 5).unwrap();
    assert_eq!(s.get_user(&uid).unwrap().net_worth, u32::MAX);
}

fn assert_no_double_booking(s: &PingPairState) {
    let mut seen: Vec<&String> = Vec::new();
    for p in &s.active_pairings {
        assert!(!seen.contains(&&p.user1));
        assert!(!seen.contains(&&p.user2));
        seen.push(&p.user1);
        seen.push(&p.user2);
    }
}

#[test]
fn no_user_in_two_active_pairings_across_sequences() {
    let mut s = with_users(&[("u1", "A"), ("u2", "B"), ("u3", "C"), ("u4", "D"), ("u5", "E")]);
    let japan = "Japan".to_string();
    let p1 = s.create_pairing(&"u1".to_string(), &"u2".to_string(), &japan, 1).unwrap();
    s.create_pairing(&"u3".to_string(), &"u4".to_string(), &japan, 2).unwrap();
    assert_no_double_booking(&s);
    s.cancel_pairing(p1.id).unwrap();
    let p3 = s.create_pairing(&"u2".to_string(), &"u5".to_string(), &japan, 3).unwrap();
    assert_no_double_booking(&s);
    s.complete_pairing(p3.id).unwrap();
    s.create_pairing(&"u5".to_string(), &"u1".to_string(), &japan, 4).unwrap();
    assert_no_double_booking(&s);
    let session = s.create_new_session(9, 5);
    assert_no_double_booking(&s);
    // Only u2 was free, so the session formed no pairing.
    assert_eq!(session.pairings.len(), 0);
}

#[test]
fn pairing_rejects_self_and_double_booking() {
    let mut s = with_users(&[("u1", "A"), ("u2", "B"), ("u3", "C")]);
    let u1 = "u1".to_string();
    let u2 = "u2".to_string();
    let u3 = "u3".to_string();
    let selfpair = s.create_pairing(&u1, &u1, &"Japan".to_string(), 5);
    assert!(matches!(selfpair, Err(DomainError::InvalidPairing)));
    let first = s.create_pairing(&u1, &u2, &"Japan".to_string(), 5).unwrap();
    assert_eq!(first.status, PairingStatus::Active);
    assert_eq!(first.country, "Japan");
    // u1 is booked: the second attempt fails.
    let second = s.create_pairing(&u1, &u3, &"Kenya".to_string(), 6);
    assert!(matches!(second, Err(DomainError::InvalidPairing)));
    // u2 as well, in either slot.
    let third = s.create_pairing(&u3, &u2, &"Kenya".to_string(), 6);
    assert!(matches!(third, Err(DomainError::InvalidPairing)));
}

#[test]
fn complete_pairing_awards_both_and_logs() {
    let mut s = with_users(&[("u1", "A"), ("u2", "B")]);
    let u1 = "u1".to_string();
    let u2 = "u2".to_string();
    let p = s.create_pairing(&u1, &u2, &"Japan".to_string(), 5).unwrap();
    let done = s.complete_pairing(p.id).unwrap();
    assert_eq!(done.status, PairingStatus::Completed);
    assert_eq!(done.id, p.id);
    assert_eq!(s.active_pairings.len(), 0);
    assert_eq!(s.completed_pairings.len(), 1);
    assert_eq!(s.get_user(&u1).unwrap().net_worth, STARTING_SCORE + COMPLETION_BONUS);
    assert_eq!(s.get_user(&u2).unwrap().net_worth, STARTING_SCORE + COMPLETION_BONUS);
    // A second completion of the same id finds nothing.
    assert!(matches!(s.complete_pairing(p.id), Err(DomainError::NotFound)));
}

#[test]
fn cancel_pairing_drops_without_log_or_score() {
    let mut s = with_users(&[("u1", "A"), ("u2", "B")]);
    let u1 = "u1".to_string();
    let u2 = "u2".to_string();
    let p = s.create_pairing(&u1, &u2, &"Japan".to_string(), 5).unwrap();
    s.cancel_pairing(p.id).unwrap();
    assert_eq!(s.active_pairings.len(), 0);
    assert_eq!(s.completed_pairings.len(), 0);
    assert_eq!(s.get_user(&u1).unwrap().net_worth, STARTING_SCORE);
    // The users are free to pair again.
    assert!(s.create_pairing(&u1, &u2, &"Kenya".to_string(), 6).is_ok());
}

#[test]
fn complete_after_cancel_fails() {
    let mut s = with_users(&[("u1", "A"), ("u2", "B")]);
    let p = s
        .create_pairing(&"u1".to_string(), &"u2".to_string(), &"Japan".to_string(), 5)
        .unwrap();
    s.cancel_pairing(p.id).unwrap();
    assert!(matches!(s.complete_pairing(p.id), Err(DomainError::NotFound)));
}

#[test]
fn cancel_unknown_pairing_fails() {
    let mut s = fresh();
    assert!(matches!(s.cancel_pairing(42), Err(DomainError::NotFound)));
}

#[test]
fn pairing_counter_exhaustion_reports_invalid_state() {
    let mut s = with_users(&[("u1", "A"), ("u2", "B")]);
    s.next_pairing_id = u64::MAX;
    let res = s.create_pairing(&"u1".to_string(), &"u2".to_string(), &"Japan".to_string(), 5);
    assert!(matches!(res, Err(DomainError::InvalidState)));
}

#[test]
fn sessions_archive_oldest_first() {
    let mut s = with_users(&[("u1", "A"), ("u2", "B")]);
    let s1 = s.create_new_session(11, 100);
    let s2 = s.create_new_session(22, 200);
    let s3 = s.create_new_session(33, 300);
    assert_eq!(s.past_sessions.len(), 2);
    assert_eq!(s.past_sessions[0].id, s1.id);
    assert_eq!(s.past_sessions[1].id, s2.id);
    let current = s.current_session.as_ref().unwrap();
    assert_eq!(current.id, s3.id);
    assert!(s1.id < s2.id && s2.id < s3.id);
}

#[test]
fn session_pairs_eligible_users() {
    let mut s = with_users(&[("u1", "A"), ("u2", "B"), ("u3", "C"), ("u4", "D")]);
    let session = s.create_new_session(7, 50);
    assert_eq!(session.pairings.len(), 2);
    let mut seen: Vec<String> = Vec::new();
    for p in &session.pairings {
        assert_eq!(p.status, PairingStatus::Active);
        assert_ne!(p.user1, p.user2);
        assert!(!seen.contains(&p.user1));
        assert!(!seen.contains(&p.user2));
        seen.push(p.user1.clone());
        seen.push(p.user2.clone());
    }
    assert_eq!(s.active_pairings.len(), 2);
}

#[test]
fn session_skips_marked_users_and_clears_flag() {
    let mut s = with_users(&[("u1", "A"), ("u2", "B"), ("u3", "C")]);
    s.set_skip_next(&"u3".to_string(), true).unwrap();
    let session = s.create_new_session(7, 50);
    assert_eq!(session.pairings.len(), 1);
    for p in &session.pairings {
        assert_ne!(p.user1, "u3");
        assert_ne!(p.user2, "u3");
    }
    // The skip is one-shot.
    assert!(!s.get_user(&"u3".to_string()).unwrap().skip_next_match);
    let again = s.create_new_session(8, 60);
    // u1 and u2 are still actively paired, so only u3 is eligible: no pair.
    assert_eq!(again.pairings.len(), 0);
}

#[test]
fn session_excludes_inactive_and_already_paired() {
    let mut s = with_users(&[("u1", "A"), ("u2", "B"), ("u3", "C"), ("u4", "D")]);
    s.deactivate(&"u4".to_string()).unwrap();
    s.create_pairing(&"u1".to_string(), &"u2".to_string(), &"Japan".to_string(), 5)
        .unwrap();
    let session = s.create_new_session(7, 50);
    // Only u3 is eligible; an odd one out stays unpaired with no error.
    assert_eq!(session.pairings.len(), 0);
}

#[test]
fn session_pairs_by_shared_timezone() {
    let mut s = with_users(&[("u1", "A"), ("u2", "B"), ("u3", "C"), ("u4", "D")]);
    s.set_timezone(&"u1".to_string(), "UTC+3".to_string()).unwrap();
    s.set_timezone(&"u2".to_string(), "EST".to_string()).unwrap();
    s.set_timezone(&"u3".to_string(), "UTC+3".to_string()).unwrap();
    s.set_timezone(&"u4".to_string(), "EST".to_string()).unwrap();
    let session = s.create_new_session(7, 50);
    assert_eq!(session.pairings.len(), 2);
    for p in &session.pairings {
        let tz1 = s.get_user(&p.user1).unwrap().timezone;
        let tz2 = s.get_user(&p.user2).unwrap().timezone;
        assert_eq!(tz1, tz2);
    }
}

#[test]
fn session_features_spotlights_from_catalog() {
    let mut s = with_users(&[("u1", "A"), ("u2", "B")]);
    for c in pingpair::catalog::get_default_countries() {
        s.insert_country(c);
    }
    let session = s.create_new_session(3, 10);
    assert_eq!(session.featured_countries.len(), 3);
    for name in &session.featured_countries {
        assert!(["Kenya", "India", "Brazil"].contains(&name.as_str()));
    }
    for p in &session.pairings {
        assert!(session.featured_countries.contains(&p.country));
    }
}
