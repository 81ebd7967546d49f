use std::collections::HashSet;

use rust_atlanta::model::{Staged, StagedUserAuth};
use rust_atlanta::normalize::{apply_pre_save, generate_token, normalize, NormalizeError};

fn staged_row() -> StagedUserAuth {
    StagedUserAuth {
        id: Staged::NotSet,
        email: Staged::NotSet,
        secret_token: Staged::NotSet,
        created_at: Staged::NotSet,
        updated_at: Staged::NotSet,
        email_verified_at: Staged::NotSet,
    }
}

#[test]
fn insert_issues_prefixed_token_and_equal_timestamps() {
    let mut staged = staged_row();
    staged.email = Staged::Changed("a@example.com".to_string());
    let out = normalize(staged, true).unwrap();
    match &out.secret_token {
        Staged::Changed(t) => {
            assert!(!t.is_empty());
            assert!(t.starts_with("lo-"));
            assert_eq!(t.len(), 39);
        },
        other => panic!("token not issued: {:?}", other),
    }
    let created = match out.created_at {
        Staged::Changed(v) => v,
        other => panic!("created_at not stamped: {:?}", other),
    };
    let updated = match out.updated_at {
        Staged::Changed(v) => v,
        other => panic!("updated_at not stamped: {:?}", other),
    };
    assert_eq!(created, updated);
    assert_eq!(out.email, Staged::Changed("a@example.com".to_string()));
}

#[test]
fn insert_discards_externally_supplied_token() {
    let mut staged = staged_row();
    staged.secret_token = Staged::Changed("attacker-chosen".to_string());
    let out = normalize(staged, true).unwrap();
    match &out.secret_token {
        Staged::Changed(t) => {
            assert_ne!(t, "attacker-chosen");
            assert!(t.starts_with("lo-"));
        },
        other => panic!("token not issued: {:?}", other),
    }
}

#[test]
fn insert_tokens_distinct_over_many_invocations() {
    let mut seen: HashSet<String> = HashSet::new();
    for _ in 0..10_000 {
        let out = normalize(staged_row(), true).unwrap();
        let token = match out.secret_token {
            Staged::Changed(t) => t,
            other => panic!("token not issued: {:?}", other),
        };
        assert!(!token.is_empty());
        assert!(seen.insert(token), "token repeated");
    }
    assert_eq!(seen.len(), 10_000);
}

#[test]
fn update_without_explicit_updated_at_advances_it() {
    let prev: i64 = 1_000;
    let mut staged = staged_row();
    staged.secret_token = Staged::Unchanged("lo-abc123".to_string());
    staged.email = Staged::Changed("b@example.com".to_string());
    staged.updated_at = Staged::Unchanged(prev);
    let now: i64 = prev + 60_000_000;
    let out = apply_pre_save(staged, false, Some("lo-unused".to_string()), now).unwrap();
    assert_eq!(out.secret_token, Staged::Unchanged("lo-abc123".to_string()));
    assert_eq!(out.email, Staged::Changed("b@example.com".to_string()));
    assert_eq!(out.updated_at, Staged::Changed(now));
    match out.updated_at {
        Staged::Changed(v) => assert!(v > prev),
        other => panic!("updated_at not refreshed: {:?}", other),
    }
}

#[test]
fn update_through_hook_advances_updated_at() {
    let prev: i64 = 1_000;
    let mut staged = staged_row();
    staged.secret_token = Staged::Unchanged("lo-abc123".to_string());
    staged.updated_at = Staged::Unchanged(prev);
    let out = normalize(staged, false).unwrap();
    assert_eq!(out.secret_token, Staged::Unchanged("lo-abc123".to_string()));
    match out.updated_at {
        Staged::Changed(v) => assert!(v > prev),
        other => panic!("updated_at not refreshed: {:?}", other),
    }
}

#[test]
fn update_with_explicit_updated_at_keeps_it() {
    let t0: i64 = 777;
    let mut staged = staged_row();
    staged.updated_at = Staged::Changed(t0);
    let out = normalize(staged, false).unwrap();
    assert_eq!(out.updated_at, Staged::Changed(t0));
}

#[test]
fn updates_never_alter_created_at() {
    let mut staged = staged_row();
    staged.created_at = Staged::Unchanged(42);
    staged.updated_at = Staged::Unchanged(5);
    let first = normalize(staged, false).unwrap();
    assert_eq!(first.created_at, Staged::Unchanged(42));
    let mut again = first;
    again.updated_at = Staged::NotSet;
    let second = normalize(again, false).unwrap();
    assert_eq!(second.created_at, Staged::Unchanged(42));
}

#[test]
fn insert_without_token_fails_normalization() {
    let r = apply_pre_save(staged_row(), true, None, 7);
    assert_eq!(r, Err(NormalizeError::NormalizationFailed));
}

#[test]
fn insert_with_empty_token_fails_normalization() {
    let r = apply_pre_save(staged_row(), true, Some(String::new()), 7);
    assert_eq!(r, Err(NormalizeError::NormalizationFailed));
}

#[test]
fn generated_token_has_prefix_and_length() {
    let t = generate_token().expect("randomness source available");
    assert_eq!(t.len(), 39);
    assert!(t.starts_with("lo-"));
}
