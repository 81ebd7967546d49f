use rust_atlanta::model::{Staged, StagedUserAuth, User, UserAuth};
use rust_atlanta::validate::Validator;
use rust_atlanta::views::{CurrentResponse, LoginResponse};

fn user() -> User {
    User { name: "Ada".to_string(), email: "ada@example.com".to_string() }
}

fn user_auth(verified: Option<i64>) -> UserAuth {
    UserAuth {
        id: "7a9c2d1e".to_string(),
        email: "ada@example.com".to_string(),
        secret_token: "lo-abc123".to_string(),
        created_at: 100,
        updated_at: 200,
        email_verified_at: verified,
    }
}

#[test]
fn login_response_copies_fields() {
    let token = "session-token".to_string();
    let r = LoginResponse::new(&user(), &user_auth(Some(150)), &token);
    assert_eq!(r.token, "session-token");
    assert_eq!(r.pid, "7a9c2d1e");
    assert_eq!(r.name, "Ada");
    assert!(r.is_verified);
}

#[test]
fn login_response_unverified_when_no_verification_time() {
    let token = "session-token".to_string();
    let r = LoginResponse::new(&user(), &user_auth(None), &token);
    assert!(!r.is_verified);
}

#[test]
fn current_response_copies_fields() {
    let r = CurrentResponse::new(&user(), "11112222-3333".to_string());
    assert_eq!(r.pid, "11112222-3333");
    assert_eq!(r.name, "Ada");
    assert_eq!(r.email, "ada@example.com");
}

#[test]
fn well_formed_email_passes_validation() {
    let v = Validator { email: "ada@example.com".to_string() };
    assert!(v.validate());
}

#[test]
fn malformed_email_fails_validation() {
    let v = Validator { email: "not-an-email".to_string() };
    assert!(!v.validate());
    let empty = Validator { email: String::new() };
    assert!(!empty.validate());
}

#[test]
fn validator_extracts_staged_email() {
    let staged = StagedUserAuth {
        id: Staged::NotSet,
        email: Staged::Changed("new@example.com".to_string()),
        secret_token: Staged::NotSet,
        created_at: Staged::NotSet,
        updated_at: Staged::NotSet,
        email_verified_at: Staged::NotSet,
    };
    assert_eq!(staged.validator().email, "new@example.com");
    let loaded = StagedUserAuth { email: Staged::Unchanged("old@example.com".to_string()), ..staged };
    assert_eq!(loaded.validator().email, "old@example.com");
}
