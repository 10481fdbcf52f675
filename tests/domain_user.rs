use rouse::error::DomainError;
use rouse::ids::UserId;
use rouse::user::{Phone, Role, Team, User};

#[test]
fn user_can_be_on_call_with_phone() {
    let mut user = User::new("alice".into(), "alice@test.com".into(), Role::User);
    user.set_phone(Phone::new("+41791234567").unwrap());
    assert!(user.can_be_on_call());
    assert_eq!(user.phone().map(|p| p.as_str()), Some("+41791234567"));
}

#[test]
fn user_can_be_on_call_with_slack() {
    let mut user = User::new("alice".into(), "alice@test.com".into(), Role::User);
    user.set_slack_id("U12345".into());
    assert!(user.can_be_on_call());
}

#[test]
fn user_can_be_on_call_with_whatsapp() {
    let mut user = User::new("alice".into(), "alice@test.com".into(), Role::User);
    user.set_whatsapp_id("+41791234567".into());
    assert!(user.can_be_on_call());
}

#[test]
fn user_can_be_on_call_with_discord_or_telegram() {
    let mut a = User::new("a".into(), "a@test.com".into(), Role::Admin);
    a.set_discord_id("d1".into());
    assert!(a.can_be_on_call());
    let mut b = User::new("b".into(), "b@test.com".into(), Role::Viewer);
    b.set_telegram_id("t1".into());
    assert!(b.can_be_on_call());
    assert_eq!(b.username(), "b");
    assert_eq!(b.email(), "b@test.com");
    assert_eq!(b.role(), Role::Viewer);
}

#[test]
fn user_cannot_be_on_call_no_contact() {
    let user = User::new("alice".into(), "alice@test.com".into(), Role::User);
    assert!(!user.can_be_on_call());
}

#[test]
fn team_requires_member() {
    let result = Team::new("empty".into(), vec![]);
    assert!(matches!(result, Err(DomainError::TeamRequiresMember)));
}

#[test]
fn team_with_members_succeeds() {
    let team = Team::new("backend".into(), vec![UserId::new()]);
    assert!(team.is_ok());
    assert_eq!(team.unwrap().name(), "backend");
}

#[test]
fn phone_valid_e164() {
    assert!(Phone::new("+41791234567").is_ok());
    assert!(Phone::new("+12025551234").is_ok());
    assert!(Phone::new("+447911123456").is_ok());
}

#[test]
fn phone_invalid_rejects() {
    assert_eq!(
        Phone::new("041791234567"),
        Err(DomainError::InvalidPhoneFormat)
    );
    assert_eq!(Phone::new("+123"), Err(DomainError::InvalidPhoneFormat));
    assert_eq!(Phone::new(""), Err(DomainError::InvalidPhoneFormat));
    assert_eq!(
        Phone::new("+41-791-234-567"),
        Err(DomainError::InvalidPhoneFormat)
    );
}

#[test]
fn phone_length_bounds() {
    assert!(Phone::new("+1234567").is_ok());
    assert!(Phone::new("+123456").is_err());
    assert!(Phone::new("+123456789012345").is_ok());
    assert!(Phone::new("+1234567890123456").is_err());
    assert!(Phone::new("+12345６7").is_err());
}
