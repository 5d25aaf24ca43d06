use rocy::adapters::memory::in_memory_session_repo::InMemorySessionRepo;
use rocy::application::types::UserId;
use rocy::domain::services::session_service::{generate_session_id, SessionService};
use std::time::{Duration, SystemTime, UNIX_EPOCH};

fn micros(t: SystemTime) -> i64 {
    t.duration_since(UNIX_EPOCH).unwrap().as_micros() as i64
}

#[test]
fn create_and_find_user_by_session_id_returns_user() {
    // Arrange
    let repo = InMemorySessionRepo::new();
    let mut service = SessionService::new(repo);

    let user_id = UserId(1);
    let session_id = generate_session_id();
    let expires_at = micros(SystemTime::now() + Duration::from_secs(60));

    // Act
    service.create_session(&user_id, &session_id, expires_at).unwrap();
    let found = service.find_user_by_session(&session_id).unwrap();

    // Assert
    let user = found.expect("expected Some(SessionUser)");
    assert_eq!(user.user_id, user_id);
    assert_eq!(user.email.0, "test@example.com");
}

#[test]
fn find_user_by_session_id_unknown_returns_none() {
    // Arrange
    let repo = InMemorySessionRepo::new();
    let service = SessionService::new(repo);

    let unknown_sid = generate_session_id();

    // Act
    let found = service.find_user_by_session(&unknown_sid).unwrap();

    // Assert
    assert!(found.is_none());
}

#[test]
fn delete_by_id_removes_session() {
    // Arrange
    let repo = InMemorySessionRepo::new();
    let mut service = SessionService::new(repo);

    let user_id = UserId(1);
    let session_id = generate_session_id();
    let expires_at = micros(SystemTime::now() + Duration::from_secs(60));

    service.create_session(&user_id, &session_id, expires_at).unwrap();

    // Sanity check present
    assert!(service.find_user_by_session(&session_id).unwrap().is_some());

    // Act
    service.delete_session(&session_id).unwrap();

    // Assert
    assert!(service.find_user_by_session(&session_id).unwrap().is_none());
}

#[test]
fn generated_session_ids_are_43_url_safe_characters_and_differ() {
    let a = generate_session_id();
    let b = generate_session_id();
    assert_eq!(a.0.len(), 43);
    assert!(a.0.chars().all(|c| c.is_ascii_alphanumeric() || c == '-' || c == '_'));
    assert_ne!(a, b);
}

#[test]
fn recreating_a_session_replaces_its_user_and_other_sessions_stay() {
    let mut service = SessionService::new(InMemorySessionRepo::new());
    let a = generate_session_id();
    let b = generate_session_id();
    service.create_session(&UserId(1), &a, 10).unwrap();
    service.create_session(&UserId(2), &b, 10).unwrap();
    service.create_session(&UserId(3), &a, 20).unwrap();
    assert_eq!(service.find_user_by_session(&a).unwrap().unwrap().user_id, UserId(3));
    assert_eq!(service.find_user_by_session(&b).unwrap().unwrap().user_id, UserId(2));
    service.delete_session(&a).unwrap();
    assert!(service.find_user_by_session(&a).unwrap().is_none());
    assert_eq!(service.find_user_by_session(&b).unwrap().unwrap().user_id, UserId(2));
}

#[test]
fn deleting_an_unknown_session_succeeds() {
    let mut service = SessionService::new(InMemorySessionRepo::new());
    let a = generate_session_id();
    assert!(service.delete_session(&a).is_ok());
    assert!(service.find_user_by_session(&a).unwrap().is_none());
}
