use rocy::adapters::memory::in_memory_user_repo::InMemoryUserRepo;
use rocy::application::services::user_service::UserService;
use rocy::application::types::{Email, Provider, Sub, UserId};

#[test]
fn update_user_creates_new_user_on_first_seen_identity() {
    let repo = InMemoryUserRepo::new();
    let mut service = UserService::new(repo);

    let id = service
        .create_or_update_user(&Provider("google".into()), &Sub("sub-123".into()), &Email("u@example.com".into()))
        .expect("upsert should succeed");

    assert!(id.0 > 0);

    let fetched = service.find_user(&id).expect("get_user ok");
    let fetched = fetched.expect("user should exist");
    assert_eq!(fetched.id.0, id.0);
    assert_eq!(fetched.email.0, "u@example.com");
}

#[test]
fn update_user_upserts_same_identity_and_updates_email() {
    let repo = InMemoryUserRepo::new();
    let mut service = UserService::new(repo);

    let id1 = service
        .create_or_update_user(&Provider("google".into()), &Sub("sub-abc".into()), &Email("first@example.com".into()))
        .unwrap();

    let id2 = service
        .create_or_update_user(&Provider("google".into()), &Sub("sub-abc".into()), &Email("second@example.com".into()))
        .unwrap();

    assert_eq!(id1.0, id2.0, "the same identity should upsert the same user id");

    let fetched = service.find_user(&id1).unwrap().unwrap();
    assert_eq!(fetched.email.0, "second@example.com", "email updated on upsert");
}

#[test]
fn get_user_returns_none_for_unknown_id() {
    let repo = InMemoryUserRepo::new();
    let service = UserService::new(repo);

    let unknown = UserId(9999);
    let fetched = service.find_user(&unknown).unwrap();
    assert!(fetched.is_none());
}

#[test]
fn distinct_identities_get_distinct_ids() {
    let mut service = UserService::new(InMemoryUserRepo::new());
    let a = service
        .create_or_update_user(&Provider("google".into()), &Sub("a".into()), &Email("a@example.com".into()))
        .unwrap();
    let b = service
        .create_or_update_user(&Provider("google".into()), &Sub("b".into()), &Email("b@example.com".into()))
        .unwrap();
    let c = service
        .create_or_update_user(&Provider("github".into()), &Sub("a".into()), &Email("c@example.com".into()))
        .unwrap();
    assert_eq!(a, UserId(1));
    assert_eq!(b, UserId(2));
    assert_eq!(c, UserId(3));
    let fetched = service.find_user(&b).unwrap().unwrap();
    assert_eq!(fetched.provider.0, "google");
    assert_eq!(fetched.sub.0, "b");
    assert_eq!(fetched.email.0, "b@example.com");
    assert_eq!(service.find_user(&a).unwrap().unwrap().email.0, "a@example.com");
}

#[test]
fn an_email_update_keeps_the_creation_time() {
    let mut service = UserService::new(InMemoryUserRepo::new());
    let id = service
        .create_or_update_user(&Provider("google".into()), &Sub("t".into()), &Email("old@example.com".into()))
        .unwrap();
    let created = service.find_user(&id).unwrap().unwrap().created;
    service
        .create_or_update_user(&Provider("google".into()), &Sub("t".into()), &Email("new@example.com".into()))
        .unwrap();
    let fetched = service.find_user(&id).unwrap().unwrap();
    assert_eq!(fetched.email.0, "new@example.com");
    assert_eq!(fetched.created, created);
}
