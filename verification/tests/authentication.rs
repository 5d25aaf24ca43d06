use rocy::adapters::memory::in_memory_session_repo::InMemorySessionRepo;
use rocy::adapters::memory::in_memory_user_repo::InMemoryUserRepo;
use rocy::application::ports::auth_provider::ExternalProfile;
use rocy::application::services::user_service::UserService;
use rocy::application::types::UserId;
use rocy::application::usecases::authentication::Authentication;
use rocy::domain::services::session_service::SessionService;

fn auth() -> Authentication<InMemorySessionRepo, InMemoryUserRepo> {
    Authentication::new(SessionService::new(InMemorySessionRepo::new()), UserService::new(InMemoryUserRepo::new()))
}

fn profile(sub: &str, email: &str) -> ExternalProfile {
    ExternalProfile { sub: sub.into(), email: email.into() }
}

#[test]
fn sign_in_records_the_user_and_opens_a_session() {
    let mut a = auth();
    let sid = a.update_session("google", profile("sub-1", "a@example.com"), 1_000_000, 3_600_000_000).unwrap();
    assert_eq!(sid.0.len(), 43);
    let sid2 = a.update_session("google", profile("sub-1", "b@example.com"), 2_000_000, 3_600_000_000).unwrap();
    assert_ne!(sid, sid2);
    let sid3 = a.update_session("google", profile("sub-2", "c@example.com"), 2_000_000, 0).unwrap();
    assert_ne!(sid2, sid3);
    a.logout(&sid);
    a.logout(&sid);
}

#[test]
fn signed_in_sessions_belong_to_the_upserted_user() {
    let mut sessions = SessionService::new(InMemorySessionRepo::new());
    let mut users = UserService::new(InMemoryUserRepo::new());
    let id = users
        .create_or_update_user(
            &rocy::application::types::Provider("google".into()),
            &rocy::application::types::Sub("s".into()),
            &rocy::application::types::Email("e@x".into()),
        )
        .unwrap();
    assert_eq!(id, UserId(1));
    let sid = rocy::domain::services::session_service::generate_session_id();
    sessions.create_session(&id, &sid, 5).unwrap();
    let mut a = Authentication::new(sessions, users);
    let sid2 = a.update_session("google", profile("s", "new@x"), 0, 10).unwrap();
    assert_ne!(sid, sid2);
}

#[test]
fn session_ids_use_the_url_safe_alphabet_without_padding() {
    let mut a = auth();
    for i in 0..20 {
        let sid = a.update_session("google", profile(&format!("sub-{}", i), "a@example.com"), 0, 10).unwrap();
        assert_eq!(sid.0.len(), 43);
        assert!(sid.0.chars().all(|c| c.is_ascii_alphanumeric() || c == '-' || c == '_'));
    }
}
