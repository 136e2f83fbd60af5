use maa_auth::error::MaaError;
use maa_auth::model::MaaUser;
use maa_auth::model::RegisterRequest;
use maa_auth::model::SendRegistrationTokenRequest;
use maa_auth::service::UserService;

fn register_request(email: &str) -> RegisterRequest {
    RegisterRequest {
        user_name: String::from("alice"),
        email: String::from(email),
        password: String::from("secret"),
        registration_token: String::from("123456"),
    }
}

/// The store as registration sees it: emails are a unique key.
struct TestStore {
    emails: Vec<String>,
}

impl TestStore {
    fn save(&mut self, user: &MaaUser) -> bool {
        if self.emails.contains(&user.email) {
            return false;
        }
        self.emails.push(user.email.clone());
        true
    }
}

#[test]
fn well_shaped_register_request_is_accepted() {
    let svc = UserService::new(None);
    assert!(matches!(svc.validate_register(&register_request("email@here.com")), Ok(())));
}

#[test]
fn register_with_malformed_email_is_rejected() {
    let svc = UserService::new(None);
    assert!(matches!(
        svc.validate_register(&register_request("no-at-sign")),
        Err(MaaError::Validation)
    ));
}

#[test]
fn register_with_empty_field_is_rejected() {
    let svc = UserService::new(None);
    let mut req = register_request("email@here.com");
    req.user_name = String::new();
    assert!(matches!(svc.validate_register(&req), Err(MaaError::Validation)));
}

#[test]
fn register_with_unissued_token_fails_verification() {
    let svc = UserService::new(None);
    // The mailer has issued no code for this email, so it refuses the token.
    assert!(matches!(svc.check_verification(false), Err(MaaError::VerificationFailed)));
    assert!(matches!(svc.check_verification(true), Ok(())));
}

#[test]
fn a_new_user_starts_enabled_with_no_sessions_and_no_id() {
    let svc = UserService::new(None);
    let user = svc.make_new_user(
        String::from("alice"),
        String::from("a@x.com"),
        String::from("hash-of-secret"),
    );
    assert_eq!(user.user_id, None);
    assert_eq!(user.user_name, String::from("alice"));
    assert_eq!(user.email, String::from("a@x.com"));
    assert_eq!(user.password, String::from("hash-of-secret"));
    assert_eq!(user.status, 1);
    assert!(user.refresh_jwt_ids.is_empty());
}

#[test]
fn second_register_for_the_same_email_fails_with_persistence_error() {
    let svc = UserService::new(None);
    let mut store = TestStore { emails: Vec::new() };

    let first = svc.make_new_user(
        String::from("alice"),
        String::from("a@x.com"),
        String::from("hash-1"),
    );
    let saved = store.save(&first);
    let r1 = svc.complete_register(&first, saved);
    let info = r1.unwrap();
    assert_eq!(info.email, String::from("a@x.com"));
    assert_eq!(info.status, 1);
    assert_eq!(info.user_id, None);

    let second = svc.make_new_user(
        String::from("mallory"),
        String::from("a@x.com"),
        String::from("hash-2"),
    );
    let saved_again = store.save(&second);
    assert!(!saved_again);
    let r2 = svc.complete_register(&second, saved_again);
    assert!(matches!(r2, Err(MaaError::PersistenceError)));
    // The store still holds exactly one record for the email.
    assert_eq!(store.emails.len(), 1);
}

#[test]
fn send_code_for_registered_email_fails_without_delivery() {
    let svc = UserService::new(None);
    let existing = MaaUser {
        user_id: Some(String::from("user-1")),
        user_name: String::from("alice"),
        email: String::from("a@x.com"),
        password: String::from("hash-of-secret"),
        status: 1,
        refresh_jwt_ids: Vec::new(),
    };
    let mut delivered = false;
    let r = svc.check_email_available(&Some(existing));
    assert!(matches!(r, Err(MaaError::RegistrationUserExist)));
    if r.is_ok() {
        delivered = true;
    }
    assert!(!delivered);
}

#[test]
fn send_code_for_unknown_email_reaches_the_mailer() {
    let svc = UserService::new(None);
    let req = SendRegistrationTokenRequest { email: String::from("new@here.com") };
    assert!(matches!(svc.validate_send_registration_token(&req), Ok(())));
    assert!(matches!(svc.check_email_available(&None), Ok(())));
}

#[test]
fn send_code_with_malformed_email_is_rejected() {
    let svc = UserService::new(None);
    let req = SendRegistrationTokenRequest { email: String::from("half@") };
    assert!(matches!(
        svc.validate_send_registration_token(&req),
        Err(MaaError::Validation)
    ));
}

#[test]
fn error_messages_are_stable() {
    assert_eq!(MaaError::LoginFail.message(), "login failed");
    assert_eq!(MaaError::RegistrationUserExist.message(), "email already registered");
}
