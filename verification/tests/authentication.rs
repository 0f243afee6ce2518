use argon2::password_hash::PasswordHasher;
use argon2::password_hash::SaltString;
use argon2::Algorithm;
use argon2::Argon2;
use argon2::Params;
use argon2::Version;
use zero2axum::authentication::plan_verification;
use zero2axum::authentication::report_verification;
use zero2axum::authentication::get_stored_credentials;
use zero2axum::authentication::validate_credentials;
use zero2axum::authentication::verify_password_hash;
use zero2axum::authentication::CredentialLookup;
use zero2axum::authentication::Credentials;
use zero2axum::authentication::SecretText;
use zero2axum::authentication::StoredCredentials;
use zero2axum::authentication::UserId;
use zero2axum::authentication::DUMMY_PASSWORD_HASH;
use zero2axum::db::Statement;
use zero2axum::error::AuthError;

// A hash of `password` in PHC format, made with little memory so that the
// tests are quick. Verification reads the parameters from the hash.
fn hash_of(password: &str) -> String {
    let salt = SaltString::from_b64("gZiV/M1gPc22ElAH/Jh1Hw").unwrap();
    let hasher = Argon2::new(
        Algorithm::Argon2id,
        Version::V0x13,
        Params::new(8, 1, 1, None).unwrap(),
    );
    hasher.hash_password(password.as_bytes(), &salt).unwrap().to_string()
}

fn credentials(username: &str, password: &str) -> Credentials {
    Credentials::new(username.to_string(), password.to_string())
}

fn user_of(outcome: Result<UserId, AuthError>) -> Result<String, AuthError> {
    outcome.map(|user_id| user_id.as_str().to_string())
}

fn found(user_id: &str, password: &str) -> CredentialLookup {
    CredentialLookup::Found(StoredCredentials::new(user_id.to_string(), hash_of(password)))
}

#[test]
fn the_right_password_gives_the_user_id() {
    let outcome = validate_credentials(
        credentials("real-user", "correct horse"),
        found("users:42", "correct horse"),
    );
    assert_eq!(user_of(outcome), Ok("users:42".to_string()));
}

#[test]
fn a_wrong_password_is_refused() {
    let outcome = validate_credentials(
        credentials("real-user", "wrong-password"),
        found("users:42", "correct horse"),
    );
    assert_eq!(user_of(outcome), Err(AuthError::InvalidCredentials));
}

#[test]
fn an_unknown_user_is_refused_like_a_wrong_password() {
    let unknown = user_of(validate_credentials(
        credentials("nonexistent-user", "anything"),
        CredentialLookup::NotFound,
    ));
    let wrong = user_of(validate_credentials(
        credentials("real-user", "wrong-password"),
        found("users:42", "correct horse"),
    ));
    assert_eq!(unknown, Err(AuthError::InvalidCredentials));
    assert_eq!(unknown, wrong);
}

#[test]
fn an_unknown_user_and_a_known_one_both_have_one_hash_to_verify() {
    let unknown =
        plan_verification(credentials("nonexistent-user", "anything"), CredentialLookup::NotFound)
            .ok()
            .unwrap();
    assert_eq!(unknown.user_id, None);
    assert_eq!(unknown.expected_password_hash.expose_secret(), DUMMY_PASSWORD_HASH);
    assert_eq!(unknown.password_candidate.expose_secret(), "anything");
    assert_eq!(unknown.verify(), Err(AuthError::InvalidCredentials));

    let stored_hash = hash_of("correct horse");
    let known = plan_verification(
        credentials("real-user", "wrong-password"),
        CredentialLookup::Found(StoredCredentials::new("users:42".to_string(), stored_hash.clone())),
    )
    .ok()
    .unwrap();
    assert_eq!(known.user_id, Some("users:42".to_string()));
    assert_eq!(known.expected_password_hash.expose_secret(), stored_hash);
    assert_eq!(known.password_candidate.expose_secret(), "wrong-password");
    assert_eq!(known.verify(), Err(AuthError::InvalidCredentials));
}

#[test]
fn the_dummy_hash_is_a_hash_that_parses() {
    assert!(argon2::PasswordHash::new(DUMMY_PASSWORD_HASH).is_ok());
    assert_eq!(
        DUMMY_PASSWORD_HASH,
        "$argon2id$v=19$m=15000,t=2,p=1$gZiV/M1gPc22ElAH/Jh1Hw$CWOrkoo7oJBQ/iyh7uJ0LO2aLEfrHwTWllSAxT0zRno"
    );
}

#[test]
fn a_failed_search_is_an_unexpected_error() {
    let outcome = validate_credentials(credentials("real-user", "pw"), CredentialLookup::Failed);
    assert_eq!(user_of(outcome), Err(AuthError::UnexpectedError));
    assert!(plan_verification(credentials("real-user", "pw"), CredentialLookup::Failed).is_err());
}

#[test]
fn a_stored_hash_that_does_not_parse_is_a_refusal() {
    let outcome = validate_credentials(
        credentials("real-user", "pw"),
        CredentialLookup::Found(StoredCredentials::new(
            "users:42".to_string(),
            "not-a-phc-string".to_string(),
        )),
    );
    assert_eq!(user_of(outcome), Err(AuthError::InvalidCredentials));
}

#[test]
fn verification_compares_password_and_hash() {
    let hash = SecretText::new(hash_of("pw-one"));
    assert_eq!(verify_password_hash(&hash, &SecretText::new("pw-one".to_string())), Ok(()));
    assert_eq!(
        verify_password_hash(&hash, &SecretText::new("pw-two".to_string())),
        Err(AuthError::InvalidCredentials)
    );
    // The hash is the first argument and the password the second.
    assert_eq!(
        verify_password_hash(&SecretText::new("pw-one".to_string()), &hash),
        Err(AuthError::InvalidCredentials)
    );
    assert_eq!(report_verification(true), Ok(()));
    assert_eq!(report_verification(false), Err(AuthError::InvalidCredentials));
}

#[test]
fn a_worker_that_failed_ends_the_attempt_as_unexpected() {
    let pending = plan_verification(credentials("real-user", "pw"), found("users:42", "pw"))
        .ok()
        .unwrap();
    assert_eq!(
        user_of(pending.conclude(Err(AuthError::UnexpectedError))),
        Err(AuthError::UnexpectedError)
    );
    let unknown = plan_verification(credentials("nobody", "pw"), CredentialLookup::NotFound)
        .ok()
        .unwrap();
    // Even if the hash function accepted, an unknown user does not get through.
    assert_eq!(user_of(unknown.conclude(Ok(()))), Err(AuthError::InvalidCredentials));
    let known = plan_verification(credentials("real-user", "pw"), found("users:42", "pw"))
        .ok()
        .unwrap();
    assert_eq!(user_of(known.conclude(Ok(()))), Ok("users:42".to_string()));
}

#[test]
fn a_secret_holds_the_text_it_was_given() {
    let secret = SecretText::new("hunter2".to_string());
    assert_eq!(secret.expose_secret(), "hunter2");
}

#[test]
fn the_search_binds_the_username() {
    let statement = get_stored_credentials("ro'; DROP TABLE users; --");
    assert_eq!(
        statement.text(),
        "SELECT id, password_hash FROM users WHERE username = $username;"
    );
    let bindings = statement.bindings();
    assert_eq!(bindings.len(), 1);
    assert_eq!(bindings[0].name, "username");
    assert_eq!(bindings[0].value, "ro'; DROP TABLE users; --");
    assert!(matches!(statement, Statement::FindCredentials { .. }));
}
