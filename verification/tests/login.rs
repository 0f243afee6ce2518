use argon2::password_hash::PasswordHasher;
use argon2::password_hash::SaltString;
use argon2::Algorithm;
use argon2::Argon2;
use argon2::Params;
use argon2::Version;
use zero2axum::authentication::validate_credentials;
use zero2axum::authentication::CredentialLookup;
use zero2axum::authentication::Credentials;
use zero2axum::authentication::StoredCredentials;
use zero2axum::authentication::UserId;
use zero2axum::error::AuthError;
use zero2axum::error::LoginError;
use zero2axum::routes::login::error_html;
use zero2axum::routes::login::login;
use zero2axum::routes::login::login_form;
use zero2axum::routes::login::LoginRedirect;

// A user who has authenticated: the password is checked against a hash made
// with little memory, so that the tests are quick.
fn authenticated_user() -> UserId {
    let salt = SaltString::from_b64("gZiV/M1gPc22ElAH/Jh1Hw").unwrap();
    let hasher = Argon2::new(
        Algorithm::Argon2id,
        Version::V0x13,
        Params::new(8, 1, 1, None).unwrap(),
    );
    let hash = hasher.hash_password(b"everythinghastostartsomewhere", &salt).unwrap().to_string();
    validate_credentials(
        Credentials::new("admin".to_string(), "everythinghastostartsomewhere".to_string()),
        CredentialLookup::Found(StoredCredentials::new("users:admin".to_string(), hash)),
    )
    .ok()
    .unwrap()
}

#[test]
fn an_error_flash_message_is_set_on_failure() {
    // Invalid credentials lead back to the login form...
    let refused = validate_credentials(
        Credentials::new("random-username".to_string(), "random-password".to_string()),
        CredentialLookup::NotFound,
    );
    assert_eq!(refused.as_ref().err(), Some(&AuthError::InvalidCredentials));
    let redirect = login(refused).unwrap();
    assert_eq!(redirect.status, 303);
    assert_eq!(redirect.location, "/login");

    // ...where the flash message is shown.
    let flash = redirect.flash.unwrap();
    let html = error_html(Some(flash.message()));
    assert_eq!(html, r#"<p class="error"><i>Authentication failed.</i></p>"#);
    let page = login_form(Some(flash.message()));
    assert!(page.contains(r#"<p class="error"><i>Authentication failed.</i></p>"#));

    // Once shown, the message is gone.
    let reloaded = login_form(None);
    assert!(!reloaded.contains("Authentication failed"));
    assert!(reloaded.contains(r#"<form class="form" action="/login" method="post">"#));
}

#[test]
fn a_login_that_succeeds_leads_home() {
    let redirect = login(Ok(authenticated_user())).unwrap();
    assert_eq!(redirect, LoginRedirect { status: 303, location: "/", flash: None });
}

#[test]
fn an_unexpected_failure_is_no_redirect() {
    assert_eq!(login(Err(AuthError::UnexpectedError)), Err(LoginError::UnexpectedError));
}

#[test]
fn without_a_flash_message_the_form_shows_no_error() {
    assert_eq!(error_html(None), "");
}

#[test]
fn login_errors_are_told_apart_from_authentication_errors() {
    assert_eq!(LoginError::from_auth_error(AuthError::InvalidCredentials), LoginError::AuthError);
    assert_eq!(
        LoginError::from_auth_error(AuthError::UnexpectedError),
        LoginError::UnexpectedError
    );
    assert_eq!(LoginError::AuthError.message(), "Authentication failed.");
    assert_eq!(LoginError::UnexpectedError.message(), "Something went wrong.");
}
