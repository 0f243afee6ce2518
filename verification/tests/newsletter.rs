use argon2::password_hash::PasswordHasher;
use argon2::password_hash::SaltString;
use argon2::Algorithm;
use argon2::Argon2;
use argon2::Params;
use argon2::Version;
use zero2axum::authentication::validate_credentials;
use zero2axum::authentication::SecretText;
use zero2axum::domain::SubscriberEmail;
use zero2axum::email_client::EmailClient;
use zero2axum::email_client::AUTHORIZATION_HEADER;
use zero2axum::authentication::CredentialLookup;
use zero2axum::authentication::Credentials;
use zero2axum::authentication::StoredCredentials;
use zero2axum::authentication::UserId;
use zero2axum::db::Reply;
use zero2axum::db::Statement;
use zero2axum::db::SubscriptionStatus;
use zero2axum::domain::ValidationError;
use zero2axum::email_client::email_endpoint;
use zero2axum::email_client::OutboundEmail;
use zero2axum::error::PublishError;
use zero2axum::routes::newsletters::after_delivery;
use zero2axum::routes::newsletters::basic_authentication;
use zero2axum::routes::newsletters::confirmed_subscribers_query;
use zero2axum::routes::newsletters::credentials_from_bytes;
use zero2axum::routes::newsletters::credentials_from_text;
use zero2axum::routes::newsletters::get_confirmed_subscribers;
use zero2axum::routes::newsletters::publish_newsletter;
use zero2axum::routes::newsletters::AuthorizationHeader;
use zero2axum::routes::newsletters::BasicAuthError;
use zero2axum::routes::newsletters::BodyData;
use zero2axum::routes::newsletters::Content;
use zero2axum::routes::newsletters::StoredSubscriber;

// A user who has authenticated: the password is checked against a hash made
// with little memory, so that the tests are quick.
fn authenticated_user() -> UserId {
    let salt = SaltString::from_b64("gZiV/M1gPc22ElAH/Jh1Hw").unwrap();
    let hasher = Argon2::new(
        Algorithm::Argon2id,
        Version::V0x13,
        Params::new(8, 1, 1, None).unwrap(),
    );
    let hash = hasher.hash_password(b"everythinghastostartsomewhere", &salt).unwrap().to_string();
    validate_credentials(
        Credentials::new("admin".to_string(), "everythinghastostartsomewhere".to_string()),
        CredentialLookup::Found(StoredCredentials::new("users:admin".to_string(), hash)),
    )
    .ok()
    .unwrap()
}

fn issue() -> BodyData {
    BodyData {
        title: "Newsletter title".to_string(),
        content: Content {
            text: "Newsletter content as plain text".to_string(),
            html: "<p>Newsletter content as HTML</p>".to_string(),
        },
    }
}

fn row(email: &str, status: &str) -> StoredSubscriber {
    StoredSubscriber { email: email.to_string(), status: status.to_string() }
}

fn header(value: &str) -> AuthorizationHeader {
    AuthorizationHeader::Text(value.to_string())
}

fn error_of(value: &str) -> Option<BasicAuthError> {
    basic_authentication(header(value)).err()
}

// What the publish endpoint answers to a request with this header, when no
// user is stored: the status and the `WWW-Authenticate` header.
fn publish_response(authorization: AuthorizationHeader) -> (u16, Option<&'static str>) {
    let credentials = match basic_authentication(authorization) {
        Ok(credentials) => credentials,
        Err(error) => {
            let error = error.into_publish_error();
            return (error.status_code(), error.www_authenticate());
        }
    };
    match validate_credentials(credentials, CredentialLookup::NotFound) {
        Ok(_) => (200, None),
        Err(error) => {
            let error = PublishError::from_auth_error(error);
            (error.status_code(), error.www_authenticate())
        }
    }
}

fn deliveries_for(rows: Vec<StoredSubscriber>) -> Vec<OutboundEmail> {
    let subscribers = get_confirmed_subscribers(&rows);
    publish_newsletter(&authenticated_user(), &issue(), &subscribers)
}

#[test]
fn requests_missing_authorization_are_rejected() {
    let (status, challenge) = publish_response(AuthorizationHeader::Missing);
    assert_eq!(401, status);
    assert_eq!(Some(r#"Basic realm="publish""#), challenge);
}

#[test]
fn requests_of_an_unknown_user_are_rejected() {
    let (status, challenge) = publish_response(header("Basic dXNlcjpwYTpzcw=="));
    assert_eq!(401, status);
    assert_eq!(Some("Basic realm=\"publish\""), challenge);
}

#[test]
fn newsletters_are_not_delivered_to_uncomfirmed_subscribers() {
    let deliveries = deliveries_for(vec![row("ursula_le_guin@gmail.com", "pending_confirmation")]);
    assert_eq!(deliveries.len(), 0);
}

#[test]
fn newsletters_are_delivered_to_confirmed_subscribers() {
    let deliveries = deliveries_for(vec![row("ursula_le_guin@gmail.com", "confirmed")]);
    assert_eq!(deliveries.len(), 1);
    let email = &deliveries[0];
    assert_eq!(email.recipient.as_ref(), "ursula_le_guin@gmail.com");
    assert_eq!(email.subject, "Newsletter title");
    assert_eq!(email.text_content, "Newsletter content as plain text");
    assert_eq!(email.html_content, "<p>Newsletter content as HTML</p>");
}

#[test]
fn only_the_confirmed_among_many_receive_the_issue() {
    let deliveries = deliveries_for(vec![
        row("a@example.com", "confirmed"),
        row("b@example.com", "pending_confirmation"),
        row("not-an-address", "confirmed"),
        row("c@example.com", "Confirmed"),
        row("d@example.com", ""),
        row("e@example.com", "confirmed"),
        row("b@example.com", "pending_confirmation"),
    ]);
    let recipients: Vec<&str> = deliveries.iter().map(|email| email.recipient.as_ref()).collect();
    assert_eq!(recipients, vec!["a@example.com", "e@example.com"]);
}

#[test]
fn a_confirmed_subscriber_with_an_invalid_address_is_reported_and_skipped() {
    let rows = vec![
        row("not-an-address", "confirmed"),
        row("a@example.com", "confirmed"),
        row("b@example.com", "pending_confirmation"),
    ];
    let subscribers = get_confirmed_subscribers(&rows);
    assert_eq!(subscribers.len(), 2);
    assert_eq!(subscribers[0].as_ref().err(), Some(&ValidationError::InvalidEmail));
    assert_eq!(subscribers[1].as_ref().ok().unwrap().email.as_ref(), "a@example.com");
    assert_eq!(publish_newsletter(&authenticated_user(), &issue(), &subscribers).len(), 1);
}

#[test]
fn no_subscribers_no_deliveries() {
    assert!(deliveries_for(Vec::new()).is_empty());
}

#[test]
fn the_subscribers_asked_for_are_the_confirmed_ones() {
    let statement = confirmed_subscribers_query();
    assert!(matches!(
        statement,
        Statement::ListSubscribers { status: SubscriptionStatus::Confirmed }
    ));
    let bindings = statement.bindings();
    assert_eq!(bindings.len(), 1);
    assert_eq!(bindings[0].name, "status");
    assert_eq!(bindings[0].value, "confirmed");
}

#[test]
fn a_refused_delivery_ends_publishing_as_a_failure() {
    assert_eq!(after_delivery(Reply::Accepted), Ok(()));
    assert_eq!(after_delivery(Reply::Rejected), Err(PublishError::UnexpectedError));
    assert_eq!(PublishError::UnexpectedError.status_code(), 500);
    assert_eq!(PublishError::UnexpectedError.www_authenticate(), None);
}

#[test]
fn basic_credentials_are_read_from_the_header() {
    let credentials = basic_authentication(header("Basic dXNlcjpwYTpzcw==")).ok().unwrap();
    assert_eq!(credentials.username, "user");
    assert_eq!(credentials.password.expose_secret(), "pa:ss");
}

#[test]
fn credentials_may_hold_characters_beyond_ascii() {
    let credentials = basic_authentication(header("Basic dXJzdWxhOnDDpHNz")).ok().unwrap();
    assert_eq!(credentials.username, "ursula");
    assert_eq!(credentials.password.expose_secret(), "päss");
}

#[test]
fn an_empty_password_and_an_empty_username_are_read_as_such() {
    let no_password = basic_authentication(header("Basic YWRtaW46")).ok().unwrap();
    assert_eq!(no_password.username, "admin");
    assert_eq!(no_password.password.expose_secret(), "");
    let no_username = basic_authentication(header("Basic OnB3")).ok().unwrap();
    assert_eq!(no_username.username, "");
    assert_eq!(no_username.password.expose_secret(), "pw");
}

#[test]
fn each_way_to_fail_basic_authentication_has_its_error() {
    assert_eq!(
        basic_authentication(AuthorizationHeader::Missing).err(),
        Some(BasicAuthError::MissingHeader)
    );
    assert_eq!(
        basic_authentication(AuthorizationHeader::NotText).err(),
        Some(BasicAuthError::HeaderNotText)
    );
    assert_eq!(error_of("Bearer dXNlcjpwYTpzcw=="), Some(BasicAuthError::NotBasic));
    assert_eq!(error_of("basic dXNlcjpwYTpzcw=="), Some(BasicAuthError::NotBasic));
    assert_eq!(error_of("Basic"), Some(BasicAuthError::NotBasic));
    assert_eq!(error_of(""), Some(BasicAuthError::NotBasic));
    assert_eq!(error_of("Basic dXNlcjpwYTpzcw"), Some(BasicAuthError::NotBase64));
    assert_eq!(error_of("Basic user:pass"), Some(BasicAuthError::NotBase64));
    assert_eq!(error_of("Basic  dXNlcjpwYTpzcw=="), Some(BasicAuthError::NotBase64));
    assert_eq!(error_of("Basic //4="), Some(BasicAuthError::NotUtf8));
    assert_eq!(error_of("Basic bm9jb2xvbg=="), Some(BasicAuthError::MissingPassword));
    assert_eq!(error_of("Basic "), Some(BasicAuthError::MissingPassword));
}

#[test]
fn every_basic_authentication_error_is_a_401_to_the_client() {
    for error in [
        BasicAuthError::MissingHeader,
        BasicAuthError::HeaderNotText,
        BasicAuthError::NotBasic,
        BasicAuthError::NotBase64,
        BasicAuthError::NotUtf8,
        BasicAuthError::MissingPassword,
    ] {
        assert!(!error.message().is_empty());
        let published = error.into_publish_error();
        assert_eq!(published, PublishError::AuthError);
        assert_eq!(published.status_code(), 401);
        assert_eq!(published.message(), "Authentication failed.");
    }
    assert_eq!(BasicAuthError::MissingHeader.message(), "Missing authorization header");
    assert_eq!(
        BasicAuthError::MissingPassword.message(),
        "A password must be provided in 'Basic' auth."
    );
}

#[test]
fn decoded_credentials_are_split_at_the_first_colon() {
    let credentials = credentials_from_text("a:b:c").ok().unwrap();
    assert_eq!(credentials.username, "a");
    assert_eq!(credentials.password.expose_secret(), "b:c");
    assert_eq!(credentials_from_text("abc").err(), Some(BasicAuthError::MissingPassword));
    assert_eq!(credentials_from_text("").err(), Some(BasicAuthError::MissingPassword));

    let from_bytes = credentials_from_bytes(b"user:pw".to_vec()).ok().unwrap();
    assert_eq!(from_bytes.username, "user");
    assert_eq!(from_bytes.password.expose_secret(), "pw");
    assert_eq!(
        credentials_from_bytes(vec![b'a', b':', 0xc3]).err(),
        Some(BasicAuthError::NotUtf8)
    );
}

#[test]
fn messages_go_to_the_email_endpoint() {
    assert_eq!(email_endpoint("https://api.postmarkapp.com"), "https://api.postmarkapp.com/email");
}

#[test]
fn a_delivery_request_names_sender_and_recipient() {
    let client = EmailClient::new(
        "https://api.postmarkapp.com".to_string(),
        SubscriberEmail::parse("newsletter@example.com".to_string()).unwrap(),
        SecretText::new("token".to_string()),
    );
    assert_eq!(client.endpoint(), "https://api.postmarkapp.com/email");
    assert_eq!(client.authorization_token.expose_secret(), "token");
    assert_eq!(AUTHORIZATION_HEADER, "X-Postmark-Server-Token");
    let deliveries = deliveries_for(vec![row("ursula_le_guin@gmail.com", "confirmed")]);
    let request = client.send_email(&deliveries[0]);
    assert_eq!(request.from, "newsletter@example.com");
    assert_eq!(request.to, "ursula_le_guin@gmail.com");
    assert_eq!(request.subject, "Newsletter title");
    assert_eq!(request.html_content, "<p>Newsletter content as HTML</p>");
    assert_eq!(request.text_content, "Newsletter content as plain text");
}
