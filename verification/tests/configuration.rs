use zero2axum::authentication::SecretText;
use zero2axum::configuration::address_of;
use zero2axum::configuration::ApplicationSettings;
use zero2axum::configuration::DatabaseSettings;
use zero2axum::configuration::EmailClientSettings;
use zero2axum::configuration::Environment;
use zero2axum::domain::ValidationError;
use zero2axum::routes::hello::handler_hello;
use zero2axum::routes::hello::HelloParams;
use zero2axum::startup::ApplicationBaseUrl;

fn email_settings(sender_email: &str) -> EmailClientSettings {
    EmailClientSettings {
        base_url: "https://api.postmarkapp.com".to_string(),
        sender_email: sender_email.to_string(),
        authorization_token: SecretText::new("my-secret-token".to_string()),
        timeout_milliseconds: 10_000,
    }
}

#[test]
fn environment_names_match_configuration_files() {
    assert_eq!(Environment::Local.as_str(), "local");
    assert_eq!(Environment::Production.as_str(), "production");
}

#[test]
fn environments_are_parsed_whatever_the_case() {
    assert_eq!(Environment::try_from("local".to_string()), Ok(Environment::Local));
    assert_eq!(Environment::try_from("LOCAL".to_string()), Ok(Environment::Local));
    assert_eq!(Environment::try_from("Production".to_string()), Ok(Environment::Production));
    assert_eq!(Environment::try_from("pRoDuCtIoN".to_string()), Ok(Environment::Production));
}

#[test]
fn an_unsupported_environment_is_named_in_lower_case() {
    assert_eq!(
        Environment::try_from("Staging".to_string()),
        Err("Unsupported environment: staging. Use either 'local' or 'production'.".to_string())
    );
    assert_eq!(
        Environment::try_from("".to_string()),
        Err("Unsupported environment: . Use either 'local' or 'production'.".to_string())
    );
}

#[test]
fn a_name_is_taken_as_it_stands() {
    assert_eq!(Environment::from_name("local"), Ok(Environment::Local));
    assert_eq!(Environment::from_name("production"), Ok(Environment::Production));
    assert_eq!(
        Environment::from_name("LOCAL"),
        Err("Unsupported environment: LOCAL. Use either 'local' or 'production'.".to_string())
    );
}

#[test]
fn the_sender_must_be_a_valid_address() {
    let sender = email_settings("newsletter@example.com").sender().unwrap();
    assert_eq!(sender.as_ref(), "newsletter@example.com");
    assert_eq!(email_settings("newsletter").sender().err(), Some(ValidationError::InvalidEmail));
    assert_eq!(email_settings("a@b").authorization_token.expose_secret(), "my-secret-token");
}

#[test]
fn application_settings_hold_what_they_were_given() {
    let settings = ApplicationSettings {
        host: "127.0.0.1".to_string(),
        port: 8000,
        base_url: "http://127.0.0.1".to_string(),
    };
    let base_url = ApplicationBaseUrl(settings.base_url.clone());
    assert_eq!(base_url.0, "http://127.0.0.1");
    assert_eq!(settings.clone().port, 8000);
}

#[test]
fn a_visitor_is_greeted_by_name() {
    let named = HelloParams { name: Some("Harvey".to_string()) };
    assert_eq!(handler_hello(&named), "Hello <strong>Harvey</strong>");
    let unnamed = HelloParams { name: None };
    assert_eq!(handler_hello(&unnamed), "Hello <strong>Frank</strong>");
}

#[test]
fn an_address_is_host_colon_port() {
    assert_eq!(address_of("127.0.0.1", 8000), "127.0.0.1:8000");
    assert_eq!(address_of("localhost", 0), "localhost:0");
    assert_eq!(address_of("localhost", 7), "localhost:7");
    assert_eq!(address_of("localhost", 10), "localhost:10");
    assert_eq!(address_of("", 65535), ":65535");
    for port in [1u16, 9, 99, 100, 101, 999, 1000, 4242, 9999, 10000, 54321, 65534] {
        assert_eq!(address_of("h", port), format!("h:{}", port));
    }
}

#[test]
fn settings_give_their_addresses() {
    let application = ApplicationSettings {
        host: "0.0.0.0".to_string(),
        port: 8080,
        base_url: "https://example.com".to_string(),
    };
    assert_eq!(application.address(), "0.0.0.0:8080");
    let database = DatabaseSettings {
        username: "root".to_string(),
        password: SecretText::new("root".to_string()),
        host: "localhost".to_string(),
        port: 8000,
        database_name: "newsletter".to_string(),
        require_ssl: false,
    };
    assert_eq!(database.connection_string().expose_secret(), "localhost:8000");
    assert_eq!(database.connection_string_without_db().expose_secret(), "localhost:8000");
}
