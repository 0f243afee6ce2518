//! Settings of a deployment, as far as the rules of the service read them.

use crate::authentication::secret_text;
use crate::authentication::SecretText;
use crate::domain::subscriber_email::is_valid_email;
use crate::domain::SubscriberEmail;
use crate::domain::ValidationError;
use crate::text::push_char;
use crate::text::same_text;
use vstd::prelude::*;
use vstd::string::StringExecFns;

verus! {

/// The character of a decimal digit.
pub open spec fn digit_char(digit: nat) -> char {
    ((48 + digit) as u8) as char
}

/// A number written in decimal, without leading zeros.
pub open spec fn decimal(n: nat) -> Seq<char>
    decreases n,
{
    if n < 10 {
        seq![digit_char(n)]
    } else {
        decimal(n / 10).push(digit_char(n % 10))
    }
}

/// The address `host:port` of a socket.
pub open spec fn socket_address(host: Seq<char>, port: u16) -> Seq<char> {
    host + ":"@ + decimal(port as nat)
}

fn push_decimal(text: &mut String, n: u16)
    ensures
        final(text)@ == old(text)@ + decimal(n as nat),
    decreases n,
{
    if n >= 10 {
        push_decimal(text, n / 10);
    }
    let digit: u8 = (n % 10) as u8;
    push_char(text, (48 + digit) as char);
    assert(text@ =~= old(text)@ + decimal(n as nat));
}

/// Writes out the address `host:port`.
pub fn address_of(host: &str, port: u16) -> (address: String)
    ensures
        address@ == socket_address(host@, port),
{
    let mut address = host.to_owned();
    address.append(":");
    push_decimal(&mut address, port);
    address
}

/// Where the application listens, and the address under which clients
/// reach it.
#[derive(Debug, Clone)]
pub struct ApplicationSettings {
    pub host: String,
    pub port: u16,
    pub base_url: String,
}

impl ApplicationSettings {
    /// The address to listen on.
    pub fn address(&self) -> (address: String)
        ensures
            address@ == socket_address(self.host@, self.port),
    {
        address_of(self.host.as_str(), self.port)
    }
}

/// How the store is reached.
pub struct DatabaseSettings {
    pub username: String,
    pub password: SecretText,
    pub host: String,
    pub port: u16,
    pub database_name: String,
    pub require_ssl: bool,
}

impl DatabaseSettings {
    /// The address of the store, kept as a secret.
    pub fn connection_string(&self) -> (address: SecretText)
        ensures
            secret_text(address) == socket_address(self.host@, self.port),
    {
        SecretText::new(address_of(self.host.as_str(), self.port))
    }

    /// The same address: the database is chosen after connecting.
    pub fn connection_string_without_db(&self) -> (address: SecretText)
        ensures
            secret_text(address) == socket_address(self.host@, self.port),
    {
        self.connection_string()
    }
}

/// How the email service is reached.
pub struct EmailClientSettings {
    pub base_url: String,
    pub sender_email: String,
    pub authorization_token: SecretText,
    pub timeout_milliseconds: u64,
}

impl EmailClientSettings {
    /// The address that messages are sent from, if the one configured is
    /// valid.
    pub fn sender(&self) -> (sender: Result<SubscriberEmail, ValidationError>)
        ensures
            match sender {
                Ok(email) => is_valid_email(self.sender_email@) && email@ == self.sender_email@,
                Err(fault) => !is_valid_email(self.sender_email@) && fault
                    == ValidationError::InvalidEmail,
            },
    {
        SubscriberEmail::parse(self.sender_email.clone())
    }
}

/// The environment a deployment runs in.
#[derive(Debug, Clone, Copy, PartialEq, Eq, Structural)]
pub enum Environment {
    Local,
    Production,
}

/// A text with every character replaced by its lower case, as Unicode
/// defines it.
pub uninterp spec fn lowercase_of(s: Seq<char>) -> Seq<char>;

/// `str::to_lowercase` gives the lower-case equivalent of a string slice
/// as a new `String`.
#[verifier::external_body]
fn to_lowercase(s: &str) -> (lowered: String)
    ensures
        lowered@ == lowercase_of(s@),
{
    s.to_lowercase()
}

/// What is told of a name that is no environment.
pub open spec fn unsupported_environment(name: Seq<char>) -> Seq<char> {
    "Unsupported environment: "@ + name + ". Use either 'local' or 'production'."@
}

/// The environment that a name in lower case stands for.
pub open spec fn environment_named(name: Seq<char>) -> Result<Environment, Seq<char>> {
    if name == "local"@ {
        Ok(Environment::Local)
    } else if name == "production"@ {
        Ok(Environment::Production)
    } else {
        Err(unsupported_environment(name))
    }
}

/// Whether `parsed` is the environment, or holds the message, that
/// `expected` says.
pub open spec fn is_environment(
    parsed: Result<Environment, String>,
    expected: Result<Environment, Seq<char>>,
) -> bool {
    match parsed {
        Ok(environment) => expected == Ok::<Environment, Seq<char>>(environment),
        Err(message) => expected == Err::<Environment, Seq<char>>(message@),
    }
}

impl Environment {
    /// The name of the environment as it appears in the names of
    /// configuration files.
    pub open spec fn name(self) -> Seq<char> {
        match self {
            Environment::Local => "local"@,
            Environment::Production => "production"@,
        }
    }

    pub fn as_str(&self) -> (name: &'static str)
        ensures
            name@ == self.name(),
    {
        match self {
            Environment::Local => "local",
            Environment::Production => "production",
        }
    }

    /// The environment with the name given, which is taken as it stands.
    pub fn from_name(name: &str) -> (parsed: Result<Environment, String>)
        ensures
            is_environment(parsed, environment_named(name@)),
    {
        if same_text(name, "local") {
            Ok(Environment::Local)
        } else if same_text(name, "production") {
            Ok(Environment::Production)
        } else {
            let mut message = "Unsupported environment: ".to_owned();
            message.append(name);
            message.append(". Use either 'local' or 'production'.");
            Err(message)
        }
    }

    /// The environment that `s` names, whatever the case of its letters.
    pub fn try_from(s: String) -> (parsed: Result<Environment, String>)
        ensures
            is_environment(parsed, environment_named(lowercase_of(s@))),
    {
        let lowered = to_lowercase(s.as_str());
        Environment::from_name(lowered.as_str())
    }
}

/// Each environment is found again by its own name.
pub proof fn lemma_environment_names_are_told_apart()
    ensures
        environment_named(Environment::Local.name()) == Ok::<Environment, Seq<char>>(
            Environment::Local,
        ),
        environment_named(Environment::Production.name()) == Ok::<Environment, Seq<char>>(
            Environment::Production,
        ),
{
    reveal_strlit("local");
    reveal_strlit("production");
    assert("local"@.len() != "production"@.len());
}

} // verus!
