//! Checking a username and password against the stored password hash.
//!
//! The check costs the same whether or not the username is known: where no
//! user is stored under the name, the password is verified against a fixed
//! hash that no password matches, and only then refused.

use crate::db::Statement;
use crate::db::StatementView;
use crate::error::AuthError;
use argon2::Argon2;
use argon2::PasswordHash;
use argon2::PasswordVerifier;
use secrecy::ExposeSecret;
use secrecy::Secret;
use vstd::prelude::*;

verus! {

/// A hash in PHC format, made with a password that nobody knows. It stands
/// in for the stored hash where the username is unknown.
pub const DUMMY_PASSWORD_HASH: &'static str = "$argon2id$v=19$m=15000,t=2,p=1$gZiV/M1gPc22ElAH/Jh1Hw$CWOrkoo7oJBQ/iyh7uJ0LO2aLEfrHwTWllSAxT0zRno";

/// A text that must not leak: a password or a password hash. It is held in a
/// `secrecy::Secret<String>`, which wipes it from memory when it goes and
/// keeps it out of debug output. The verifier does not look inside: what
/// the text is has the name [`secret_text`].
#[verifier::external_body]
pub struct SecretText {
    secret: Secret<String>,
}

/// The text that a [`SecretText`] holds.
pub uninterp spec fn secret_text(secret: SecretText) -> Seq<char>;

/// `secrecy::Secret::new` takes ownership of the text and holds it as it is.
#[verifier::external_body]
fn seal(text: String) -> (secret: SecretText)
    ensures
        secret_text(secret) == text@,
{
    SecretText { secret: Secret::new(text) }
}

/// `ExposeSecret::expose_secret` hands out a reference to the text held.
#[verifier::external_body]
fn expose<'a>(secret: &'a SecretText) -> (text: &'a str)
    ensures
        text@ == secret_text(*secret),
{
    secret.secret.expose_secret().as_str()
}

/// Whether the hash function accepts `candidate` for `expected_hash`: the
/// hash parses as a PHC string, and Argon2, run on the candidate with the
/// salt and the cost parameters that the hash names, gives the output that
/// the hash holds.
pub uninterp spec fn argon2_accepts(expected_hash: Seq<char>, candidate: Seq<char>) -> bool;

/// Parses the hash with `PasswordHash::new` and hands it, with the bytes of
/// the candidate, to `PasswordVerifier::verify_password` of
/// `Argon2::default()`, which compares in constant time. That both succeed
/// is what [`argon2_accepts`] names; a hash that does not parse is a
/// refusal like any other. The working memory that a hash asks for is
/// allocated by the call.
#[verifier::external_body]
fn argon2_verify(expected_hash: &str, candidate: &str) -> (accepted: bool)
    ensures
        accepted == argon2_accepts(expected_hash@, candidate@),
{
    match PasswordHash::new(expected_hash) {
        Ok(parsed) => Argon2::default().verify_password(candidate.as_bytes(), &parsed).is_ok(),
        Err(_) => false,
    }
}

impl SecretText {
    /// Seals a text.
    pub fn new(text: String) -> (secret: SecretText)
        ensures
            secret_text(secret) == text@,
    {
        seal(text)
    }

    /// The text, for the one place that needs to read it.
    pub fn expose_secret(&self) -> (text: &str)
        ensures
            text@ == secret_text(*self),
    {
        expose(self)
    }
}

/// A username and password, as presented for one attempt.
pub struct Credentials {
    pub username: String,
    pub password: SecretText,
}

impl Credentials {
    pub fn new(username: String, password: String) -> (credentials: Credentials)
        ensures
            credentials.username@ == username@,
            secret_text(credentials.password) == password@,
    {
        Credentials { username, password: seal(password) }
    }
}

/// The id of a user who has authenticated. One is made where an attempt
/// concludes with success and nowhere else, so that what is reserved to
/// authenticated users can ask for one.
#[derive(Debug)]
pub struct UserId(String);

impl View for UserId {
    type V = Seq<char>;

    closed spec fn view(&self) -> Seq<char> {
        self.0@
    }
}

impl UserId {
    pub fn as_str(&self) -> (text: &str)
        ensures
            text@ == self@,
    {
        self.0.as_str()
    }
}

/// What the store holds of a user.
pub struct StoredCredentials {
    pub user_id: String,
    pub password_hash: SecretText,
}

impl StoredCredentials {
    pub fn new(user_id: String, password_hash: String) -> (stored: StoredCredentials)
        ensures
            stored.user_id@ == user_id@,
            secret_text(stored.password_hash) == password_hash@,
    {
        StoredCredentials { user_id, password_hash: seal(password_hash) }
    }
}

/// The store's answer to the search for a user.
pub enum CredentialLookup {
    Found(StoredCredentials),
    NotFound,
    /// The search itself failed.
    Failed,
}

/// A [`CredentialLookup`] as mathematical values.
pub enum LookupView {
    Found { user_id: Seq<char>, password_hash: Seq<char> },
    NotFound,
    Failed,
}

impl View for CredentialLookup {
    type V = LookupView;

    open spec fn view(&self) -> LookupView {
        match self {
            CredentialLookup::Found(stored) => LookupView::Found {
                user_id: stored.user_id@,
                password_hash: secret_text(stored.password_hash),
            },
            CredentialLookup::NotFound => LookupView::NotFound,
            CredentialLookup::Failed => LookupView::Failed,
        }
    }
}

impl LookupView {
    /// The user that the search found.
    pub open spec fn user_id(self) -> Option<Seq<char>> {
        match self {
            LookupView::Found { user_id, .. } => Some(user_id),
            _ => None,
        }
    }

    /// The hash that the password is verified against: the stored one, the
    /// dummy where no user was found, none where the search failed.
    pub open spec fn hash_to_verify(self) -> Option<Seq<char>> {
        match self {
            LookupView::Found { password_hash, .. } => Some(password_hash),
            LookupView::NotFound => Some(DUMMY_PASSWORD_HASH@),
            LookupView::Failed => None,
        }
    }
}

/// The verifications of a password hash that an attempt makes, each as the
/// hash and the candidate handed to the hash function: one where the
/// search was answered, whatever the answer, and none where it failed.
pub open spec fn verifications_of(lookup: LookupView, candidate: Seq<char>) -> Seq<
    (Seq<char>, Seq<char>),
> {
    match lookup.hash_to_verify() {
        Some(hash) => seq![(hash, candidate)],
        None => Seq::empty(),
    }
}

/// What a verification reports for the answer of the hash function.
pub open spec fn password_verdict(accepted: bool) -> Result<(), AuthError> {
    if accepted {
        Ok(())
    } else {
        Err(AuthError::InvalidCredentials)
    }
}

/// How an attempt ends, given the user found and what the verification
/// reported. Only a known user whose password was accepted gets through;
/// an unknown user is refused whatever the verification said.
pub open spec fn credential_verdict(
    user_id: Option<Seq<char>>,
    verification: Result<(), AuthError>,
) -> Result<Seq<char>, AuthError> {
    match verification {
        Err(error) => Err(error),
        Ok(()) => match user_id {
            Some(id) => Ok(id),
            None => Err(AuthError::InvalidCredentials),
        },
    }
}

/// How an attempt ends, given the store's answer and whether the hash
/// function accepts the password for the hash to verify.
pub open spec fn attempt_verdict(lookup: LookupView, accepted: bool) -> Result<
    Seq<char>,
    AuthError,
> {
    if lookup is Failed {
        Err(AuthError::UnexpectedError)
    } else {
        credential_verdict(lookup.user_id(), password_verdict(accepted))
    }
}

/// Whether an outcome of an attempt, with the user id as text, is `verdict`.
pub open spec fn is_verdict(
    outcome: Result<UserId, AuthError>,
    verdict: Result<Seq<char>, AuthError>,
) -> bool {
    match outcome {
        Ok(user_id) => verdict == Ok::<Seq<char>, AuthError>(user_id@),
        Err(error) => verdict == Err::<Seq<char>, AuthError>(error),
    }
}

/// The statement that searches the user stored under `username`.
pub fn get_stored_credentials(username: &str) -> (statement: Statement)
    ensures
        statement@ == (StatementView::FindCredentials { username: username@ }),
{
    Statement::FindCredentials { username: username.to_owned() }
}

/// Verifies a password against a hash. Every refusal is the same
/// `InvalidCredentials`, a hash that does not parse included.
pub fn verify_password_hash(
    expected_password_hash: &SecretText,
    password_candidate: &SecretText,
) -> (verification: Result<(), AuthError>)
    ensures
        verification == password_verdict(
            argon2_accepts(secret_text(*expected_password_hash), secret_text(*password_candidate)),
        ),
{
    report_verification(argon2_verify(expose(expected_password_hash), expose(password_candidate)))
}

/// Turns the answer of the hash function into the outcome of a
/// verification.
pub fn report_verification(accepted: bool) -> (verification: Result<(), AuthError>)
    ensures
        verification == password_verdict(accepted),
{
    if accepted {
        Ok(())
    } else {
        Err(AuthError::InvalidCredentials)
    }
}

/// One verification of a password hash that is still to be made, with the
/// user that it will let through.
pub struct PendingVerification {
    pub user_id: Option<String>,
    pub expected_password_hash: SecretText,
    pub password_candidate: SecretText,
}

impl PendingVerification {
    pub open spec fn user_id_text(&self) -> Option<Seq<char>> {
        match self.user_id {
            Some(id) => Some(id@),
            None => None,
        }
    }

    /// Makes the verification. It is costly by design: a caller that serves
    /// other requests runs it on a worker of its own.
    pub fn verify(&self) -> (verification: Result<(), AuthError>)
        ensures
            verification == password_verdict(
                argon2_accepts(
                    secret_text(self.expected_password_hash),
                    secret_text(self.password_candidate),
                ),
            ),
    {
        verify_password_hash(&self.expected_password_hash, &self.password_candidate)
    }

    /// Ends the attempt with what the verification reported; a worker that
    /// could not run it reports `UnexpectedError`.
    pub fn conclude(self, verification: Result<(), AuthError>) -> (outcome: Result<
        UserId,
        AuthError,
    >)
        ensures
            is_verdict(outcome, credential_verdict(self.user_id_text(), verification)),
    {
        match verification {
            Err(error) => Err(error),
            Ok(()) => match self.user_id {
                Some(id) => Ok(UserId(id)),
                None => Err(AuthError::InvalidCredentials),
            },
        }
    }
}

/// Plans the one verification that every answered search is followed by:
/// against the stored hash where a user was found, against the dummy hash
/// where none was. Only a search that failed ends the attempt at once.
pub fn plan_verification(credentials: Credentials, lookup: CredentialLookup) -> (planned: Result<
    PendingVerification,
    AuthError,
>)
    ensures
        match planned {
            Ok(pending) => {
                &&& lookup@.hash_to_verify() == Some(secret_text(pending.expected_password_hash))
                &&& pending.user_id_text() == lookup@.user_id()
                &&& secret_text(pending.password_candidate) == secret_text(credentials.password)
                &&& verifications_of(lookup@, secret_text(credentials.password)) == seq![
                    (
                        secret_text(pending.expected_password_hash),
                        secret_text(pending.password_candidate),
                    ),
                ]
            },
            Err(error) => {
                &&& lookup@ is Failed
                &&& error == AuthError::UnexpectedError
                &&& verifications_of(lookup@, secret_text(credentials.password)).len() == 0
            },
        },
{
    match lookup {
        CredentialLookup::Found(stored) => Ok(
            PendingVerification {
                user_id: Some(stored.user_id),
                expected_password_hash: stored.password_hash,
                password_candidate: credentials.password,
            },
        ),
        CredentialLookup::NotFound => Ok(
            PendingVerification {
                user_id: None,
                expected_password_hash: seal(DUMMY_PASSWORD_HASH.to_owned()),
                password_candidate: credentials.password,
            },
        ),
        CredentialLookup::Failed => Err(AuthError::UnexpectedError),
    }
}

/// Checks `credentials` against the store's answer to
/// [`get_stored_credentials`] and gives the id of the user, or a refusal
/// that does not say whether the username or the password was wrong.
pub fn validate_credentials(credentials: Credentials, lookup: CredentialLookup) -> (outcome: Result<
    UserId,
    AuthError,
>)
    ensures
        lookup@ is Failed ==> outcome == Err::<UserId, AuthError>(AuthError::UnexpectedError),
        !(lookup@ is Failed) ==> is_verdict(
            outcome,
            attempt_verdict(
                lookup@,
                argon2_accepts(lookup@.hash_to_verify()->0, secret_text(credentials.password)),
            ),
        ),
{
    match plan_verification(credentials, lookup) {
        Err(error) => Err(error),
        Ok(pending) => {
            let verification = pending.verify();
            pending.conclude(verification)
        },
    }
}

/// An unknown username is handled as a known one with a wrong password:
/// for both exactly one hash is verified, the dummy hash for the unknown
/// one, and both end in the same refusal, whatever the hash function says
/// of the dummy.
pub proof fn lemma_unknown_user_is_verified_and_refused(
    user_id: Seq<char>,
    password_hash: Seq<char>,
    candidate: Seq<char>,
    accepted: bool,
)
    ensures
        verifications_of(LookupView::NotFound, candidate) == seq![(DUMMY_PASSWORD_HASH@, candidate)],
        verifications_of(LookupView::Found { user_id, password_hash }, candidate) == seq![
            (password_hash, candidate),
        ],
        verifications_of(LookupView::NotFound, candidate).len() == 1,
        verifications_of(LookupView::Found { user_id, password_hash }, candidate).len() == 1,
        LookupView::NotFound.hash_to_verify() == Some(DUMMY_PASSWORD_HASH@),
        (LookupView::Found { user_id, password_hash }).hash_to_verify() == Some(password_hash),
        attempt_verdict(LookupView::NotFound, accepted) == Err::<Seq<char>, AuthError>(
            AuthError::InvalidCredentials,
        ),
        attempt_verdict(LookupView::Found { user_id, password_hash }, false) == Err::<
            Seq<char>,
            AuthError,
        >(AuthError::InvalidCredentials),
        attempt_verdict(LookupView::Found { user_id, password_hash }, true) == Ok::<
            Seq<char>,
            AuthError,
        >(user_id),
{
}

} // verus!
