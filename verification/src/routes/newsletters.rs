//! Publishing a newsletter: who may publish, and who receives it.
//!
//! Only a request with valid Basic credentials publishes, and only
//! subscribers who have confirmed receive the issue.

use crate::authentication::secret_text;
use crate::authentication::Credentials;
use crate::authentication::UserId;
use crate::db::Reply;
use crate::db::Statement;
use crate::db::StatementView;
use crate::db::SubscriptionStatus;
use crate::domain::subscriber_email::is_valid_email;
use crate::domain::SubscriberEmail;
use crate::domain::ValidationError;
use crate::email_client::EmailView;
use crate::email_client::OutboundEmail;
use crate::error::PublishError;
use crate::text::chars_of;
use crate::text::same_text;
use crate::text::string_of;
use base64::Engine;
use vstd::prelude::*;
use vstd::utf8::decode_utf8;
use vstd::utf8::valid_utf8;

verus! {

/// An issue of the newsletter.
#[derive(Debug)]
pub struct BodyData {
    pub title: String,
    pub content: Content,
}

/// The two renderings of an issue.
#[derive(Debug)]
pub struct Content {
    pub text: String,
    pub html: String,
}

/// The `Authorization` header of a request, as far as it can be read.
#[derive(Debug)]
pub enum AuthorizationHeader {
    /// The request has no such header.
    Missing,
    /// The header's value is not text.
    NotText,
    Text(String),
}

/// An [`AuthorizationHeader`] as mathematical values.
pub enum HeaderView {
    Missing,
    NotText,
    Text(Seq<char>),
}

impl View for AuthorizationHeader {
    type V = HeaderView;

    open spec fn view(&self) -> HeaderView {
        match self {
            AuthorizationHeader::Missing => HeaderView::Missing,
            AuthorizationHeader::NotText => HeaderView::NotText,
            AuthorizationHeader::Text(value) => HeaderView::Text(value@),
        }
    }
}

/// Why a request carries no usable Basic credentials.
#[derive(Debug, Clone, Copy, PartialEq, Eq, Structural)]
pub enum BasicAuthError {
    MissingHeader,
    HeaderNotText,
    /// The header does not begin with `Basic `.
    NotBasic,
    /// What follows `Basic ` is not base64.
    NotBase64,
    /// The decoded credentials are not UTF-8.
    NotUtf8,
    /// The decoded credentials hold no colon, and so no password.
    MissingPassword,
}

impl BasicAuthError {
    pub open spec fn message_text(self) -> Seq<char> {
        match self {
            BasicAuthError::MissingHeader => "Missing authorization header"@,
            BasicAuthError::HeaderNotText => "Authorization header was not valid UTF8"@,
            BasicAuthError::NotBasic => "Authorization header did not start with Basic"@,
            BasicAuthError::NotBase64 => "Failed to base64-decode credentials"@,
            BasicAuthError::NotUtf8 => "Credentials were not valid UTF8"@,
            BasicAuthError::MissingPassword => "A password must be provided in 'Basic' auth."@,
        }
    }

    /// What the logs are told. The client is told none of it.
    pub fn message(&self) -> (text: &'static str)
        ensures
            text@ == self.message_text(),
    {
        match self {
            BasicAuthError::MissingHeader => "Missing authorization header",
            BasicAuthError::HeaderNotText => "Authorization header was not valid UTF8",
            BasicAuthError::NotBasic => "Authorization header did not start with Basic",
            BasicAuthError::NotBase64 => "Failed to base64-decode credentials",
            BasicAuthError::NotUtf8 => "Credentials were not valid UTF8",
            BasicAuthError::MissingPassword => "A password must be provided in 'Basic' auth.",
        }
    }

    /// Every one of them is a failed authentication to the client.
    pub fn into_publish_error(self) -> (error: PublishError)
        ensures
            error == PublishError::AuthError,
    {
        PublishError::AuthError
    }
}

/// The scheme that the header must begin with.
pub const BASIC_SCHEME: &'static str = "Basic ";

#[verifier::external_type_specification]
#[verifier::external_body]
pub struct ExDecodeError(base64::DecodeError);

#[verifier::external_type_specification]
#[verifier::external_body]
pub struct ExFromUtf8Error(std::string::FromUtf8Error);

/// The bytes that a text stands for in base64, with the standard alphabet
/// and with padding required; none where the text is no such encoding.
pub uninterp spec fn base64_decoding(encoded: Seq<char>) -> Option<Seq<u8>>;

/// Calls `Engine::decode` of `base64::engine::general_purpose::STANDARD`.
/// What it returns for `encoded`, bytes or refusal, is what
/// [`base64_decoding`] names.
#[verifier::external_body]
fn base64_decode(encoded: &str) -> (decoded: Result<Vec<u8>, base64::DecodeError>)
    ensures
        match decoded {
            Ok(bytes) => base64_decoding(encoded@) == Some(bytes@),
            Err(_) => base64_decoding(encoded@) is None,
        },
{
    base64::engine::general_purpose::STANDARD.decode(encoded)
}

/// `String::from_utf8` gives the string that the bytes encode if they are
/// valid UTF-8, and an error if they are not.
#[verifier::external_body]
fn string_from_utf8(bytes: Vec<u8>) -> (text: Result<String, std::string::FromUtf8Error>)
    ensures
        match text {
            Ok(decoded) => valid_utf8(bytes@) && decoded@ == decode_utf8(bytes@),
            Err(_) => !valid_utf8(bytes@),
        },
{
    String::from_utf8(bytes)
}

/// `text` begins with `prefix`.
pub open spec fn has_prefix(text: Seq<char>, prefix: Seq<char>) -> bool {
    prefix.len() <= text.len() && text.subrange(0, prefix.len() as int) == prefix
}

/// The first colon of `text` is at `at`.
pub open spec fn is_first_colon(text: Seq<char>, at: int) -> bool {
    &&& 0 <= at < text.len()
    &&& text[at] == ':'
    &&& forall|j: int| 0 <= j < at ==> #[trigger] text[j] != ':'
}

/// The username and the password in `username:password`. The username ends
/// at the first colon; the password is all that follows, colons included.
pub open spec fn split_credentials(text: Seq<char>) -> Result<(Seq<char>, Seq<char>), BasicAuthError> {
    if exists|at: int| is_first_colon(text, at) {
        let at = choose|at: int| is_first_colon(text, at);
        Ok((text.subrange(0, at), text.subrange(at + 1, text.len() as int)))
    } else {
        Err(BasicAuthError::MissingPassword)
    }
}

/// The credentials that decoded bytes hold.
pub open spec fn credentials_in(bytes: Seq<u8>) -> Result<(Seq<char>, Seq<char>), BasicAuthError> {
    if valid_utf8(bytes) {
        split_credentials(decode_utf8(bytes))
    } else {
        Err(BasicAuthError::NotUtf8)
    }
}

/// The credentials that a header value carries, given what its part after
/// `Basic ` decodes to.
pub open spec fn credentials_of_value(value: Seq<char>, decoded: Option<Seq<u8>>) -> Result<
    (Seq<char>, Seq<char>),
    BasicAuthError,
> {
    if !has_prefix(value, BASIC_SCHEME@) {
        Err(BasicAuthError::NotBasic)
    } else {
        match decoded {
            Some(bytes) => credentials_in(bytes),
            None => Err(BasicAuthError::NotBase64),
        }
    }
}

/// The credentials that an `Authorization` header carries.
pub open spec fn basic_credentials(header: HeaderView) -> Result<
    (Seq<char>, Seq<char>),
    BasicAuthError,
> {
    match header {
        HeaderView::Missing => Err(BasicAuthError::MissingHeader),
        HeaderView::NotText => Err(BasicAuthError::HeaderNotText),
        HeaderView::Text(value) => credentials_of_value(
            value,
            base64_decoding(value.subrange(BASIC_SCHEME@.len() as int, value.len() as int)),
        ),
    }
}

/// Whether `parsed` holds exactly the credentials, or is exactly the error,
/// that `expected` says.
pub open spec fn holds_credentials(
    parsed: Result<Credentials, BasicAuthError>,
    expected: Result<(Seq<char>, Seq<char>), BasicAuthError>,
) -> bool {
    match parsed {
        Ok(credentials) => expected == Ok::<(Seq<char>, Seq<char>), BasicAuthError>(
            (credentials.username@, secret_text(credentials.password)),
        ),
        Err(error) => expected == Err::<(Seq<char>, Seq<char>), BasicAuthError>(error),
    }
}

/// Splits `username:password`.
pub fn credentials_from_text(text: &str) -> (parsed: Result<Credentials, BasicAuthError>)
    ensures
        holds_credentials(parsed, split_credentials(text@)),
{
    let chars = chars_of(text);
    let len = chars.len();
    let mut at: usize = 0;
    while at < len && chars[at] != ':'
        invariant
            len == chars.len(),
            at <= len,
            forall|j: int| 0 <= j < at ==> #[trigger] chars@[j] != ':',
        decreases len - at,
    {
        at = at + 1;
    }
    if at == len {
        assert(!exists|k: int| is_first_colon(text@, k));
        return Err(BasicAuthError::MissingPassword);
    }
    proof {
        assert(is_first_colon(text@, at as int));
        let chosen = choose|k: int| is_first_colon(text@, k);
        assert(chosen == at);
    }
    let username = string_of(&chars, 0, at);
    let password = string_of(&chars, at + 1, len);
    Ok(Credentials::new(username, password))
}

/// Reads the credentials out of the bytes that the header decoded to.
pub fn credentials_from_bytes(bytes: Vec<u8>) -> (parsed: Result<Credentials, BasicAuthError>)
    ensures
        holds_credentials(parsed, credentials_in(bytes@)),
{
    match string_from_utf8(bytes) {
        Ok(text) => credentials_from_text(text.as_str()),
        Err(_) => Err(BasicAuthError::NotUtf8),
    }
}

/// The length of `prefix` if `chars` begin with it.
fn strip_prefix(chars: &Vec<char>, prefix: &str) -> (rest: Option<usize>)
    ensures
        match rest {
            Some(start) => has_prefix(chars@, prefix@) && start == prefix@.len(),
            None => !has_prefix(chars@, prefix@),
        },
{
    let wanted = chars_of(prefix);
    if wanted.len() > chars.len() {
        return None;
    }
    let mut i: usize = 0;
    while i < wanted.len()
        invariant
            i <= wanted.len() <= chars.len(),
            wanted@ == prefix@,
            forall|j: int| 0 <= j < i ==> chars@[j] == wanted@[j],
        decreases wanted.len() - i,
    {
        if chars[i] != wanted[i] {
            assert(chars@.subrange(0, prefix@.len() as int)[i as int] != prefix@[i as int]);
            return None;
        }
        i = i + 1;
    }
    assert(chars@.subrange(0, prefix@.len() as int) =~= prefix@);
    Some(wanted.len())
}

/// Reads Basic credentials out of the `Authorization` header: the header
/// must be there, be text, begin with `Basic `, and carry the base64 of
/// `username:password` in UTF-8.
pub fn basic_authentication(header: AuthorizationHeader) -> (parsed: Result<
    Credentials,
    BasicAuthError,
>)
    ensures
        holds_credentials(parsed, basic_credentials(header@)),
{
    let value = match header {
        AuthorizationHeader::Missing => {
            return Err(BasicAuthError::MissingHeader);
        },
        AuthorizationHeader::NotText => {
            return Err(BasicAuthError::HeaderNotText);
        },
        AuthorizationHeader::Text(value) => value,
    };
    let chars = chars_of(value.as_str());
    let start = match strip_prefix(&chars, BASIC_SCHEME) {
        Some(start) => start,
        None => {
            return Err(BasicAuthError::NotBasic);
        },
    };
    let encoded = string_of(&chars, start, chars.len());
    match base64_decode(encoded.as_str()) {
        Ok(bytes) => credentials_from_bytes(bytes),
        Err(_) => Err(BasicAuthError::NotBase64),
    }
}

/// A subscriber as read from the store.
#[derive(Debug)]
pub struct StoredSubscriber {
    pub email: String,
    pub status: String,
}

/// A [`StoredSubscriber`] as mathematical values.
pub struct StoredSubscriberView {
    pub email: Seq<char>,
    pub status: Seq<char>,
}

impl View for StoredSubscriber {
    type V = StoredSubscriberView;

    open spec fn view(&self) -> StoredSubscriberView {
        StoredSubscriberView { email: self.email@, status: self.status@ }
    }
}

/// The views of a list of stored subscribers.
pub open spec fn rows_of(subscribers: Seq<StoredSubscriber>) -> Seq<StoredSubscriberView> {
    Seq::new(subscribers.len(), |i: int| subscribers[i]@)
}

/// A subscriber who has confirmed.
#[derive(Debug)]
pub struct ConfirmedSubscriber {
    pub email: SubscriberEmail,
}

/// The statement that lists the subscribers who have confirmed.
pub fn confirmed_subscribers_query() -> (statement: Statement)
    ensures
        statement@ == (StatementView::ListSubscribers { status: SubscriptionStatus::Confirmed }),
{
    Statement::ListSubscribers { status: SubscriptionStatus::Confirmed }
}

pub open spec fn is_confirmed(row: StoredSubscriberView) -> bool {
    row.status == SubscriptionStatus::Confirmed.name()
}

/// The addresses of the rows that are confirmed, in the order of the rows.
pub open spec fn confirmed_emails(rows: Seq<StoredSubscriberView>) -> Seq<Seq<char>>
    decreases rows.len(),
{
    if rows.len() == 0 {
        Seq::empty()
    } else if is_confirmed(rows.last()) {
        confirmed_emails(rows.drop_last()).push(rows.last().email)
    } else {
        confirmed_emails(rows.drop_last())
    }
}

/// Those of `addresses` that are valid email addresses, in order.
pub open spec fn deliverable(addresses: Seq<Seq<char>>) -> Seq<Seq<char>>
    decreases addresses.len(),
{
    if addresses.len() == 0 {
        Seq::empty()
    } else if is_valid_email(addresses.last()) {
        deliverable(addresses.drop_last()).push(addresses.last())
    } else {
        deliverable(addresses.drop_last())
    }
}

/// Who receives an issue: the confirmed subscribers whose stored address
/// is valid.
pub open spec fn newsletter_recipients(rows: Seq<StoredSubscriberView>) -> Seq<Seq<char>> {
    deliverable(confirmed_emails(rows))
}

/// The addresses of those entries of `subscribers` that are subscribers.
pub open spec fn addresses_of(
    subscribers: Seq<Result<ConfirmedSubscriber, ValidationError>>,
) -> Seq<Seq<char>>
    decreases subscribers.len(),
{
    if subscribers.len() == 0 {
        Seq::empty()
    } else {
        match subscribers.last() {
            Ok(subscriber) => addresses_of(subscribers.drop_last()).push(subscriber.email@),
            Err(_) => addresses_of(subscribers.drop_last()),
        }
    }
}

/// Whether `entry` is what parsing the stored address `address` gives.
pub open spec fn is_parsed_from(
    entry: Result<ConfirmedSubscriber, ValidationError>,
    address: Seq<char>,
) -> bool {
    match entry {
        Ok(subscriber) => is_valid_email(address) && subscriber.email@ == address,
        Err(fault) => !is_valid_email(address) && fault == ValidationError::InvalidEmail,
    }
}

/// Picks the confirmed subscribers out of the rows read from the store.
/// Each comes with its address parsed; one whose stored address is not
/// valid comes as an error, for the caller to report and skip.
pub fn get_confirmed_subscribers(rows: &Vec<StoredSubscriber>) -> (subscribers: Vec<
    Result<ConfirmedSubscriber, ValidationError>,
>)
    ensures
        subscribers@.len() == confirmed_emails(rows_of(rows@)).len(),
        forall|k: int|
            0 <= k < subscribers@.len() ==> is_parsed_from(
                #[trigger] subscribers@[k],
                confirmed_emails(rows_of(rows@))[k],
            ),
        addresses_of(subscribers@) == newsletter_recipients(rows_of(rows@)),
{
    let mut subscribers: Vec<Result<ConfirmedSubscriber, ValidationError>> = Vec::new();
    let mut i: usize = 0;
    let ghost all = rows_of(rows@);
    assert(all.take(0) =~= Seq::<StoredSubscriberView>::empty());
    while i < rows.len()
        invariant
            i <= rows.len(),
            all == rows_of(rows@),
            subscribers@.len() == confirmed_emails(all.take(i as int)).len(),
            forall|k: int|
                0 <= k < subscribers@.len() ==> is_parsed_from(
                    #[trigger] subscribers@[k],
                    confirmed_emails(all.take(i as int))[k],
                ),
            addresses_of(subscribers@) == deliverable(confirmed_emails(all.take(i as int))),
        decreases rows.len() - i,
    {
        let row = &rows[i];
        proof {
            let next = all.take(i + 1);
            assert(next.drop_last() =~= all.take(i as int));
            assert(next.last() == rows@[i as int]@);
        }
        if same_text(row.status.as_str(), SubscriptionStatus::Confirmed.as_str()) {
            let ghost before = subscribers@;
            let ghost addresses = confirmed_emails(all.take(i as int));
            let entry = match SubscriberEmail::parse(row.email.clone()) {
                Ok(email) => Ok(ConfirmedSubscriber { email }),
                Err(fault) => Err(fault),
            };
            subscribers.push(entry);
            proof {
                assert(subscribers@.drop_last() =~= before);
                assert(addresses.push(row.email@).drop_last() =~= addresses);
            }
        }
        i = i + 1;
    }
    assert(all.take(rows.len() as int) =~= all);
    subscribers
}

/// The issue as a message to one recipient.
pub open spec fn issue_for(
    title: Seq<char>,
    html: Seq<char>,
    text: Seq<char>,
    recipient: Seq<char>,
) -> EmailView {
    EmailView { recipient, subject: title, html_content: html, text_content: text }
}

/// The issue as one message to each recipient, in order.
pub open spec fn issue_for_all(
    title: Seq<char>,
    html: Seq<char>,
    text: Seq<char>,
    recipients: Seq<Seq<char>>,
) -> Seq<EmailView> {
    Seq::new(recipients.len(), |i: int| issue_for(title, html, text, recipients[i]))
}

/// The views of a list of messages.
pub open spec fn emails_of(messages: Seq<OutboundEmail>) -> Seq<EmailView> {
    Seq::new(messages.len(), |i: int| messages[i]@)
}

/// The messages that carry an issue to the subscribers, one for each entry
/// that is a subscriber, in order. They are made for a publisher who has
/// authenticated, and for nobody else.
pub fn publish_newsletter(
    publisher: &UserId,
    body: &BodyData,
    subscribers: &Vec<Result<ConfirmedSubscriber, ValidationError>>,
) -> (deliveries: Vec<OutboundEmail>)
    ensures
        emails_of(deliveries@) == issue_for_all(
            body.title@,
            body.content.html@,
            body.content.text@,
            addresses_of(subscribers@),
        ),
{
    let mut deliveries: Vec<OutboundEmail> = Vec::new();
    let mut i: usize = 0;
    assert(subscribers@.take(0) =~= Seq::<Result<ConfirmedSubscriber, ValidationError>>::empty());
    while i < subscribers.len()
        invariant
            i <= subscribers.len(),
            deliveries@.len() == addresses_of(subscribers@.take(i as int)).len(),
            forall|k: int|
                0 <= k < deliveries@.len() ==> (#[trigger] deliveries@[k])@ == issue_for(
                    body.title@,
                    body.content.html@,
                    body.content.text@,
                    addresses_of(subscribers@.take(i as int))[k],
                ),
        decreases subscribers.len() - i,
    {
        proof {
            let next = subscribers@.take(i + 1);
            assert(next.drop_last() =~= subscribers@.take(i as int));
            assert(next.last() == subscribers@[i as int]);
        }
        match &subscribers[i] {
            Ok(subscriber) => {
                deliveries.push(
                    OutboundEmail {
                        recipient: subscriber.email.clone(),
                        subject: body.title.clone(),
                        html_content: body.content.html.clone(),
                        text_content: body.content.text.clone(),
                    },
                );
            },
            Err(_) => {},
        }
        i = i + 1;
    }
    assert(subscribers@.take(subscribers.len() as int) =~= subscribers@);
    assert(emails_of(deliveries@) =~= issue_for_all(
        body.title@,
        body.content.html@,
        body.content.text@,
        addresses_of(subscribers@),
    ));
    deliveries
}

/// How publishing ends after a message was handed to the email client: a
/// message that is refused ends it as a failure, and the messages after it
/// are not sent.
pub fn after_delivery(reply: Reply) -> (outcome: Result<(), PublishError>)
    ensures
        outcome == if reply == Reply::Accepted {
            Ok::<(), PublishError>(())
        } else {
            Err::<(), PublishError>(PublishError::UnexpectedError)
        },
{
    match reply {
        Reply::Accepted => Ok(()),
        Reply::Rejected => Err(PublishError::UnexpectedError),
    }
}

/// Every address among the confirmed ones is the address of a confirmed
/// row.
proof fn lemma_confirmed_emails_are_confirmed(rows: Seq<StoredSubscriberView>, k: int)
    requires
        0 <= k < confirmed_emails(rows).len(),
    ensures
        exists|i: int|
            0 <= i < rows.len() && is_confirmed(#[trigger] rows[i]) && rows[i].email
                == confirmed_emails(rows)[k],
    decreases rows.len(),
{
    if rows.len() > 0 {
        let rest = rows.drop_last();
        if is_confirmed(rows.last()) && k == confirmed_emails(rest).len() {
            let last = rows.len() - 1;
            assert(is_confirmed(rows[last]) && rows[last].email == confirmed_emails(rows)[k]);
        } else {
            lemma_confirmed_emails_are_confirmed(rest, k);
            let i = choose|i: int|
                0 <= i < rest.len() && is_confirmed(#[trigger] rest[i]) && rest[i].email
                    == confirmed_emails(rest)[k];
            assert(rows[i] == rest[i]);
        }
    }
}

/// Every deliverable address is one of the addresses given.
proof fn lemma_deliverable_are_given(addresses: Seq<Seq<char>>, k: int)
    requires
        0 <= k < deliverable(addresses).len(),
    ensures
        exists|i: int| 0 <= i < addresses.len() && #[trigger] addresses[i] == deliverable(addresses)[k],
    decreases addresses.len(),
{
    if addresses.len() > 0 {
        let rest = addresses.drop_last();
        if is_valid_email(addresses.last()) && k == deliverable(rest).len() {
            let last = addresses.len() - 1;
            assert(addresses[last] == deliverable(addresses)[k]);
        } else {
            lemma_deliverable_are_given(rest, k);
            let i = choose|i: int| 0 <= i < rest.len() && #[trigger] rest[i] == deliverable(rest)[k];
            assert(addresses[i] == rest[i]);
        }
    }
}

/// An issue goes to confirmed subscribers only: every recipient is the
/// address of a row whose status is confirmed. So an address that only
/// rows pending confirmation hold receives nothing.
pub proof fn lemma_only_confirmed_subscribers_receive(
    rows: Seq<StoredSubscriberView>,
    address: Seq<char>,
)
    ensures
        newsletter_recipients(rows).contains(address) ==> exists|i: int|
            0 <= i < rows.len() && is_confirmed(#[trigger] rows[i]) && rows[i].email == address,
        (forall|i: int| 0 <= i < rows.len() && #[trigger] rows[i].email == address ==> !is_confirmed(rows[i]))
            ==> !newsletter_recipients(rows).contains(address),
{
    let recipients = newsletter_recipients(rows);
    if recipients.contains(address) {
        let k = choose|k: int| 0 <= k < recipients.len() && recipients[k] == address;
        lemma_deliverable_are_given(confirmed_emails(rows), k);
        let j = choose|j: int|
            0 <= j < confirmed_emails(rows).len() && #[trigger] confirmed_emails(rows)[j]
                == recipients[k];
        lemma_confirmed_emails_are_confirmed(rows, j);
        let i = choose|i: int|
            0 <= i < rows.len() && is_confirmed(#[trigger] rows[i]) && rows[i].email
                == confirmed_emails(rows)[j];
        assert(rows[i].email == address);
    }
}

} // verus!
