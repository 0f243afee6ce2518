//! The gateway to the backing store: the statements that the service
//! issues, and the transaction handle with its guarantee that nothing is
//! left open.
//!
//! The store itself is reached by the caller. This module decides what is
//! sent and what follows from each answer.

use crate::text::is_ascii_digit;
use vstd::prelude::*;

verus! {

/// Where a subscriber stands.
#[derive(Debug, Clone, Copy, PartialEq, Eq, Structural)]
pub enum SubscriptionStatus {
    PendingConfirmation,
    Confirmed,
}

impl SubscriptionStatus {
    pub open spec fn name(self) -> Seq<char> {
        match self {
            SubscriptionStatus::PendingConfirmation => "pending_confirmation"@,
            SubscriptionStatus::Confirmed => "confirmed"@,
        }
    }

    /// The status as the store holds it.
    pub fn as_str(&self) -> (name: &'static str)
        ensures
            name@ == self.name(),
    {
        match self {
            SubscriptionStatus::PendingConfirmation => "pending_confirmation",
            SubscriptionStatus::Confirmed => "confirmed",
        }
    }
}

/// The kinds of statement that the service issues. Each kind has one text.
#[derive(Debug, Clone, Copy, PartialEq, Eq, Structural)]
pub enum StatementKind {
    Begin,
    Commit,
    Cancel,
    CreateSubscriber,
    CreateToken,
    FindSubscriberByToken,
    ConfirmSubscriber,
    FindCredentials,
    ListSubscribers,
}

/// The text of each kind of statement. Values never enter the text: each
/// `$name` in it stands for a parameter that is bound when the statement is
/// run.
pub open spec fn statement_text(kind: StatementKind) -> Seq<char> {
    match kind {
        StatementKind::Begin => "BEGIN TRANSACTION;"@,
        StatementKind::Commit => "COMMIT TRANSACTION;"@,
        StatementKind::Cancel => "CANCEL TRANSACTION;"@,
        StatementKind::CreateSubscriber => "CREATE type::thing('subscriptions', $id) CONTENT { email: $email, name: $name, subscribed_at: time::now(), status: $status };"@,
        StatementKind::CreateToken => "CREATE type::thing('subscription_tokens', $id) CONTENT { subscription_token: $subscription_token, subscriber_id: $subscriber_id };"@,
        StatementKind::FindSubscriberByToken => "SELECT VALUE subscriber_id FROM subscription_tokens WHERE subscription_token = $subscription_token;"@,
        StatementKind::ConfirmSubscriber => "UPDATE type::thing('subscriptions', $subscriber_id) SET status = $status;"@,
        StatementKind::FindCredentials => "SELECT id, password_hash FROM users WHERE username = $username;"@,
        StatementKind::ListSubscribers => "SELECT email, status FROM subscriptions WHERE status = $status;"@,
    }
}

impl StatementKind {
    pub fn text(&self) -> (text: &'static str)
        ensures
            text@ == statement_text(*self),
    {
        match self {
            StatementKind::Begin => "BEGIN TRANSACTION;",
            StatementKind::Commit => "COMMIT TRANSACTION;",
            StatementKind::Cancel => "CANCEL TRANSACTION;",
            StatementKind::CreateSubscriber => "CREATE type::thing('subscriptions', $id) CONTENT { email: $email, name: $name, subscribed_at: time::now(), status: $status };",
            StatementKind::CreateToken => "CREATE type::thing('subscription_tokens', $id) CONTENT { subscription_token: $subscription_token, subscriber_id: $subscriber_id };",
            StatementKind::FindSubscriberByToken => "SELECT VALUE subscriber_id FROM subscription_tokens WHERE subscription_token = $subscription_token;",
            StatementKind::ConfirmSubscriber => "UPDATE type::thing('subscriptions', $subscriber_id) SET status = $status;",
            StatementKind::FindCredentials => "SELECT id, password_hash FROM users WHERE username = $username;",
            StatementKind::ListSubscribers => "SELECT email, status FROM subscriptions WHERE status = $status;",
        }
    }
}

/// A statement with the values of its parameters.
#[derive(Debug)]
pub enum Statement {
    Begin,
    Commit,
    Cancel,
    CreateSubscriber { id: String, email: String, name: String, status: SubscriptionStatus },
    CreateToken { id: String, subscription_token: String, subscriber_id: String },
    FindSubscriberByToken { subscription_token: String },
    ConfirmSubscriber { subscriber_id: String, status: SubscriptionStatus },
    FindCredentials { username: String },
    ListSubscribers { status: SubscriptionStatus },
}

/// What a [`Statement`] says, as mathematical values.
pub enum StatementView {
    Begin,
    Commit,
    Cancel,
    CreateSubscriber { id: Seq<char>, email: Seq<char>, name: Seq<char>, status: SubscriptionStatus },
    CreateToken { id: Seq<char>, subscription_token: Seq<char>, subscriber_id: Seq<char> },
    FindSubscriberByToken { subscription_token: Seq<char> },
    ConfirmSubscriber { subscriber_id: Seq<char>, status: SubscriptionStatus },
    FindCredentials { username: Seq<char> },
    ListSubscribers { status: SubscriptionStatus },
}

impl StatementView {
    pub open spec fn kind(self) -> StatementKind {
        match self {
            StatementView::Begin => StatementKind::Begin,
            StatementView::Commit => StatementKind::Commit,
            StatementView::Cancel => StatementKind::Cancel,
            StatementView::CreateSubscriber { .. } => StatementKind::CreateSubscriber,
            StatementView::CreateToken { .. } => StatementKind::CreateToken,
            StatementView::FindSubscriberByToken { .. } => StatementKind::FindSubscriberByToken,
            StatementView::ConfirmSubscriber { .. } => StatementKind::ConfirmSubscriber,
            StatementView::FindCredentials { .. } => StatementKind::FindCredentials,
            StatementView::ListSubscribers { .. } => StatementKind::ListSubscribers,
        }
    }

    /// The parameters to bind, each with its name in the statement's text.
    pub open spec fn parameters(self) -> Seq<(Seq<char>, Seq<char>)> {
        match self {
            StatementView::Begin => seq![],
            StatementView::Commit => seq![],
            StatementView::Cancel => seq![],
            StatementView::CreateSubscriber { id, email, name, status } => seq![
                ("id"@, id),
                ("email"@, email),
                ("name"@, name),
                ("status"@, status.name()),
            ],
            StatementView::CreateToken { id, subscription_token, subscriber_id } => seq![
                ("id"@, id),
                ("subscription_token"@, subscription_token),
                ("subscriber_id"@, subscriber_id),
            ],
            StatementView::FindSubscriberByToken { subscription_token } => seq![
                ("subscription_token"@, subscription_token),
            ],
            StatementView::ConfirmSubscriber { subscriber_id, status } => seq![
                ("subscriber_id"@, subscriber_id),
                ("status"@, status.name()),
            ],
            StatementView::FindCredentials { username } => seq![("username"@, username)],
            StatementView::ListSubscribers { status } => seq![("status"@, status.name())],
        }
    }
}

impl View for Statement {
    type V = StatementView;

    open spec fn view(&self) -> StatementView {
        match self {
            Statement::Begin => StatementView::Begin,
            Statement::Commit => StatementView::Commit,
            Statement::Cancel => StatementView::Cancel,
            Statement::CreateSubscriber { id, email, name, status } => StatementView::CreateSubscriber {
                id: id@,
                email: email@,
                name: name@,
                status: *status,
            },
            Statement::CreateToken { id, subscription_token, subscriber_id } => StatementView::CreateToken {
                id: id@,
                subscription_token: subscription_token@,
                subscriber_id: subscriber_id@,
            },
            Statement::FindSubscriberByToken { subscription_token } => StatementView::FindSubscriberByToken {
                subscription_token: subscription_token@,
            },
            Statement::ConfirmSubscriber { subscriber_id, status } => StatementView::ConfirmSubscriber {
                subscriber_id: subscriber_id@,
                status: *status,
            },
            Statement::FindCredentials { username } => StatementView::FindCredentials {
                username: username@,
            },
            Statement::ListSubscribers { status } => StatementView::ListSubscribers { status: *status },
        }
    }
}

/// A parameter of a statement: the name that stands in the text, and the
/// value bound to it.
#[derive(Debug)]
pub struct Binding {
    pub name: &'static str,
    pub value: String,
}

/// The names and values of a list of bindings.
pub open spec fn binding_pairs(bindings: Seq<Binding>) -> Seq<(Seq<char>, Seq<char>)> {
    Seq::new(bindings.len(), |i: int| (bindings[i].name@, bindings[i].value@))
}

impl Statement {
    pub fn kind(&self) -> (kind: StatementKind)
        ensures
            kind == self@.kind(),
    {
        match self {
            Statement::Begin => StatementKind::Begin,
            Statement::Commit => StatementKind::Commit,
            Statement::Cancel => StatementKind::Cancel,
            Statement::CreateSubscriber { .. } => StatementKind::CreateSubscriber,
            Statement::CreateToken { .. } => StatementKind::CreateToken,
            Statement::FindSubscriberByToken { .. } => StatementKind::FindSubscriberByToken,
            Statement::ConfirmSubscriber { .. } => StatementKind::ConfirmSubscriber,
            Statement::FindCredentials { .. } => StatementKind::FindCredentials,
            Statement::ListSubscribers { .. } => StatementKind::ListSubscribers,
        }
    }

    /// The text to send. It depends on the kind of statement alone.
    pub fn text(&self) -> (text: &'static str)
        ensures
            text@ == statement_text(self@.kind()),
    {
        self.kind().text()
    }

    /// The parameters to bind when the statement is run.
    pub fn bindings(&self) -> (bindings: Vec<Binding>)
        ensures
            binding_pairs(bindings@) == self@.parameters(),
    {
        let mut bindings: Vec<Binding> = Vec::new();
        match self {
            Statement::Begin => {},
            Statement::Commit => {},
            Statement::Cancel => {},
            Statement::CreateSubscriber { id, email, name, status } => {
                bindings.push(Binding { name: "id", value: id.clone() });
                bindings.push(Binding { name: "email", value: email.clone() });
                bindings.push(Binding { name: "name", value: name.clone() });
                bindings.push(Binding { name: "status", value: status.as_str().to_owned() });
            },
            Statement::CreateToken { id, subscription_token, subscriber_id } => {
                bindings.push(Binding { name: "id", value: id.clone() });
                bindings.push(
                    Binding { name: "subscription_token", value: subscription_token.clone() },
                );
                bindings.push(Binding { name: "subscriber_id", value: subscriber_id.clone() });
            },
            Statement::FindSubscriberByToken { subscription_token } => {
                bindings.push(
                    Binding { name: "subscription_token", value: subscription_token.clone() },
                );
            },
            Statement::ConfirmSubscriber { subscriber_id, status } => {
                bindings.push(Binding { name: "subscriber_id", value: subscriber_id.clone() });
                bindings.push(Binding { name: "status", value: status.as_str().to_owned() });
            },
            Statement::FindCredentials { username } => {
                bindings.push(Binding { name: "username", value: username.clone() });
            },
            Statement::ListSubscribers { status } => {
                bindings.push(Binding { name: "status", value: status.as_str().to_owned() });
            },
        }
        assert(binding_pairs(bindings@) =~= self@.parameters());
        bindings
    }
}

/// How a collaborator answered a request: the store a statement, the
/// email client a message.
#[derive(Debug, Clone, Copy, PartialEq, Eq, Structural)]
pub enum Reply {
    Accepted,
    Rejected,
}

/// The life of a transaction. It is open from the moment the store accepts
/// `BEGIN` until it accepts `COMMIT` or `CANCEL`.
#[derive(Debug, Clone, Copy, PartialEq, Eq, Structural)]
pub enum TransactionState {
    Open,
    Committed,
    RolledBack,
}

/// Why an operation on a transaction failed.
#[derive(Debug, Clone, Copy, PartialEq, Eq, Structural)]
pub enum TransactionError {
    /// The transaction is no longer open: it was committed or rolled back
    /// before.
    InvalidTransactionState,
    /// The store rejected the statement.
    StoreFailure,
}

impl TransactionError {
    pub open spec fn message_text(self) -> Seq<char> {
        match self {
            TransactionError::InvalidTransactionState => "The transaction was already committed or rolled back."@,
            TransactionError::StoreFailure => "A database failure was encountered while trying perform a transaction."@,
        }
    }

    pub fn message(&self) -> (text: &'static str)
        ensures
            text@ == self.message_text(),
    {
        match self {
            TransactionError::InvalidTransactionState => "The transaction was already committed or rolled back.",
            TransactionError::StoreFailure => "A database failure was encountered while trying perform a transaction.",
        }
    }
}

/// The handle of one transaction on one connection.
///
/// Each operation comes in two halves, because the store is reached by the
/// caller: first the statement to send, then the change of state that the
/// store's answer brings.
#[derive(Debug)]
pub struct Transaction {
    state: TransactionState,
}

impl Transaction {
    pub closed spec fn state(&self) -> TransactionState {
        self.state
    }

    pub open spec fn is_open(&self) -> bool {
        self.state() == TransactionState::Open
    }

    /// The statement that opens a transaction.
    pub fn begin_statement() -> (statement: Statement)
        ensures
            statement@ == StatementView::Begin,
    {
        Statement::Begin
    }

    /// The handle of the transaction that `BEGIN` opened, if the store
    /// accepted it.
    pub fn begin(reply: Reply) -> (begun: Result<Transaction, TransactionError>)
        ensures
            match begun {
                Ok(transaction) => reply == Reply::Accepted && transaction.is_open(),
                Err(error) => reply == Reply::Rejected && error
                    == TransactionError::StoreFailure,
            },
    {
        match reply {
            Reply::Accepted => Ok(Transaction { state: TransactionState::Open }),
            Reply::Rejected => Err(TransactionError::StoreFailure),
        }
    }

    pub fn current_state(&self) -> (state: TransactionState)
        ensures
            state == self.state(),
    {
        self.state
    }

    /// The statement that commits, while the transaction is open.
    pub fn commit_statement(&self) -> (statement: Result<Statement, TransactionError>)
        ensures
            match statement {
                Ok(commit) => self.is_open() && commit@ == StatementView::Commit,
                Err(error) => !self.is_open() && error
                    == TransactionError::InvalidTransactionState,
            },
    {
        match self.state {
            TransactionState::Open => Ok(Statement::Commit),
            _ => Err(TransactionError::InvalidTransactionState),
        }
    }

    /// Records the store's answer to `COMMIT`. The transaction is committed
    /// if the store accepted; a rejected commit leaves it open, so that it is
    /// still rolled back when the handle goes.
    pub fn commit(&mut self, reply: Reply) -> (committed: Result<(), TransactionError>)
        ensures
            final(self).state() == settled(old(self).state(), reply, TransactionState::Committed),
            committed == settlement(old(self).state(), reply),
    {
        match self.state {
            TransactionState::Open => match reply {
                Reply::Accepted => {
                    self.state = TransactionState::Committed;
                    Ok(())
                },
                Reply::Rejected => Err(TransactionError::StoreFailure),
            },
            _ => Err(TransactionError::InvalidTransactionState),
        }
    }

    /// The statement that rolls back, while the transaction is open.
    pub fn rollback_statement(&self) -> (statement: Result<Statement, TransactionError>)
        ensures
            match statement {
                Ok(cancel) => self.is_open() && cancel@ == StatementView::Cancel,
                Err(error) => !self.is_open() && error
                    == TransactionError::InvalidTransactionState,
            },
    {
        match self.state {
            TransactionState::Open => Ok(Statement::Cancel),
            _ => Err(TransactionError::InvalidTransactionState),
        }
    }

    /// Records the store's answer to `CANCEL`.
    pub fn rollback(&mut self, reply: Reply) -> (rolled_back: Result<(), TransactionError>)
        ensures
            final(self).state() == settled(old(self).state(), reply, TransactionState::RolledBack),
            rolled_back == settlement(old(self).state(), reply),
    {
        match self.state {
            TransactionState::Open => match reply {
                Reply::Accepted => {
                    self.state = TransactionState::RolledBack;
                    Ok(())
                },
                Reply::Rejected => Err(TransactionError::StoreFailure),
            },
            _ => Err(TransactionError::InvalidTransactionState),
        }
    }

    /// What must be sent when the handle is given up: `CANCEL` exactly when
    /// the transaction is still open. The holder of a handle calls this on
    /// every path by which the handle goes, so that no transaction stays
    /// open on the server.
    pub fn on_drop(&self) -> (statement: Option<Statement>)
        ensures
            match statement {
                Some(cancel) => self.is_open() && cancel@ == StatementView::Cancel,
                None => !self.is_open(),
            },
    {
        match self.state {
            TransactionState::Open => Some(Statement::Cancel),
            _ => None,
        }
    }
}

/// The state after the store answered the statement that ends a transaction.
pub open spec fn settled(
    before: TransactionState,
    reply: Reply,
    target: TransactionState,
) -> TransactionState {
    if before == TransactionState::Open && reply == Reply::Accepted {
        target
    } else {
        before
    }
}

/// What the operation that ends a transaction reports.
pub open spec fn settlement(before: TransactionState, reply: Reply) -> Result<
    (),
    TransactionError,
> {
    if before != TransactionState::Open {
        Err(TransactionError::InvalidTransactionState)
    } else if reply == Reply::Rejected {
        Err(TransactionError::StoreFailure)
    } else {
        Ok(())
    }
}

/// The shape of a record key: a UUID in its hyphenated form, 36 characters
/// of which the 9th, 14th, 19th and 24th are hyphens and the others are
/// digits or letters from `a` to `f`.
pub open spec fn is_record_key(s: Seq<char>) -> bool {
    &&& s.len() == 36
    &&& forall|i: int|
        0 <= i < s.len() ==> if i == 8 || i == 13 || i == 18 || i == 23 {
            #[trigger] s[i] == '-'
        } else {
            is_ascii_digit(s[i]) || ('a' <= s[i] <= 'f')
        }
}

/// Makes a random UUID with `uuid::Uuid::new_v4` and writes it out with its
/// `Display`, which gives the hyphenated form in lower case. Which UUID
/// comes is a matter of chance: only the shape is claimed. The randomness
/// is the operating system's; the call panics only if that has none to
/// give.
#[verifier::external_body]
pub(crate) fn new_record_key() -> (key: String)
    ensures
        is_record_key(key@),
{
    uuid::Uuid::new_v4().to_string()
}

/// A subscriber as the store holds it.
pub struct SubscriberRow {
    pub email: Seq<char>,
    pub name: Seq<char>,
    pub status: SubscriptionStatus,
}

/// The records of a store: subscribers by id, and for each confirmation
/// token the id of the subscriber that it belongs to.
pub struct Records {
    pub subscribers: Map<Seq<char>, SubscriberRow>,
    pub tokens: Map<Seq<char>, Seq<char>>,
}

impl Records {
    /// The records after a statement that writes.
    pub open spec fn write(self, statement: StatementView) -> Records {
        match statement {
            StatementView::CreateSubscriber { id, email, name, status } => Records {
                subscribers: self.subscribers.insert(id, SubscriberRow { email, name, status }),
                tokens: self.tokens,
            },
            StatementView::CreateToken { id, subscription_token, subscriber_id } => Records {
                subscribers: self.subscribers,
                tokens: self.tokens.insert(subscription_token, subscriber_id),
            },
            StatementView::ConfirmSubscriber { subscriber_id, status } => {
                if self.subscribers.contains_key(subscriber_id) {
                    let row = self.subscribers[subscriber_id];
                    Records {
                        subscribers: self.subscribers.insert(
                            subscriber_id,
                            SubscriberRow { email: row.email, name: row.name, status },
                        ),
                        tokens: self.tokens,
                    }
                } else {
                    self
                }
            },
            _ => self,
        }
    }
}

/// What this library asks of a transactional store, as a model: the
/// records that every reader sees, and beside them the working copy of the
/// transaction that is open, if one is. Writes go to the working copy
/// while a transaction is open; `COMMIT` makes the copy visible, `CANCEL`
/// throws it away.
pub struct StoreModel {
    pub visible: Records,
    pub staged: Option<Records>,
}

impl StoreModel {
    /// A store without records and without an open transaction.
    pub open spec fn empty() -> StoreModel {
        StoreModel {
            visible: Records { subscribers: Map::empty(), tokens: Map::empty() },
            staged: None,
        }
    }

    /// The store after it accepted a statement.
    pub open spec fn accept(self, statement: StatementView) -> StoreModel {
        match statement {
            StatementView::Begin => StoreModel { visible: self.visible, staged: Some(self.visible) },
            StatementView::Commit => match self.staged {
                Some(working) => StoreModel { visible: working, staged: None },
                None => self,
            },
            StatementView::Cancel => StoreModel { visible: self.visible, staged: None },
            _ => match self.staged {
                Some(working) => StoreModel {
                    visible: self.visible,
                    staged: Some(working.write(statement)),
                },
                None => StoreModel { visible: self.visible.write(statement), staged: None },
            },
        }
    }

    /// The store after it answered a statement: one that it rejected leaves
    /// it as it was.
    pub open spec fn answer(self, statement: StatementView, reply: Reply) -> StoreModel {
        if reply == Reply::Accepted {
            self.accept(statement)
        } else {
            self
        }
    }
}

} // verus!
