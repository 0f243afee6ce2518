//! Enrollment: a visitor's name and email address become a subscriber
//! pending confirmation, and a confirmation link is sent.
//!
//! The subscriber and the confirmation token are stored in one
//! transaction. The email is sent after the commit and only then: a
//! visitor is never told of a subscription that does not exist. If the
//! email fails the subscriber stays stored.

use crate::db::is_record_key;
use crate::db::new_record_key;
use crate::db::Records;
use crate::db::Reply;
use crate::db::Statement;
use crate::db::StatementView;
use crate::db::StoreModel;
use crate::db::SubscriberRow;
use crate::db::SubscriptionStatus;
use crate::db::Transaction;
use crate::db::TransactionState;
use crate::domain::new_subscriber::form_fault;
use crate::domain::NewSubscriber;
use crate::email_client::EmailView;
use crate::email_client::OutboundEmail;
use crate::error::SubscribeError;
use crate::token::generate_subscription_token;
use crate::token::is_subscription_token;
use vstd::prelude::*;
use vstd::string::StringExecFns;

verus! {

/// The raw fields of a subscription form.
#[derive(Debug)]
pub struct FormData {
    pub email: String,
    pub name: String,
}

/// Validates a subscription form.
pub fn parse_subscriber(data: FormData) -> (parsed: Result<NewSubscriber, SubscribeError>)
    ensures
        match parsed {
            Ok(subscriber) => {
                &&& form_fault(data.name@, data.email@) is None
                &&& subscriber.name@ == data.name@
                &&& subscriber.email@ == data.email@
            },
            Err(error) => form_fault(data.name@, data.email@) is Some && error
                == SubscribeError::BadRequest(form_fault(data.name@, data.email@)->0),
        },
{
    match NewSubscriber::try_from(data) {
        Ok(subscriber) => Ok(subscriber),
        Err(fault) => Err(SubscribeError::BadRequest(fault)),
    }
}

/// The link that confirms the subscription bound to `token`.
pub open spec fn confirmation_link_of(base_url: Seq<char>, token: Seq<char>) -> Seq<char> {
    base_url + "/subscribe/confirm?subscription_token="@ + token
}

pub fn confirmation_link(base_url: &str, subscription_token: &str) -> (link: String)
    ensures
        link@ == confirmation_link_of(base_url@, subscription_token@),
{
    let mut link = base_url.to_owned();
    link.append("/subscribe/confirm?subscription_token=");
    link.append(subscription_token);
    link
}

/// The email that asks a new subscriber to confirm.
pub open spec fn confirmation_email_of(
    recipient: Seq<char>,
    base_url: Seq<char>,
    token: Seq<char>,
) -> EmailView {
    let link = confirmation_link_of(base_url, token);
    EmailView {
        recipient,
        subject: "Welcome!"@,
        html_content: "Welcome to our newsletter!<br />Click <a href=\""@ + link
            + "\">here</a> to confirm your subscription."@,
        text_content: "Welcome to our newsletter!\nVisit "@ + link
            + " to confirm your subscription."@,
    }
}

/// The message that asks a new subscriber to confirm, for the email client
/// to send once the subscriber is stored.
pub fn send_confirmation_email(
    new_subscriber: &NewSubscriber,
    base_url: &str,
    subscription_token: &str,
) -> (email: OutboundEmail)
    ensures
        email@ == confirmation_email_of(new_subscriber.email@, base_url@, subscription_token@),
{
    let link = confirmation_link(base_url, subscription_token);
    let mut html_content = "Welcome to our newsletter!<br />Click <a href=\"".to_owned();
    html_content.append(link.as_str());
    html_content.append("\">here</a> to confirm your subscription.");
    let mut text_content = "Welcome to our newsletter!\nVisit ".to_owned();
    text_content.append(link.as_str());
    text_content.append(" to confirm your subscription.");
    OutboundEmail {
        recipient: new_subscriber.email.clone(),
        subject: "Welcome!".to_owned(),
        html_content,
        text_content,
    }
}

/// The statement that stores a confirmation token with the subscriber that
/// it belongs to.
pub fn store_token(id: &str, subscriber_id: &str, subscription_token: &str) -> (statement:
    Statement)
    ensures
        statement@ == (StatementView::CreateToken {
            id: id@,
            subscription_token: subscription_token@,
            subscriber_id: subscriber_id@,
        }),
{
    Statement::CreateToken {
        id: id.to_owned(),
        subscription_token: subscription_token.to_owned(),
        subscriber_id: subscriber_id.to_owned(),
    }
}

/// The statement that stores a new subscriber, pending confirmation.
pub fn insert_subscriber(id: &str, new_subscriber: &NewSubscriber) -> (statement: Statement)
    ensures
        statement@ == (StatementView::CreateSubscriber {
            id: id@,
            email: new_subscriber.email@,
            name: new_subscriber.name@,
            status: SubscriptionStatus::PendingConfirmation,
        }),
{
    Statement::CreateSubscriber {
        id: id.to_owned(),
        email: new_subscriber.email.as_ref().to_owned(),
        name: new_subscriber.name.as_ref().to_owned(),
        status: SubscriptionStatus::PendingConfirmation,
    }
}

/// How far an enrollment has come. Each phase but the last waits for the
/// answer to one request.
#[derive(Debug, Clone, Copy, PartialEq, Eq)]
pub enum EnrollmentPhase {
    /// `BEGIN` was sent.
    Opening,
    /// The subscriber was sent to the store.
    InsertingSubscriber,
    /// The confirmation token was sent to the store.
    StoringToken,
    /// `COMMIT` was sent.
    Committing,
    /// A statement was rejected and `CANCEL` was sent.
    RollingBack,
    /// The confirmation email was handed to the email client.
    Notifying,
    /// The enrollment is over.
    Finished(Result<(), SubscribeError>),
}

/// What the caller is to do next.
#[derive(Debug)]
pub enum EnrollmentAction {
    /// Run the statement on the connection of this enrollment.
    Execute(Statement),
    /// Hand the message to the email client.
    Send(OutboundEmail),
    /// Answer the request.
    Finish(Result<(), SubscribeError>),
}

/// An [`EnrollmentAction`] as mathematical values.
pub enum ActionView {
    Execute(StatementView),
    Send(EmailView),
    Finish(Result<(), SubscribeError>),
}

impl View for EnrollmentAction {
    type V = ActionView;

    open spec fn view(&self) -> ActionView {
        match self {
            EnrollmentAction::Execute(statement) => ActionView::Execute(statement@),
            EnrollmentAction::Send(email) => ActionView::Send(email@),
            EnrollmentAction::Finish(outcome) => ActionView::Finish(*outcome),
        }
    }
}

/// One enrollment under way.
#[derive(Debug)]
pub struct Enrollment {
    phase: EnrollmentPhase,
    transaction: Option<Transaction>,
    subscriber: NewSubscriber,
    subscriber_id: String,
    token_id: String,
    subscription_token: String,
    base_url: String,
}

/// An [`Enrollment`] as mathematical values.
pub struct EnrollmentView {
    pub phase: EnrollmentPhase,
    pub transaction: Option<TransactionState>,
    pub email: Seq<char>,
    pub name: Seq<char>,
    pub subscriber_id: Seq<char>,
    pub token_id: Seq<char>,
    pub subscription_token: Seq<char>,
    pub base_url: Seq<char>,
}

impl EnrollmentView {
    pub open spec fn with(self, phase: EnrollmentPhase, transaction: Option<TransactionState>) -> Self {
        EnrollmentView {
            phase,
            transaction,
            email: self.email,
            name: self.name,
            subscriber_id: self.subscriber_id,
            token_id: self.token_id,
            subscription_token: self.subscription_token,
            base_url: self.base_url,
        }
    }

    /// The state once the answer to the request awaited has come.
    ///
    /// Every accepted answer leads one step on: begin, subscriber, token,
    /// commit, email. A rejected `BEGIN` ends the enrollment, since nothing
    /// was opened; any other rejected statement is followed by `CANCEL`,
    /// and whatever the store says to that, the enrollment ends as a
    /// failure of the store. A rejected email ends it as a failure of the
    /// email, with the subscriber stored.
    pub open spec fn next(self, reply: Reply) -> EnrollmentView {
        let accepted = reply == Reply::Accepted;
        match self.phase {
            EnrollmentPhase::Opening => if accepted {
                self.with(EnrollmentPhase::InsertingSubscriber, Some(TransactionState::Open))
            } else {
                self.with(
                    EnrollmentPhase::Finished(Err(SubscribeError::PersistenceFailure)),
                    self.transaction,
                )
            },
            EnrollmentPhase::InsertingSubscriber => if accepted {
                self.with(EnrollmentPhase::StoringToken, self.transaction)
            } else {
                self.with(EnrollmentPhase::RollingBack, self.transaction)
            },
            EnrollmentPhase::StoringToken => if accepted {
                self.with(EnrollmentPhase::Committing, self.transaction)
            } else {
                self.with(EnrollmentPhase::RollingBack, self.transaction)
            },
            EnrollmentPhase::Committing => if accepted {
                self.with(EnrollmentPhase::Notifying, Some(TransactionState::Committed))
            } else {
                self.with(EnrollmentPhase::RollingBack, self.transaction)
            },
            EnrollmentPhase::RollingBack => self.with(
                EnrollmentPhase::Finished(Err(SubscribeError::PersistenceFailure)),
                if accepted {
                    Some(TransactionState::RolledBack)
                } else {
                    self.transaction
                },
            ),
            EnrollmentPhase::Notifying => if accepted {
                self.with(EnrollmentPhase::Finished(Ok(())), self.transaction)
            } else {
                self.with(
                    EnrollmentPhase::Finished(Err(SubscribeError::EmailFailure)),
                    self.transaction,
                )
            },
            EnrollmentPhase::Finished(_) => self,
        }
    }

    /// The request whose answer the enrollment is waiting for; for one that
    /// is over, its outcome.
    pub open spec fn awaited(self) -> ActionView {
        match self.phase {
            EnrollmentPhase::Opening => ActionView::Execute(StatementView::Begin),
            EnrollmentPhase::InsertingSubscriber => ActionView::Execute(
                StatementView::CreateSubscriber {
                    id: self.subscriber_id,
                    email: self.email,
                    name: self.name,
                    status: SubscriptionStatus::PendingConfirmation,
                },
            ),
            EnrollmentPhase::StoringToken => ActionView::Execute(
                StatementView::CreateToken {
                    id: self.token_id,
                    subscription_token: self.subscription_token,
                    subscriber_id: self.subscriber_id,
                },
            ),
            EnrollmentPhase::Committing => ActionView::Execute(StatementView::Commit),
            EnrollmentPhase::RollingBack => ActionView::Execute(StatementView::Cancel),
            EnrollmentPhase::Notifying => ActionView::Send(
                confirmation_email_of(self.email, self.base_url, self.subscription_token),
            ),
            EnrollmentPhase::Finished(outcome) => ActionView::Finish(outcome),
        }
    }

    /// The transaction is open exactly in the phases between an accepted
    /// `BEGIN` and the end of the transaction.
    pub open spec fn consistent(self) -> bool {
        match self.phase {
            EnrollmentPhase::Opening => self.transaction is None,
            EnrollmentPhase::InsertingSubscriber
            | EnrollmentPhase::StoringToken
            | EnrollmentPhase::Committing
            | EnrollmentPhase::RollingBack => self.transaction == Some(TransactionState::Open),
            EnrollmentPhase::Notifying => self.transaction == Some(TransactionState::Committed),
            EnrollmentPhase::Finished(Ok(())) => self.transaction == Some(
                TransactionState::Committed,
            ),
            EnrollmentPhase::Finished(Err(SubscribeError::EmailFailure)) => self.transaction
                == Some(TransactionState::Committed),
            EnrollmentPhase::Finished(Err(SubscribeError::PersistenceFailure)) => self.transaction
                != Some(TransactionState::Committed),
            EnrollmentPhase::Finished(Err(SubscribeError::BadRequest(_))) => false,
        }
    }
}

impl View for Enrollment {
    type V = EnrollmentView;

    closed spec fn view(&self) -> EnrollmentView {
        EnrollmentView {
            phase: self.phase,
            transaction: match self.transaction {
                Some(transaction) => Some(transaction.state()),
                None => None,
            },
            email: self.subscriber.email@,
            name: self.subscriber.name@,
            subscriber_id: self.subscriber_id@,
            token_id: self.token_id@,
            subscription_token: self.subscription_token@,
            base_url: self.base_url@,
        }
    }
}

impl Enrollment {
    #[verifier::type_invariant]
    spec fn well_formed(&self) -> bool {
        self@.consistent()
    }

    /// Begins the enrollment of a validated subscriber with the ids and the
    /// token given. The first thing to do is to open a transaction.
    pub fn begin(
        subscriber: NewSubscriber,
        base_url: String,
        subscriber_id: String,
        token_id: String,
        subscription_token: String,
    ) -> (begun: (Enrollment, EnrollmentAction))
        ensures
            begun.0@ == (EnrollmentView {
                phase: EnrollmentPhase::Opening,
                transaction: None,
                email: subscriber.email@,
                name: subscriber.name@,
                subscriber_id: subscriber_id@,
                token_id: token_id@,
                subscription_token: subscription_token@,
                base_url: base_url@,
            }),
            begun.1@ == begun.0@.awaited(),
    {
        let enrollment = Enrollment {
            phase: EnrollmentPhase::Opening,
            transaction: None,
            subscriber,
            subscriber_id,
            token_id,
            subscription_token,
            base_url,
        };
        (enrollment, EnrollmentAction::Execute(Transaction::begin_statement()))
    }

    pub fn phase(&self) -> (phase: EnrollmentPhase)
        ensures
            phase == self@.phase,
    {
        self.phase
    }

    /// The token that the confirmation link carries.
    pub fn subscription_token(&self) -> (token: &str)
        ensures
            token@ == self@.subscription_token,
    {
        self.subscription_token.as_str()
    }

    /// The request whose answer the enrollment is waiting for.
    pub fn awaited(&self) -> (action: EnrollmentAction)
        ensures
            action@ == self@.awaited(),
    {
        match self.phase {
            EnrollmentPhase::Opening => EnrollmentAction::Execute(Transaction::begin_statement()),
            EnrollmentPhase::InsertingSubscriber => EnrollmentAction::Execute(
                insert_subscriber(self.subscriber_id.as_str(), &self.subscriber),
            ),
            EnrollmentPhase::StoringToken => EnrollmentAction::Execute(
                store_token(
                    self.token_id.as_str(),
                    self.subscriber_id.as_str(),
                    self.subscription_token.as_str(),
                ),
            ),
            EnrollmentPhase::Committing => EnrollmentAction::Execute(Statement::Commit),
            EnrollmentPhase::RollingBack => EnrollmentAction::Execute(Statement::Cancel),
            EnrollmentPhase::Notifying => EnrollmentAction::Send(
                send_confirmation_email(
                    &self.subscriber,
                    self.base_url.as_str(),
                    self.subscription_token.as_str(),
                ),
            ),
            EnrollmentPhase::Finished(outcome) => EnrollmentAction::Finish(outcome),
        }
    }

    /// Takes the answer to the request awaited and says what to do next.
    pub fn step(self, reply: Reply) -> (stepped: (Enrollment, EnrollmentAction))
        ensures
            stepped.0@ == self@.next(reply),
            stepped.1@ == self@.next(reply).awaited(),
    {
        proof {
            use_type_invariant(&self);
        }
        let Enrollment {
            phase,
            transaction,
            subscriber,
            subscriber_id,
            token_id,
            subscription_token,
            base_url,
        } = self;
        let mut phase = phase;
        let mut transaction = transaction;
        match phase {
            EnrollmentPhase::Opening => match Transaction::begin(reply) {
                Ok(opened) => {
                    transaction = Some(opened);
                    phase = EnrollmentPhase::InsertingSubscriber;
                },
                Err(_) => {
                    phase = EnrollmentPhase::Finished(Err(SubscribeError::PersistenceFailure));
                },
            },
            EnrollmentPhase::InsertingSubscriber => match reply {
                Reply::Accepted => {
                    phase = EnrollmentPhase::StoringToken;
                },
                Reply::Rejected => {
                    phase = EnrollmentPhase::RollingBack;
                },
            },
            EnrollmentPhase::StoringToken => match reply {
                Reply::Accepted => {
                    phase = EnrollmentPhase::Committing;
                },
                Reply::Rejected => {
                    phase = EnrollmentPhase::RollingBack;
                },
            },
            EnrollmentPhase::Committing => {
                let mut open = transaction.unwrap();
                match open.commit(reply) {
                    Ok(()) => {
                        phase = EnrollmentPhase::Notifying;
                    },
                    Err(_) => {
                        phase = EnrollmentPhase::RollingBack;
                    },
                }
                transaction = Some(open);
            },
            EnrollmentPhase::RollingBack => {
                let mut open = transaction.unwrap();
                let _ = open.rollback(reply);
                transaction = Some(open);
                phase = EnrollmentPhase::Finished(Err(SubscribeError::PersistenceFailure));
            },
            EnrollmentPhase::Notifying => match reply {
                Reply::Accepted => {
                    phase = EnrollmentPhase::Finished(Ok(()));
                },
                Reply::Rejected => {
                    phase = EnrollmentPhase::Finished(Err(SubscribeError::EmailFailure));
                },
            },
            EnrollmentPhase::Finished(_) => {},
        }
        let enrollment = Enrollment {
            phase,
            transaction,
            subscriber,
            subscriber_id,
            token_id,
            subscription_token,
            base_url,
        };
        let action = enrollment.awaited();
        (enrollment, action)
    }

    /// What must be sent if the enrollment is given up as it stands:
    /// `CANCEL` exactly when its transaction is open.
    pub fn on_drop(&self) -> (statement: Option<Statement>)
        ensures
            match statement {
                Some(cancel) => self@.transaction == Some(TransactionState::Open) && cancel@
                    == StatementView::Cancel,
                None => self@.transaction != Some(TransactionState::Open),
            },
    {
        match &self.transaction {
            Some(transaction) => transaction.on_drop(),
            None => None,
        }
    }
}

/// Takes a subscription form: validates it and begins the enrollment with
/// fresh ids and a fresh token. A form that is refused ends the request
/// before anything is asked of the store.
pub fn handler_subscribe(data: FormData, base_url: &str) -> (started: Result<
    (Enrollment, EnrollmentAction),
    SubscribeError,
>)
    ensures
        match started {
            Ok((enrollment, action)) => {
                &&& form_fault(data.name@, data.email@) is None
                &&& enrollment@.phase == EnrollmentPhase::Opening
                &&& enrollment@.transaction is None
                &&& enrollment@.name == data.name@
                &&& enrollment@.email == data.email@
                &&& enrollment@.base_url == base_url@
                &&& is_record_key(enrollment@.subscriber_id)
                &&& is_record_key(enrollment@.token_id)
                &&& is_subscription_token(enrollment@.subscription_token)
                &&& action@ == ActionView::Execute(StatementView::Begin)
            },
            Err(error) => form_fault(data.name@, data.email@) is Some && error
                == SubscribeError::BadRequest(form_fault(data.name@, data.email@)->0),
        },
{
    let subscriber = match parse_subscriber(data) {
        Ok(subscriber) => subscriber,
        Err(error) => {
            return Err(error);
        },
    };
    let subscriber_id = new_record_key();
    let token_id = new_record_key();
    let subscription_token = generate_subscription_token();
    Ok(
        Enrollment::begin(
            subscriber,
            base_url.to_owned(),
            subscriber_id,
            token_id,
            subscription_token,
        ),
    )
}

/// The state of an enrollment after the first `steps` of `replies`.
pub open spec fn state_after(start: EnrollmentView, replies: Seq<Reply>, steps: nat) -> EnrollmentView
    decreases steps,
{
    if steps == 0 {
        start
    } else {
        state_after(start, replies, (steps - 1) as nat).next(replies[steps - 1])
    }
}

/// The store after the first `steps` of `replies`, where each statement
/// that the enrollment sends is answered by the store as `replies` say.
pub open spec fn store_after(
    start: EnrollmentView,
    store: StoreModel,
    replies: Seq<Reply>,
    steps: nat,
) -> StoreModel
    decreases steps,
{
    if steps == 0 {
        store
    } else {
        let before = store_after(start, store, replies, (steps - 1) as nat);
        match state_after(start, replies, (steps - 1) as nat).awaited() {
            ActionView::Execute(statement) => before.answer(statement, replies[steps - 1]),
            _ => before,
        }
    }
}

/// How many messages the enrollment has handed to the email client within
/// its first `steps` steps.
pub open spec fn emails_handed_over(start: EnrollmentView, replies: Seq<Reply>, steps: nat) -> nat
    decreases steps,
{
    if steps == 0 {
        0
    } else {
        let before = emails_handed_over(start, replies, (steps - 1) as nat);
        if state_after(start, replies, steps).awaited() is Send {
            before + 1
        } else {
            before
        }
    }
}

/// The first `count` answers, of at most four, are acceptances. The first
/// four requests of an enrollment are `BEGIN`, the subscriber, the token
/// and `COMMIT`.
pub open spec fn accepted_up_to(replies: Seq<Reply>, count: nat) -> bool {
    &&& count >= 1 ==> replies[0] == Reply::Accepted
    &&& count >= 2 ==> replies[1] == Reply::Accepted
    &&& count >= 3 ==> replies[2] == Reply::Accepted
    &&& count >= 4 ==> replies[3] == Reply::Accepted
}

/// Within the first `steps` answers the store has accepted `COMMIT`: it is
/// the fourth request, and it is sent only if the three before it were
/// accepted.
pub open spec fn commit_accepted(replies: Seq<Reply>, steps: nat) -> bool {
    steps >= 4 && accepted_up_to(replies, 4)
}

/// A fresh enrollment: nothing has been answered yet.
pub open spec fn is_fresh(start: EnrollmentView) -> bool {
    start.phase == EnrollmentPhase::Opening && start.transaction is None
}

/// The records that an enrollment adds to those of a store.
pub open spec fn records_with_enrollment(start: EnrollmentView, store: StoreModel) -> Records {
    store.visible.write(
        StatementView::CreateSubscriber {
            id: start.subscriber_id,
            email: start.email,
            name: start.name,
            status: SubscriptionStatus::PendingConfirmation,
        },
    ).write(
        StatementView::CreateToken {
            id: start.token_id,
            subscription_token: start.subscription_token,
            subscriber_id: start.subscriber_id,
        },
    )
}

/// Where an enrollment and the store stand after each number of steps.
proof fn lemma_enrollment_run(
    start: EnrollmentView,
    store: StoreModel,
    replies: Seq<Reply>,
    steps: nat,
)
    requires
        is_fresh(start),
        store.staged is None,
        steps <= replies.len(),
    ensures
        ({
            let state = state_after(start, replies, steps);
            let stored = store_after(start, store, replies, steps);
            let emails = emails_handed_over(start, replies, steps);
            let subscriber = StatementView::CreateSubscriber {
                id: start.subscriber_id,
                email: start.email,
                name: start.name,
                status: SubscriptionStatus::PendingConfirmation,
            };
            &&& state == start.with(state.phase, state.transaction)
            &&& state.consistent()
            &&& if accepted_up_to(replies, if steps <= 4 { steps } else { 4 }) {
                &&& steps == 0 ==> state.phase == EnrollmentPhase::Opening && stored == store
                &&& steps == 1 ==> state.phase == EnrollmentPhase::InsertingSubscriber && stored == (
                StoreModel { visible: store.visible, staged: Some(store.visible) })
                &&& steps == 2 ==> state.phase == EnrollmentPhase::StoringToken && stored == (
                StoreModel { visible: store.visible, staged: Some(store.visible.write(subscriber)) })
                &&& steps == 3 ==> state.phase == EnrollmentPhase::Committing && stored == (
                StoreModel {
                    visible: store.visible,
                    staged: Some(records_with_enrollment(start, store)),
                })
                &&& steps == 4 ==> state.phase == EnrollmentPhase::Notifying
                &&& steps == 5 ==> state.phase == EnrollmentPhase::Finished(
                    if replies[4] == Reply::Accepted {
                        Ok(())
                    } else {
                        Err(SubscribeError::EmailFailure)
                    },
                )
                &&& steps >= 5 ==> state.phase == state_after(start, replies, 5).phase
                &&& steps >= 4 ==> stored == (StoreModel {
                    visible: records_with_enrollment(start, store),
                    staged: None,
                })
                &&& emails == if steps >= 4 {
                    1nat
                } else {
                    0nat
                }
            } else {
                &&& state.phase == EnrollmentPhase::RollingBack || state.phase
                    == EnrollmentPhase::Finished(Err(SubscribeError::PersistenceFailure))
                &&& stored.visible == store.visible
                &&& emails == 0
            }
        }),
    decreases steps,
{
    if steps > 0 {
        lemma_enrollment_run(start, store, replies, (steps - 1) as nat);
        if steps > 5 {
            lemma_enrollment_run(start, store, replies, 5);
        }
    }
}

/// The confirmation email follows the commit and nothing else: an
/// enrollment hands one message to the email client if the store accepted
/// `COMMIT`, and none if it did not, however the run went and however long
/// it is watched.
pub proof fn lemma_email_is_sent_after_commit_only(
    start: EnrollmentView,
    replies: Seq<Reply>,
    steps: nat,
)
    requires
        is_fresh(start),
        steps <= replies.len(),
    ensures
        emails_handed_over(start, replies, steps) == if commit_accepted(replies, steps) {
            1nat
        } else {
            0nat
        },
        steps >= 3 ==> (state_after(start, replies, 3).phase == EnrollmentPhase::Committing
            <==> accepted_up_to(replies, 3)),
        commit_accepted(replies, steps) ==> state_after(start, replies, 4).awaited()
            == ActionView::Send(
            confirmation_email_of(start.email, start.base_url, start.subscription_token),
        ),
{
    let store = StoreModel::empty();
    lemma_enrollment_run(start, store, replies, steps);
    if steps >= 3 {
        lemma_enrollment_run(start, store, replies, 3);
    }
    if steps >= 4 {
        lemma_enrollment_run(start, store, replies, 4);
    }
}

/// An enrollment is stored whole or not at all. If the store accepted
/// `COMMIT`, the subscriber and the token are visible; in every other run
/// the visible records are what they were before. So where the token is
/// rejected after the subscriber was accepted, no subscriber is visible
/// afterwards.
pub proof fn lemma_enrollment_is_all_or_nothing(
    start: EnrollmentView,
    store: StoreModel,
    replies: Seq<Reply>,
    steps: nat,
)
    requires
        is_fresh(start),
        store.staged is None,
        steps <= replies.len(),
    ensures
        store_after(start, store, replies, steps).visible == if commit_accepted(replies, steps) {
            records_with_enrollment(start, store)
        } else {
            store.visible
        },
        steps >= 3 && replies[0] == Reply::Accepted && replies[1] == Reply::Accepted && replies[2]
            == Reply::Rejected ==> store_after(start, store, replies, steps).visible
            == store.visible,
{
    lemma_enrollment_run(start, store, replies, steps);
}

/// What an enrollment stores is one subscriber, pending confirmation, and
/// one token bound to that subscriber. Every other subscriber and the
/// binding of every other token stay as they were.
pub proof fn lemma_enrollment_stores_one_pending_subscriber(start: EnrollmentView, store: StoreModel)
    ensures
        ({
            let before = store.visible;
            let after = records_with_enrollment(start, store);
            &&& after.subscribers.contains_key(start.subscriber_id)
            &&& after.subscribers[start.subscriber_id] == (SubscriberRow {
                email: start.email,
                name: start.name,
                status: SubscriptionStatus::PendingConfirmation,
            })
            &&& after.tokens.contains_key(start.subscription_token)
            &&& after.tokens[start.subscription_token] == start.subscriber_id
            &&& forall|id: Seq<char>|
                id != start.subscriber_id ==> (#[trigger] after.subscribers.contains_key(id)
                    == before.subscribers.contains_key(id)) && after.subscribers[id]
                    == before.subscribers[id]
            &&& forall|token: Seq<char>|
                token != start.subscription_token ==> (#[trigger] after.tokens.contains_key(token)
                    == before.tokens.contains_key(token)) && after.tokens[token]
                    == before.tokens[token]
        }),
{
}

/// No enrollment ends with its transaction open and forgotten: one that is
/// over has either ended its transaction, or is the one whose `CANCEL` the
/// store rejected, and for that, as for every enrollment with an open
/// transaction, giving it up sends `CANCEL` once more.
pub proof fn lemma_open_transaction_is_cancelled(start: EnrollmentView, replies: Seq<Reply>, steps: nat)
    requires
        is_fresh(start),
        steps <= replies.len(),
    ensures
        state_after(start, replies, steps).consistent(),
        state_after(start, replies, steps).phase is Finished && state_after(
            start,
            replies,
            steps,
        ).transaction == Some(TransactionState::Open) ==> exists|k: nat|
            k < steps && state_after(start, replies, k).phase == EnrollmentPhase::RollingBack
                && replies[k as int] == Reply::Rejected,
{
    let store = StoreModel::empty();
    lemma_enrollment_run(start, store, replies, steps);
    lemma_finished_open_was_rolling_back(start, replies, steps);
}

proof fn lemma_finished_open_was_rolling_back(start: EnrollmentView, replies: Seq<Reply>, steps: nat)
    requires
        is_fresh(start),
        steps <= replies.len(),
    ensures
        state_after(start, replies, steps).phase is Finished && state_after(
            start,
            replies,
            steps,
        ).transaction == Some(TransactionState::Open) ==> exists|k: nat|
            k < steps && state_after(start, replies, k).phase == EnrollmentPhase::RollingBack
                && replies[k as int] == Reply::Rejected,
    decreases steps,
{
    if steps > 0 {
        let before = (steps - 1) as nat;
        lemma_finished_open_was_rolling_back(start, replies, before);
        let store = StoreModel::empty();
        lemma_enrollment_run(start, store, replies, before);
        let now = state_after(start, replies, steps);
        if now.phase is Finished && now.transaction == Some(TransactionState::Open) {
            let earlier = state_after(start, replies, before);
            if earlier.phase == EnrollmentPhase::RollingBack {
                assert(replies[before as int] == Reply::Rejected);
            } else {
                assert(earlier.phase is Finished);
                let k = choose|k: nat|
                    k < before && state_after(start, replies, k).phase
                        == EnrollmentPhase::RollingBack && replies[k as int] == Reply::Rejected;
                assert(k < steps);
            }
        }
    }
}

} // verus!
