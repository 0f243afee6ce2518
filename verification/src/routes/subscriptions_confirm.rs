//! Confirmation: the token of a confirmation link turns the subscriber
//! that it belongs to from pending to confirmed.

use crate::db::Records;
use crate::db::Reply;
use crate::db::Statement;
use crate::db::StatementView;
use crate::db::StoreModel;
use crate::db::SubscriptionStatus;
use crate::error::ConfirmationError;
use vstd::prelude::*;

verus! {

/// The parameters of a confirmation link.
#[derive(Debug)]
pub struct Parameters {
    pub subscription_token: String,
}

/// The store's answer to the search for the subscriber of a token.
#[derive(Debug)]
pub enum TokenLookup {
    /// The id of the subscriber that the token belongs to.
    Found(String),
    NotFound,
    /// The search itself failed.
    Failed,
}

/// A [`TokenLookup`] as mathematical values.
pub enum TokenLookupView {
    Found(Seq<char>),
    NotFound,
    Failed,
}

impl View for TokenLookup {
    type V = TokenLookupView;

    open spec fn view(&self) -> TokenLookupView {
        match self {
            TokenLookup::Found(subscriber_id) => TokenLookupView::Found(subscriber_id@),
            TokenLookup::NotFound => TokenLookupView::NotFound,
            TokenLookup::Failed => TokenLookupView::Failed,
        }
    }
}

/// What the caller is to do next.
#[derive(Debug)]
pub enum ConfirmationAction {
    /// Run the statement.
    Execute(Statement),
    /// Answer the request.
    Finish(Result<(), ConfirmationError>),
}

/// A [`ConfirmationAction`] as mathematical values.
pub enum ConfirmationActionView {
    Execute(StatementView),
    Finish(Result<(), ConfirmationError>),
}

impl View for ConfirmationAction {
    type V = ConfirmationActionView;

    open spec fn view(&self) -> ConfirmationActionView {
        match self {
            ConfirmationAction::Execute(statement) => ConfirmationActionView::Execute(statement@),
            ConfirmationAction::Finish(outcome) => ConfirmationActionView::Finish(*outcome),
        }
    }
}

/// The statement that searches the subscriber that a token belongs to.
pub fn get_subscriber_id_from_token(subscription_token: &str) -> (statement: Statement)
    ensures
        statement@ == (StatementView::FindSubscriberByToken {
            subscription_token: subscription_token@,
        }),
{
    Statement::FindSubscriberByToken { subscription_token: subscription_token.to_owned() }
}

/// The statement that marks a subscriber as confirmed. It sets the status
/// whatever it was, so that confirming again changes nothing.
pub fn confirm_subscriber(subscriber_id: &str) -> (statement: Statement)
    ensures
        statement@ == (StatementView::ConfirmSubscriber {
            subscriber_id: subscriber_id@,
            status: SubscriptionStatus::Confirmed,
        }),
{
    Statement::ConfirmSubscriber {
        subscriber_id: subscriber_id.to_owned(),
        status: SubscriptionStatus::Confirmed,
    }
}

/// What follows from the answer to the search.
pub open spec fn after_lookup(lookup: TokenLookupView) -> ConfirmationActionView {
    match lookup {
        TokenLookupView::Found(subscriber_id) => ConfirmationActionView::Execute(
            StatementView::ConfirmSubscriber { subscriber_id, status: SubscriptionStatus::Confirmed },
        ),
        TokenLookupView::NotFound => ConfirmationActionView::Finish(
            Err(ConfirmationError::UnknownToken),
        ),
        TokenLookupView::Failed => ConfirmationActionView::Finish(
            Err(ConfirmationError::UnexpectedError),
        ),
    }
}

/// How a confirmation ends, given the store's answer to the update.
pub open spec fn after_update(reply: Reply) -> Result<(), ConfirmationError> {
    if reply == Reply::Accepted {
        Ok(())
    } else {
        Err(ConfirmationError::UnexpectedError)
    }
}

/// Takes the answer to the search: a subscriber found is to be confirmed, a
/// token that belongs to nobody is refused.
pub fn handler_confirm(lookup: TokenLookup) -> (action: ConfirmationAction)
    ensures
        action@ == after_lookup(lookup@),
{
    match lookup {
        TokenLookup::Found(subscriber_id) => ConfirmationAction::Execute(
            confirm_subscriber(subscriber_id.as_str()),
        ),
        TokenLookup::NotFound => ConfirmationAction::Finish(Err(ConfirmationError::UnknownToken)),
        TokenLookup::Failed => ConfirmationAction::Finish(Err(ConfirmationError::UnexpectedError)),
    }
}

/// Takes the answer to the update.
pub fn handle_update(reply: Reply) -> (outcome: Result<(), ConfirmationError>)
    ensures
        outcome == after_update(reply),
{
    match reply {
        Reply::Accepted => Ok(()),
        Reply::Rejected => Err(ConfirmationError::UnexpectedError),
    }
}

/// What a store answers to the search for the subscriber of a token.
pub open spec fn lookup_in(records: Records, token: Seq<char>) -> TokenLookupView {
    if records.tokens.contains_key(token) {
        TokenLookupView::Found(records.tokens[token])
    } else {
        TokenLookupView::NotFound
    }
}

/// A confirmation against a store that answers every statement: the store
/// afterwards, and the outcome.
pub open spec fn confirm_in(store: StoreModel, token: Seq<char>) -> (StoreModel, Result<
    (),
    ConfirmationError,
>) {
    match after_lookup(lookup_in(store.visible, token)) {
        ConfirmationActionView::Execute(statement) => (
            store.accept(statement),
            after_update(Reply::Accepted),
        ),
        ConfirmationActionView::Finish(outcome) => (store, outcome),
    }
}

/// Confirming is idempotent. With a token that belongs to a subscriber, a
/// first and a second confirmation both succeed, the subscriber is
/// confirmed after each, and the second leaves the store as the first left
/// it.
pub proof fn lemma_confirmation_is_idempotent(store: StoreModel, token: Seq<char>)
    requires
        store.staged is None,
        store.visible.tokens.contains_key(token),
        store.visible.subscribers.contains_key(store.visible.tokens[token]),
    ensures
        ({
            let subscriber_id = store.visible.tokens[token];
            let (first_store, first) = confirm_in(store, token);
            let (second_store, second) = confirm_in(first_store, token);
            &&& first == Ok::<(), ConfirmationError>(())
            &&& second == Ok::<(), ConfirmationError>(())
            &&& first_store.visible.subscribers[subscriber_id].status
                == SubscriptionStatus::Confirmed
            &&& second_store.visible.subscribers[subscriber_id].status
                == SubscriptionStatus::Confirmed
            &&& second_store == first_store
        }),
{
    let (first_store, first) = confirm_in(store, token);
    let (second_store, second) = confirm_in(first_store, token);
    assert(second_store.visible.subscribers =~= first_store.visible.subscribers);
}

/// A confirmation changes the status of the subscriber of its token and
/// nothing else: no token is bound anew, and every other subscriber, and
/// the name and the address of this one, stay as they were.
pub proof fn lemma_confirmation_changes_one_status(store: StoreModel, token: Seq<char>)
    requires
        store.staged is None,
    ensures
        ({
            let after = confirm_in(store, token).0;
            &&& after.staged is None
            &&& after.visible.tokens == store.visible.tokens
            &&& forall|id: Seq<char>| #[trigger]
                after.visible.subscribers.contains_key(id) == store.visible.subscribers.contains_key(
                    id,
                )
            &&& forall|id: Seq<char>|
                store.visible.subscribers.contains_key(id) ==> {
                    &&& (#[trigger] after.visible.subscribers[id]).email
                        == store.visible.subscribers[id].email
                    &&& after.visible.subscribers[id].name == store.visible.subscribers[id].name
                    &&& lookup_in(store.visible, token) != TokenLookupView::Found(id)
                        ==> after.visible.subscribers[id] == store.visible.subscribers[id]
                }
        }),
{
}

/// A token that belongs to nobody is refused and changes nothing.
pub proof fn lemma_unknown_token_changes_nothing(store: StoreModel, token: Seq<char>)
    requires
        !store.visible.tokens.contains_key(token),
    ensures
        confirm_in(store, token) == (store, Err::<(), ConfirmationError>(ConfirmationError::UnknownToken)),
{
}

} // verus!
