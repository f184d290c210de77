//! Confirmation handler: resolves a confirmation token back to its
//! subscriber and marks them confirmed.

use vstd::prelude::*;
use crate::routes::{STATUS_INTERNAL_SERVER_ERROR, STATUS_UNAUTHORIZED};
use crate::subscribers::{
    find_subscriber, find_token, SubscriberDirectory, SubscriberRecordView, SubscriberStatus,
};

verus! {

/// The query parameters of a confirmation request.
#[derive(Debug)]
pub struct Parameters {
    pub subscription_token: String,
}

/// What the confirmation handler failed with: an unknown token, or an
/// unexpected storage failure.
#[derive(Debug)]
pub enum ConfirmSubscriptionError {
    Unauthorized(String),
    OtherError(String),
}

impl ConfirmSubscriptionError {
    /// The status code the error answers with.
    pub fn status_code(&self) -> (r: u16)
        ensures
            self is Unauthorized ==> r == STATUS_UNAUTHORIZED,
            self is OtherError ==> r == STATUS_INTERNAL_SERVER_ERROR,
    {
        match self {
            ConfirmSubscriptionError::Unauthorized(_) => STATUS_UNAUTHORIZED,
            ConfirmSubscriptionError::OtherError(_) => STATUS_INTERNAL_SERVER_ERROR,
        }
    }

    /// The message the error carries.
    pub fn message(&self) -> (r: &String)
        ensures
            self matches ConfirmSubscriptionError::Unauthorized(m) ==> r@ == m@,
            self matches ConfirmSubscriptionError::OtherError(m) ==> r@ == m@,
    {
        match self {
            ConfirmSubscriptionError::Unauthorized(m) => m,
            ConfirmSubscriptionError::OtherError(m) => m,
        }
    }
}

/// Handles one confirmation request: a known token marks its subscriber
/// confirmed; an unknown token is refused as unauthorized and changes
/// nothing.
pub fn confirm(directory: &mut SubscriberDirectory, parameters: &Parameters) -> (r: Result<
    (),
    ConfirmSubscriptionError,
>)
    ensures
        match find_token(old(directory)@.tokens, parameters.subscription_token@) {
            Some(i) => ({
                let id = old(directory)@.tokens[i].subscriber_id;
                &&& r is Ok
                &&& final(directory)@.tokens == old(directory)@.tokens
                &&& final(directory)@.subscribers == (match find_subscriber(
                    old(directory)@.subscribers,
                    id,
                ) {
                    Some(j) => old(directory)@.subscribers.update(
                        j,
                        SubscriberRecordView {
                            id: old(directory)@.subscribers[j].id,
                            email: old(directory)@.subscribers[j].email,
                            name: old(directory)@.subscribers[j].name,
                            status: SubscriberStatus::Confirmed,
                        },
                    ),
                    None => old(directory)@.subscribers,
                })
            }),
            None => r matches Err(ConfirmSubscriptionError::Unauthorized(m)) && m@
                == "The subscription token is not associated with any subscriber."@
                && final(directory)@ == old(directory)@,
        },
{
    match directory.get_subscriber_id_from_token(&parameters.subscription_token) {
        Some(subscriber_id) => {
            directory.confirm_subscriber(subscriber_id);
            Ok(())
        },
        None => Err(
            ConfirmSubscriptionError::Unauthorized(
                "The subscription token is not associated with any subscriber.".to_owned(),
            ),
        ),
    }
}

} // verus!
