//! Subscription handler: validates raw form data into a new subscriber,
//! stores it as pending confirmation together with a fresh confirmation
//! token — the transactional part — and builds the confirmation email for
//! the transport to send.

use vstd::prelude::*;
use vstd::string::StringExecFns;
use crate::domain::new_subscriber::NewSubscriber;
use crate::domain::user_email::{is_valid_email, user_email_error, UserEmail};
use crate::domain::user_name::{user_name_error, valid_user_name, UserName};
use crate::email_client::{ApplicationBaseUrl, EmailClient, SendEmailRequest};
use crate::routes::{STATUS_BAD_REQUEST, STATUS_INTERNAL_SERVER_ERROR};
use crate::subscribers::{find_email, SubscriberDirectory, SubscriberRecordView, TokenRecordView};

verus! {

/// The raw fields of a subscription form submission.
#[derive(Debug)]
pub struct SubscriptionFormData {
    pub email: String,
    pub name: String,
}

impl NewSubscriber {
    /// Validates raw form data into a new subscriber: the name first, then
    /// the email.
    pub fn try_from(value: SubscriptionFormData) -> (r: Result<NewSubscriber, String>)
        ensures
            !valid_user_name(value.name@) ==> (r matches Err(e) && e@ == user_name_error(
                value.name@,
            )),
            valid_user_name(value.name@) && !is_valid_email(value.email@) ==> (r matches Err(e)
                && e@ == user_email_error(value.email@)),
            valid_user_name(value.name@) && is_valid_email(value.email@) ==> (r matches Ok(n)
                && n.name@ == value.name@ && n.email@ == value.email@),
    {
        let name = match UserName::parse(value.name) {
            Ok(n) => n,
            Err(e) => {
                return Err(e);
            },
        };
        let email = match UserEmail::parse(value.email) {
            Ok(e) => e,
            Err(e) => {
                return Err(e);
            },
        };
        Ok(NewSubscriber { email, name })
    }
}

/// What the subscription handler failed with: a user-correctable
/// validation error, or an unexpected storage failure.
#[derive(Debug)]
pub enum SubscribeError {
    ValidationError(String),
    UnexpectedError(String),
}

impl SubscribeError {
    /// The status code the error answers with.
    pub fn status_code(&self) -> (r: u16)
        ensures
            self is ValidationError ==> r == STATUS_BAD_REQUEST,
            self is UnexpectedError ==> r == STATUS_INTERNAL_SERVER_ERROR,
    {
        match self {
            SubscribeError::ValidationError(_) => STATUS_BAD_REQUEST,
            SubscribeError::UnexpectedError(_) => STATUS_INTERNAL_SERVER_ERROR,
        }
    }

    /// The message the error carries.
    pub fn message(&self) -> (r: &String)
        ensures
            self matches SubscribeError::ValidationError(m) ==> r@ == m@,
            self matches SubscribeError::UnexpectedError(m) ==> r@ == m@,
    {
        match self {
            SubscribeError::ValidationError(m) => m,
            SubscribeError::UnexpectedError(m) => m,
        }
    }
}

/// The characters the subscription-token alphabet consists of: ASCII
/// digits and letters.
pub open spec fn is_token_char(c: char) -> bool {
    let u = c as u32;
    (0x30 <= u && u <= 0x39) || (0x41 <= u && u <= 0x5a) || (0x61 <= u && u <= 0x7a)
}

/// Relies on rand's `thread_rng`: a handle to the thread-local random
/// generator. Nothing is promised of it.
#[verifier::external_body]
fn fresh_rng() -> rand::rngs::ThreadRng {
    rand::thread_rng()
}

#[verifier::external_type_specification]
#[verifier::external_body]
pub struct ExThreadRng(rand::rngs::ThreadRng);

/// Relies on rand's `Alphanumeric` distribution: every sample is one of
/// a-z, A-Z and 0-9, whatever the generator returns.
#[verifier::external_body]
fn sample_alphanumeric(rng: &mut rand::rngs::ThreadRng) -> (r: char)
    ensures
        is_token_char(r),
{
    char::from(rand::Rng::sample(rng, rand::distributions::Alphanumeric))
}

/// Relies on `String::push`: appends exactly one character.
#[verifier::external_body]
fn push_char(s: &mut String, c: char)
    ensures
        final(s)@ == old(s)@.push(c),
{
    s.push(c);
}

/// Draws a fresh 25-character alphanumeric confirmation token.
pub fn generate_subscription_token() -> (r: String)
    ensures
        r@.len() == 25,
        forall|i: int| 0 <= i < r@.len() ==> is_token_char(r@[i]),
{
    let mut rng = fresh_rng();
    let mut token = String::new();
    let mut i: usize = 0;
    while i < 25
        invariant
            i <= 25,
            token@.len() == i,
            forall|j: int| 0 <= j < i ==> is_token_char(token@[j]),
        decreases 25 - i,
    {
        let c = sample_alphanumeric(&mut rng);
        push_char(&mut token, c);
        i = i + 1;
    }
    token
}

/// The confirmation link for the token.
pub open spec fn confirmation_link(base_url: Seq<char>, token: Seq<char>) -> Seq<char> {
    base_url + "/subscriptions/confirm?subscription_token="@ + token
}

/// The plain-text body of the confirmation email.
pub open spec fn confirmation_text(base_url: Seq<char>, token: Seq<char>) -> Seq<char> {
    "Welcome to our newsletter!\nVisit "@ + confirmation_link(base_url, token)
        + " to confirm your subscription"@
}

/// The HTML body of the confirmation email.
pub open spec fn confirmation_html(base_url: Seq<char>, token: Seq<char>) -> Seq<char> {
    "Welcome to our newsletter!<br />Click <a href=\""@ + confirmation_link(base_url, token)
        + "\">here</a> to confirm your subscription."@
}

/// Builds the confirmation email for a new subscriber: a welcome, and the
/// link that carries the confirmation token back.
pub fn send_confirmation_email(
    email_client: &EmailClient,
    new_subscriber: &NewSubscriber,
    base_url: &ApplicationBaseUrl,
    subscription_token: &str,
) -> (r: SendEmailRequest)
    ensures
        r@.from == email_client@.sender,
        r@.to == new_subscriber.email@,
        r@.subject == "Welcome!"@,
        r@.html_body == confirmation_html(base_url@, subscription_token@),
        r@.text_body == confirmation_text(base_url@, subscription_token@),
        r@.message_stream == "outbound"@,
{
    let confirmation_link: String = base_url.as_ref().to_owned().concat(
        "/subscriptions/confirm?subscription_token=",
    ).concat(subscription_token);
    let plain_body = "Welcome to our newsletter!\nVisit ".to_owned().concat(
        confirmation_link.as_str(),
    ).concat(" to confirm your subscription");
    let html_body = "Welcome to our newsletter!<br />Click <a href=\"".to_owned().concat(
        confirmation_link.as_str(),
    ).concat("\">here</a> to confirm your subscription.");
    let r = email_client.build_request(
        new_subscriber.email.as_ref(),
        "Welcome!",
        html_body.as_str(),
        plain_body.as_str(),
    );
    proof {
        assert(r@.html_body =~= confirmation_html(base_url@, subscription_token@));
        assert(r@.text_body =~= confirmation_text(base_url@, subscription_token@));
    }
    r
}

/// Handles one subscription submission: validates the form, stores the
/// subscriber as pending confirmation together with a fresh token — in one
/// atomic unit — and returns the confirmation email for the transport to
/// send.
pub fn subscribe(
    directory: &mut SubscriberDirectory,
    email_client: &EmailClient,
    base_url: &ApplicationBaseUrl,
    form: SubscriptionFormData,
) -> (r: Result<SendEmailRequest, SubscribeError>)
    ensures
        !valid_user_name(form.name@) ==> (r matches Err(SubscribeError::ValidationError(m))
            && m@ == user_name_error(form.name@) && final(directory)@ == old(directory)@),
        valid_user_name(form.name@) && !is_valid_email(form.email@) ==> (r matches Err(
            SubscribeError::ValidationError(m),
        ) && m@ == user_email_error(form.email@) && final(directory)@ == old(directory)@),
        valid_user_name(form.name@) && is_valid_email(form.email@) && find_email(
            old(directory)@.subscribers,
            form.email@,
        ) is Some ==> (r matches Err(SubscribeError::UnexpectedError(m)) && m@
            == "Failed to insert new subscriber in the database."@ && final(directory)@ == old(
            directory,
        )@),
        valid_user_name(form.name@) && is_valid_email(form.email@) && find_email(
            old(directory)@.subscribers,
            form.email@,
        ) is None ==> ({
            let subs = final(directory)@.subscribers;
            let toks = final(directory)@.tokens;
            &&& r matches Ok(request)
            &&& subs == old(directory)@.subscribers.push(
                SubscriberRecordView {
                    id: subs.last().id,
                    email: form.email@,
                    name: form.name@,
                    status: crate::subscribers::SubscriberStatus::PendingConfirmation,
                },
            )
            &&& toks == old(directory)@.tokens.push(
                TokenRecordView {
                    subscription_token: toks.last().subscription_token,
                    subscriber_id: subs.last().id,
                },
            )
            &&& toks.last().subscription_token.len() == 25
            &&& (forall|i: int|
                0 <= i < 25 ==> is_token_char(toks.last().subscription_token[i]))
            &&& request@.from == email_client@.sender
            &&& request@.to == form.email@
            &&& request@.subject == "Welcome!"@
            &&& request@.html_body == confirmation_html(
                base_url@,
                toks.last().subscription_token,
            )
            &&& request@.text_body == confirmation_text(
                base_url@,
                toks.last().subscription_token,
            )
        }),
{
    let new_subscriber = match NewSubscriber::try_from(form) {
        Ok(n) => n,
        Err(e) => {
            return Err(SubscribeError::ValidationError(e));
        },
    };
    let subscriber_id = match directory.insert_subscriber(&new_subscriber) {
        Ok(id) => id,
        Err(_) => {
            return Err(
                SubscribeError::UnexpectedError(
                    "Failed to insert new subscriber in the database.".to_owned(),
                ),
            );
        },
    };
    let subscription_token = generate_subscription_token();
    directory.store_token(subscriber_id, &subscription_token);
    let request = send_confirmation_email(
        email_client,
        &new_subscriber,
        base_url,
        subscription_token.as_str(),
    );
    Ok(request)
}

} // verus!
