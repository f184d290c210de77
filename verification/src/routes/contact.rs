//! Contact handler: validates a contact-form submission, stores it under a
//! name-based contact id, and answers — refusing a second submission from
//! the same address as a conflict.

use vstd::prelude::*;
use vstd::string::StringExecFns;
use crate::domain::contact_message::{contact_message_error, valid_contact_message, ContactMessage};
use crate::domain::user_email::{is_valid_email, user_email_error, UserEmail};
use crate::domain::user_name::{user_name_error, valid_user_name, UserName};
use crate::domain::verified_contact_form::VerifiedContactForm;
use crate::routes::{
    Response, ResponseView, STATUS_BAD_REQUEST, STATUS_CONFLICT, STATUS_INTERNAL_SERVER_ERROR,
    STATUS_OK,
};

verus! {

/// The raw fields of a contact form submission.
#[derive(Debug)]
pub struct ContactFormData {
    pub name: String,
    pub email: String,
    pub message: String,
}

impl VerifiedContactForm {
    /// Validates raw form data into a contact submission: the name first,
    /// then the email, then the message.
    pub fn try_from(value: ContactFormData) -> (r: Result<VerifiedContactForm, String>)
        ensures
            !valid_user_name(value.name@) ==> (r matches Err(e) && e@ == user_name_error(
                value.name@,
            )),
            valid_user_name(value.name@) && !is_valid_email(value.email@) ==> (r matches Err(e)
                && e@ == user_email_error(value.email@)),
            valid_user_name(value.name@) && is_valid_email(value.email@) && !valid_contact_message(
                value.message@,
            ) ==> (r matches Err(e) && e@ == contact_message_error(value.message@)),
            valid_user_name(value.name@) && is_valid_email(value.email@) && valid_contact_message(
                value.message@,
            ) ==> (r matches Ok(form) && form.name@ == value.name@ && form.email@ == value.email@
                && form.message@ == value.message@),
    {
        let name = match UserName::parse(value.name) {
            Ok(n) => n,
            Err(e) => {
                return Err(e);
            },
        };
        let email = match UserEmail::parse(value.email) {
            Ok(e) => e,
            Err(e) => {
                return Err(e);
            },
        };
        let message = match ContactMessage::parse(value.message) {
            Ok(m) => m,
            Err(e) => {
                return Err(e);
            },
        };
        Ok(VerifiedContactForm { name, email, message })
    }
}

/// What the contact handler failed with: a user-correctable validation
/// error, or an unexpected storage failure.
#[derive(Debug)]
pub enum ContactError {
    ValidationError(String),
    UnexpectedError(String),
}

impl ContactError {
    /// The status code the error answers with.
    pub fn status_code(&self) -> (r: u16)
        ensures
            self is ValidationError ==> r == STATUS_BAD_REQUEST,
            self is UnexpectedError ==> r == STATUS_INTERNAL_SERVER_ERROR,
    {
        match self {
            ContactError::ValidationError(_) => STATUS_BAD_REQUEST,
            ContactError::UnexpectedError(_) => STATUS_INTERNAL_SERVER_ERROR,
        }
    }

    /// The message the error carries.
    pub fn message(&self) -> (r: &String)
        ensures
            self matches ContactError::ValidationError(m) ==> r@ == m@,
            self matches ContactError::UnexpectedError(m) ==> r@ == m@,
    {
        match self {
            ContactError::ValidationError(m) => m,
            ContactError::UnexpectedError(m) => m,
        }
    }
}

/// The contact id derived from an email address.
pub uninterp spec fn contact_uuid(email: Seq<char>) -> u128;

/// Relies on uuid's `Uuid::new_v5` under the DNS namespace: a name-based,
/// SHA-1 derived identifier, a function of the email bytes alone — the
/// same address always maps to the same contact id.
#[verifier::external_body]
fn contact_id_for(email: &str) -> (r: u128)
    ensures
        r == contact_uuid(email@),
{
    uuid::Uuid::new_v5(&uuid::Uuid::NAMESPACE_DNS, email.as_bytes()).as_u128()
}

/// The JSON string literal (quoted and escaped) encoding the characters.
pub uninterp spec fn json_string(s: Seq<char>) -> Seq<char>;

/// Relies on serde_json's `to_string` for a string value: the JSON string
/// literal is a function of the characters alone.
#[verifier::external_body]
fn json_encode_string(s: &String) -> (r: Option<String>)
    ensures
        r matches Some(j) ==> j@ == json_string(s@),
{
    serde_json::to_string(s).ok()
}

/// The body a rejection is answered with: a JSON object carrying the
/// reason.
pub open spec fn reason_body(reason: Seq<char>) -> Seq<char> {
    "{\"reason\":"@ + json_string(reason) + "}"@
}

/// The body answered when even the rejection could not be encoded.
pub open spec fn fallback_body() -> Seq<char> {
    "Something went wrong, please try again."@
}

/// The reason a repeated submission is refused with.
pub open spec fn duplicate_contact_reason() -> Seq<char> {
    "It appears that you have already reached out. We will get in touch at our earliest convenience."@
}

/// The reason a submission with invalid fields is refused with: the
/// message of the first field that failed.
pub open spec fn contact_form_error(name: Seq<char>, email: Seq<char>, message: Seq<char>) -> Seq<char> {
    if !valid_user_name(name) {
        user_name_error(name)
    } else if !is_valid_email(email) {
        user_email_error(email)
    } else {
        contact_message_error(message)
    }
}

/// Whether every field of the submission passes validation.
pub open spec fn valid_contact_form(name: Seq<char>, email: Seq<char>, message: Seq<char>) -> bool {
    valid_user_name(name) && is_valid_email(email) && valid_contact_message(message)
}

/// One stored contact row.
pub struct ContactRecord {
    pub id: u128,
    pub email: String,
    pub name: String,
    pub message: String,
}

/// The mathematical value of a [`ContactRecord`].
#[verifier::ext_equal]
pub struct ContactRecordView {
    pub id: u128,
    pub email: Seq<char>,
    pub name: Seq<char>,
    pub message: Seq<char>,
}

impl View for ContactRecord {
    type V = ContactRecordView;

    open spec fn view(&self) -> ContactRecordView {
        ContactRecordView {
            id: self.id,
            email: self.email@,
            name: self.name@,
            message: self.message@,
        }
    }
}

/// Index of the first contact with the given id, searching from `i`.
pub open spec fn find_contact_from(s: Seq<ContactRecordView>, id: u128, i: int) -> Option<int>
    decreases s.len() - i,
{
    if i < 0 || i >= s.len() {
        None
    } else if s[i].id == id {
        Some(i)
    } else {
        find_contact_from(s, id, i + 1)
    }
}

/// Index of the first contact with the given id, if any.
pub open spec fn find_contact(s: Seq<ContactRecordView>, id: u128) -> Option<int> {
    find_contact_from(s, id, 0)
}

/// Why a contact row could not be stored.
#[derive(Clone, Copy, PartialEq, Eq, Structural, Debug)]
pub enum ContactInsertError {
    /// A row with the same contact id — the same address — already exists.
    DuplicateContact,
}

/// The durable contact store, keyed by the name-based contact id, one row
/// per address.
pub struct ContactStore {
    contacts: Vec<ContactRecord>,
}

impl View for ContactStore {
    type V = Seq<ContactRecordView>;

    closed spec fn view(&self) -> Seq<ContactRecordView> {
        self.contacts@.map_values(|c: ContactRecord| c@)
    }
}

impl ContactStore {
    /// An empty store.
    pub fn new() -> (r: ContactStore)
        ensures
            r@ == Seq::<ContactRecordView>::empty(),
    {
        let r = ContactStore { contacts: Vec::new() };
        proof {
            assert(r@ =~= Seq::<ContactRecordView>::empty());
        }
        r
    }

    /// Stores a validated submission under the contact id derived from its
    /// address; a second submission from the same address is refused and
    /// changes nothing.
    pub fn insert_contact(&mut self, form: &VerifiedContactForm) -> (r: Result<
        u128,
        ContactInsertError,
    >)
        ensures
            match find_contact(old(self)@, contact_uuid(form.email@)) {
                Some(_) => r matches Err(ContactInsertError::DuplicateContact) && final(self)@
                    == old(self)@,
                None => r matches Ok(id) && id == contact_uuid(form.email@) && final(self)@ == old(
                    self,
                )@.push(
                    ContactRecordView {
                        id: contact_uuid(form.email@),
                        email: form.email@,
                        name: form.name@,
                        message: form.message@,
                    },
                ),
            },
    {
        let contact_id = contact_id_for(form.email.as_ref());
        let n = self.contacts.len();
        let mut i: usize = 0;
        while i < n
            invariant
                n == self@.len(),
                i <= n,
                contact_id == contact_uuid(form.email@),
                find_contact(self@, contact_id) == find_contact_from(self@, contact_id, i as int),
                self == old(self),
            decreases n - i,
        {
            if self.contacts[i].id == contact_id {
                assert(self@[i as int].id == contact_id);
                assert(find_contact(self@, contact_id) == Some(i as int));
                return Err(ContactInsertError::DuplicateContact);
            }
            assert(self@[i as int].id != contact_id);
            i = i + 1;
        }
        let record = ContactRecord {
            id: contact_id,
            email: form.email.as_ref().to_owned(),
            name: form.name.as_ref().to_owned(),
            message: form.message.as_ref().to_owned(),
        };
        let ghost rv = record@;
        self.contacts.push(record);
        proof {
            assert(final(self)@ =~= old(self)@.push(rv));
        }
        Ok(contact_id)
    }

    /// How many contact rows the store holds.
    pub fn contact_count(&self) -> (r: usize)
        ensures
            r == self@.len(),
    {
        self.contacts.len()
    }
}

/// Handles one contact submission: a valid, first-time submission is
/// stored and acknowledged; a repeated one is refused as a conflict; an
/// invalid one is refused with the reason. Rejections carry a JSON reason
/// body — or the fallback body with an internal-error status in the odd
/// case that even encoding the reason failed.
pub fn contact(store: &mut ContactStore, form: ContactFormData) -> (r: Response)
    ensures
        !valid_contact_form(form.name@, form.email@, form.message@) ==> (final(store)@ == old(
            store,
        )@ && (r@ == ResponseView {
            status: STATUS_BAD_REQUEST,
            body: reason_body(contact_form_error(form.name@, form.email@, form.message@)),
        } || r@ == ResponseView { status: STATUS_INTERNAL_SERVER_ERROR, body: fallback_body() })),
        valid_contact_form(form.name@, form.email@, form.message@) && find_contact(
            old(store)@,
            contact_uuid(form.email@),
        ) is Some ==> (final(store)@ == old(store)@ && (r@ == ResponseView {
            status: STATUS_CONFLICT,
            body: reason_body(duplicate_contact_reason()),
        } || r@ == ResponseView { status: STATUS_INTERNAL_SERVER_ERROR, body: fallback_body() })),
        valid_contact_form(form.name@, form.email@, form.message@) && find_contact(
            old(store)@,
            contact_uuid(form.email@),
        ) is None ==> (final(store)@ == old(store)@.push(
            ContactRecordView {
                id: contact_uuid(form.email@),
                email: form.email@,
                name: form.name@,
                message: form.message@,
            },
        ) && r@ == ResponseView { status: STATUS_OK, body: Seq::empty() }),
{
    match VerifiedContactForm::try_from(form) {
        Ok(new_contact) => match store.insert_contact(&new_contact) {
            Ok(_) => Response { status: STATUS_OK, body: String::new() },
            Err(ContactInsertError::DuplicateContact) => {
                let reason =
                    "It appears that you have already reached out. We will get in touch at our earliest convenience.".to_owned();
                match json_encode_string(&reason) {
                    Some(encoded) => {
                        let body = "{\"reason\":".to_owned().concat(encoded.as_str()).concat("}");
                        proof {
                            assert(body@ =~= reason_body(duplicate_contact_reason()));
                        }
                        Response { status: STATUS_CONFLICT, body }
                    },
                    None => Response {
                        status: STATUS_INTERNAL_SERVER_ERROR,
                        body: "Something went wrong, please try again.".to_owned(),
                    },
                }
            },
        },
        Err(error) => match json_encode_string(&error) {
            Some(encoded) => {
                let body = "{\"reason\":".to_owned().concat(encoded.as_str()).concat("}");
                proof {
                    assert(body@ =~= reason_body(
                        contact_form_error(form.name@, form.email@, form.message@),
                    ));
                }
                Response { status: STATUS_BAD_REQUEST, body }
            },
            None => Response {
                status: STATUS_INTERNAL_SERVER_ERROR,
                body: "Something went wrong, please try again.".to_owned(),
            },
        },
    }
}

} // verus!
