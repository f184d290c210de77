//! A validated contact-form submission: an address, a name and a message
//! that all passed validation.

use crate::domain::contact_message::ContactMessage;
use crate::domain::user_email::UserEmail;
use crate::domain::user_name::UserName;
use vstd::prelude::*;

verus! {

/// A validated contact-form submission.
#[derive(Debug)]
pub struct VerifiedContactForm {
    pub email: UserEmail,
    pub name: UserName,
    pub message: ContactMessage,
}

} // verus!
