//! A validated new subscriber: an address and a name that both passed
//! validation.

use crate::domain::user_email::UserEmail;
use crate::domain::user_name::UserName;
use vstd::prelude::*;

verus! {

/// A validated new subscriber.
#[derive(Debug)]
pub struct NewSubscriber {
    pub email: UserEmail,
    pub name: UserName,
}

} // verus!
