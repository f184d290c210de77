//! Type wrapper for a user's email address.

use vstd::prelude::*;
use vstd::string::StringExecFns;

verus! {

/// Whether the string is a valid email address, as the outside validation
/// below judges it.
pub uninterp spec fn is_valid_email(s: Seq<char>) -> bool;

/// Relies on validator's `ValidateEmail::validate_email` for `String` (the
/// HTML5 e-mail shape): the verdict is a function of the characters alone,
/// and an empty string, or one without '@', is rejected.
#[verifier::external_body]
fn validate_email(s: &String) -> (r: bool)
    ensures
        r == is_valid_email(s@),
        s@.len() == 0 ==> !r,
        !s@.contains('@') ==> !r,
{
    validator::ValidateEmail::validate_email(s)
}

/// The message a rejected address is refused with.
pub open spec fn user_email_error(s: Seq<char>) -> Seq<char> {
    s + " is not a valid email."@
}

/// Type wrapper for a user's email address.
#[derive(Debug)]
pub struct UserEmail(String);

impl View for UserEmail {
    type V = Seq<char>;

    closed spec fn view(&self) -> Seq<char> {
        self.0@
    }
}

impl UserEmail {
    /// Validates a raw string into an email address, accepting it exactly
    /// when [`is_valid_email`] holds of it.
    pub fn parse(s: String) -> (r: Result<UserEmail, String>)
        ensures
            is_valid_email(s@) ==> (r matches Ok(email) && email@ == s@),
            !is_valid_email(s@) ==> (r matches Err(e) && e@ == user_email_error(s@)),
    {
        if validate_email(&s) {
            Ok(UserEmail(s))
        } else {
            Err(s.concat(" is not a valid email."))
        }
    }

    /// The validated address as a string slice.
    pub fn as_ref(&self) -> (r: &str)
        ensures
            r@ == self@,
    {
        self.0.as_str()
    }

    /// The validated address as the owned string it wraps.
    pub fn as_string(&self) -> (r: &String)
        ensures
            r@ == self@,
    {
        &self.0
    }

    /// An exact copy of the address.
    pub fn duplicate(&self) -> (r: UserEmail)
        ensures
            r@ == self@,
    {
        UserEmail(self.0.clone())
    }
}

} // verus!
