//! Type wrapper for a subscriber's name. The rules are those of
//! [`crate::domain::user_name`].

use vstd::prelude::*;
use crate::domain::text::{grapheme_count, is_blank};
use crate::domain::user_name::{contains_forbidden_name_char, user_name_error, valid_user_name};

verus! {

/// Type wrapper for a subscriber's name.
#[derive(Debug)]
pub struct SubscriberName(String);

impl View for SubscriberName {
    type V = Seq<char>;

    closed spec fn view(&self) -> Seq<char> {
        self.0@
    }
}

impl SubscriberName {
    /// Validates a raw string into a subscriber name, accepting it exactly
    /// when [`valid_user_name`] holds of it.
    pub fn parse(s: String) -> (r: Result<Self, String>)
        ensures
            valid_user_name(s@) ==> (r matches Ok(name) && name@ == s@),
            !valid_user_name(s@) ==> (r matches Err(e) && e@ == user_name_error(s@)),
    {
        if is_blank(s.as_str()) {
            Err("User name cannot be empty".to_owned())
        } else if grapheme_count(s.as_str()) > 256 {
            Err("Please enter a shorter name.".to_owned())
        } else if contains_forbidden_name_char(s.as_str()) {
            Err("Name contains illegal characters, please remove and try again.".to_owned())
        } else {
            Ok(SubscriberName(s))
        }
    }

    /// The validated name as a string slice.
    pub fn as_ref(&self) -> (r: &str)
        ensures
            r@ == self@,
    {
        self.0.as_str()
    }
}

} // verus!
