//! Type wrapper for the message of a contact-form submission.

use vstd::prelude::*;
use vstd::string::StrSliceExecFns;
use vstd::utf8::encode_utf8;
use crate::domain::text::{is_blank, spec_blank};

verus! {

/// The characters a contact message must not contain.
pub open spec fn is_forbidden_message_char(c: char) -> bool {
    c == '<' || c == '>'
}

/// Whether the string contains a character a message must not contain.
pub open spec fn has_forbidden_message_char(s: Seq<char>) -> bool {
    exists|i: int| 0 <= i < s.len() && is_forbidden_message_char(s[i])
}

/// Whether the string contains a character a message must not contain.
pub fn contains_forbidden_message_char(s: &str) -> (r: bool)
    ensures
        r == has_forbidden_message_char(s@),
{
    let n = s.unicode_len();
    let mut i: usize = 0;
    while i < n
        invariant
            n == s@.len(),
            i <= n,
            forall|j: int| 0 <= j < i ==> !is_forbidden_message_char(s@[j]),
        decreases n - i,
    {
        let c = s.get_char(i);
        if c == '<' || c == '>' {
            assert(is_forbidden_message_char(s@[i as int]));
            return true;
        }
        i = i + 1;
    }
    false
}

/// A message is accepted when it does not trim to nothing, encodes to at
/// most 1024 bytes, and contains no forbidden character.
pub open spec fn valid_contact_message(s: Seq<char>) -> bool {
    !spec_blank(s) && encode_utf8(s).len() <= 1024 && !has_forbidden_message_char(s)
}

/// The message a rejected submission is refused with, naming the first
/// rule it broke.
pub open spec fn contact_message_error(s: Seq<char>) -> Seq<char> {
    if spec_blank(s) {
        "Please provide a message to assist in ."@
    } else if encode_utf8(s).len() > 1024 {
        "Please provide a message that is less than 1024 characters."@
    } else {
        "Message contains illegal characters, please remove and try again."@
    }
}

/// Type wrapper for the message of a contact-form submission.
#[derive(Debug)]
pub struct ContactMessage(String);

impl View for ContactMessage {
    type V = Seq<char>;

    closed spec fn view(&self) -> Seq<char> {
        self.0@
    }
}

impl ContactMessage {
    /// Validates a raw string into a contact message, accepting it exactly
    /// when [`valid_contact_message`] holds of it.
    pub fn parse(message: String) -> (r: Result<Self, String>)
        ensures
            valid_contact_message(message@) ==> (r matches Ok(m) && m@ == message@),
            !valid_contact_message(message@) ==> (r matches Err(e) && e@ == contact_message_error(
                message@,
            )),
    {
        if is_blank(message.as_str()) {
            Err("Please provide a message to assist in .".to_owned())
        } else if message.as_str().as_bytes().len() > 1024 {
            Err("Please provide a message that is less than 1024 characters.".to_owned())
        } else if contains_forbidden_message_char(message.as_str()) {
            Err("Message contains illegal characters, please remove and try again.".to_owned())
        } else {
            Ok(ContactMessage(message))
        }
    }

    /// The validated message as a string slice.
    pub fn as_ref(&self) -> (r: &str)
        ensures
            r@ == self@,
    {
        self.0.as_str()
    }
}

} // verus!
