//! Type wrapper for a user's name.

use vstd::prelude::*;
use vstd::string::StrSliceExecFns;
use crate::domain::text::{grapheme_clusters, grapheme_count, is_blank, spec_blank};

verus! {

/// The characters a name must not contain.
pub open spec fn is_forbidden_name_char(c: char) -> bool {
    ||| c == '/'
    ||| c == '('
    ||| c == ')'
    ||| c == '"'
    ||| c == '<'
    ||| c == '>'
    ||| c == '\\'
    ||| c == '{'
    ||| c == '}'
}

/// Whether the string contains a character a name must not contain.
pub open spec fn has_forbidden_name_char(s: Seq<char>) -> bool {
    exists|i: int| 0 <= i < s.len() && is_forbidden_name_char(s[i])
}

/// Whether the character is one a name must not contain.
pub fn forbidden_name_char(c: char) -> (r: bool)
    ensures
        r == is_forbidden_name_char(c),
{
    c == '/' || c == '(' || c == ')' || c == '"' || c == '<' || c == '>' || c == '\\' || c == '{'
        || c == '}'
}

/// Whether the string contains a character a name must not contain.
pub fn contains_forbidden_name_char(s: &str) -> (r: bool)
    ensures
        r == has_forbidden_name_char(s@),
{
    let n = s.unicode_len();
    let mut i: usize = 0;
    while i < n
        invariant
            n == s@.len(),
            i <= n,
            forall|j: int| 0 <= j < i ==> !is_forbidden_name_char(s@[j]),
        decreases n - i,
    {
        if forbidden_name_char(s.get_char(i)) {
            assert(is_forbidden_name_char(s@[i as int]));
            return true;
        }
        i = i + 1;
    }
    false
}

/// A name is accepted when it does not trim to nothing, spans at most 256
/// grapheme clusters, and contains no forbidden character.
pub open spec fn valid_user_name(s: Seq<char>) -> bool {
    !spec_blank(s) && grapheme_clusters(s) <= 256 && !has_forbidden_name_char(s)
}

/// The message a rejected name is refused with, naming the first rule it
/// broke.
pub open spec fn user_name_error(s: Seq<char>) -> Seq<char> {
    if spec_blank(s) {
        "User name cannot be empty"@
    } else if grapheme_clusters(s) > 256 {
        "Please enter a shorter name."@
    } else {
        "Name contains illegal characters, please remove and try again."@
    }
}

/// Type wrapper for a user's name.
#[derive(Debug)]
pub struct UserName(String);

impl View for UserName {
    type V = Seq<char>;

    closed spec fn view(&self) -> Seq<char> {
        self.0@
    }
}

impl UserName {
    /// Validates a raw string into a name, accepting it exactly when
    /// [`valid_user_name`] holds of it.
    pub fn parse(s: String) -> (r: Result<Self, String>)
        ensures
            valid_user_name(s@) ==> (r matches Ok(name) && name@ == s@),
            !valid_user_name(s@) ==> (r matches Err(e) && e@ == user_name_error(s@)),
    {
        if is_blank(s.as_str()) {
            Err("User name cannot be empty".to_owned())
        } else if grapheme_count(s.as_str()) > 256 {
            Err("Please enter a shorter name.".to_owned())
        } else if contains_forbidden_name_char(s.as_str()) {
            Err("Name contains illegal characters, please remove and try again.".to_owned())
        } else {
            Ok(UserName(s))
        }
    }

    /// The validated name as a string slice.
    pub fn as_ref(&self) -> (r: &str)
        ensures
            r@ == self@,
    {
        self.0.as_str()
    }
}

} // verus!
