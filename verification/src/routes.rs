//! Request-handling layer: the handlers' decision logic, the response type
//! they produce, and the plain-text rendering of an error chain.

pub mod contact;
pub mod subscriptions;
pub mod subscriptions_confirm;

use vstd::prelude::*;
use vstd::string::StringExecFns;

verus! {

/// Status code of a response that reports success.
pub const STATUS_OK: u16 = 200;

/// Status code of a response that reports a validation failure.
pub const STATUS_BAD_REQUEST: u16 = 400;

/// Status code of a response that reports a missing or unknown credential.
pub const STATUS_UNAUTHORIZED: u16 = 401;

/// Status code of a response that reports a conflicting earlier request.
pub const STATUS_CONFLICT: u16 = 409;

/// Status code of a response that reports an internal failure.
pub const STATUS_INTERNAL_SERVER_ERROR: u16 = 500;

/// A protocol-agnostic response: a status code and a body.
pub struct Response {
    pub status: u16,
    pub body: String,
}

/// The mathematical value of a [`Response`].
#[verifier::ext_equal]
pub struct ResponseView {
    pub status: u16,
    pub body: Seq<char>,
}

impl View for Response {
    type V = ResponseView;

    open spec fn view(&self) -> ResponseView {
        ResponseView { status: self.status, body: self.body@ }
    }
}

impl Response {
    /// An exact copy, used to replay a stored response verbatim.
    pub fn duplicate(&self) -> (r: Response)
        ensures
            r@ == self@,
    {
        Response { status: self.status, body: self.body.clone() }
    }
}

/// The rendering of the causes of an error, one per line, in order.
pub open spec fn causes_view(causes: Seq<Seq<char>>) -> Seq<char>
    decreases causes.len(),
{
    if causes.len() == 0 {
        Seq::empty()
    } else {
        causes_view(causes.drop_last()) + "Caused by:\n\t"@ + causes.last() + "\n"@
    }
}

/// The plain-text rendering of an error and its chain of causes: the error
/// itself first, then each cause on its own line.
pub open spec fn error_chain_view(error: Seq<char>, causes: Seq<Seq<char>>) -> Seq<char> {
    error + "\n\n"@ + causes_view(causes)
}

/// Renders an error and the messages of its chain of causes, the error
/// first, each cause on its own line.
pub fn error_chain_fmt(error: &String, causes: &Vec<String>) -> (r: String)
    ensures
        r@ == error_chain_view(error@, causes@.map_values(|c: String| c@)),
{
    let ghost cs = causes@.map_values(|c: String| c@);
    let mut out = error.clone().concat("\n\n");
    proof {
        assert(cs.take(0) =~= Seq::<Seq<char>>::empty());
        assert(out@ =~= error_chain_view(error@, cs.take(0)));
    }
    let n = causes.len();
    let mut i: usize = 0;
    while i < n
        invariant
            n == causes@.len(),
            cs == causes@.map_values(|c: String| c@),
            i <= n,
            out@ == error_chain_view(error@, cs.take(i as int)),
        decreases n - i,
    {
        out = out.concat("Caused by:\n\t").concat(causes[i].as_str()).concat("\n");
        proof {
            assert(cs.take(i as int + 1).drop_last() =~= cs.take(i as int));
            assert(cs.take(i as int + 1).last() == cs[i as int]);
            assert(out@ =~= error_chain_view(error@, cs.take(i as int + 1)));
        }
        i = i + 1;
    }
    proof {
        assert(cs.take(n as int) =~= cs);
    }
    out
}

} // verus!
