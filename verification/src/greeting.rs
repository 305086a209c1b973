//! The greeter's message: exact formatting of the greeting string.

use vstd::prelude::*;
use vstd::string::StringExecFns;

verus! {

/// The greeting text for `subject`: `"Hello, "`, then the subject, then `"!"`.
pub open spec fn greeting_text(subject: Seq<char>) -> Seq<char> {
    "Hello, "@ + subject + "!"@
}

/// Builds the message that the host's display capability shows for `subject`.
pub fn greeting(subject: &str) -> (r: String)
    ensures
        r@ == greeting_text(subject@),
{
    let mut message = String::new();
    message.append("Hello, ");
    message.append(subject);
    message.append("!");
    proof {
        assert(message@ =~= greeting_text(subject@));
    }
    message
}

} // verus!
