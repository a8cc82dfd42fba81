//! The greeting text.

use vstd::prelude::*;
use vstd::string::StringExecFns;

verus! {

/// What every message starts with. The user agent follows it directly.
pub const GREETING: &'static str = "Hello world!!!! Your user agent is ";

/// The greeting as a sequence of characters.
pub open spec fn greeting() -> Seq<char> {
    GREETING@
}

/// The message for a user agent: the greeting, then the user agent as it came.
pub open spec fn format_message(user_agent: Seq<char>) -> Seq<char> {
    greeting() + user_agent
}

/// Builds the message for `user_agent`.
pub fn create_message(user_agent: &str) -> (message: String)
    ensures
        message@ == format_message(user_agent@),
{
    String::from_str(GREETING).concat(user_agent)
}

/// The message is a function of the user agent: whenever two user agents
/// are the same text, so are their messages.
pub proof fn lemma_same_user_agent_same_message(first: Seq<char>, second: Seq<char>)
    requires
        first == second,
    ensures
        format_message(first) == format_message(second),
{
}

} // verus!
