//! The handler's answer to one request.

use vstd::prelude::*;
use vstd::string::StringExecFns;

use crate::json::{escape, lemma_escape_concat, lemma_escape_plain, object_text, object_with_string};
use crate::message::{create_message, format_message, greeting};
use crate::reply::{HttpResponse, HttpResponseView, Reply, JSON_CONTENT_TYPE, STATUS_OK};

verus! {

/// The key under which the message stands in the body.
pub const MESSAGE_KEY: &'static str = "message";

/// The body for a message: the JSON object that holds it under `message`.
pub open spec fn json_text(message: Seq<char>) -> Seq<char> {
    object_text(MESSAGE_KEY@, message)
}

/// The container of the reply's body. It holds the message, which is set
/// when the value is made and never changes.
#[derive(Debug)]
pub struct Response {
    message: String,
}

impl View for Response {
    type V = Seq<char>;

    /// A response is its message.
    closed spec fn view(&self) -> Seq<char> {
        self.message@
    }
}

impl Response {
    /// The response to a request that came with `user_agent`.
    pub fn new(user_agent: String) -> (response: Response)
        ensures
            response@ == format_message(user_agent@),
    {
        Response { message: create_message(user_agent.as_str()) }
    }

    /// The message.
    pub fn message(&self) -> (message: &str)
        ensures
            message@ == self@,
    {
        self.message.as_str()
    }

    /// The response as JSON text: an object with the one member `message`.
    pub fn to_json(&self) -> (text: String)
        ensures
            text@ == json_text(self@),
            text@ == "{\"message\":\""@ + escape(self@) + "\"}"@,
    {
        proof {
            lemma_json_text(self@);
        }
        object_with_string(MESSAGE_KEY, self.message.as_str())
    }
}

impl Reply for Response {
    /// Status 200, with the JSON text of the response as the body.
    open spec fn response(self) -> HttpResponseView {
        HttpResponseView {
            status: STATUS_OK,
            content_type: JSON_CONTENT_TYPE@,
            body: json_text(self@),
        }
    }

    fn into_response(self) -> (response: HttpResponse)
        ensures
            response.status == 200,
            response.content_type@ == "application/json"@,
            response.body@ == "{\"message\":\""@ + escape(self@) + "\"}"@,
    {
        let body = self.to_json();
        HttpResponse { status: STATUS_OK, content_type: String::from_str(JSON_CONTENT_TYPE), body }
    }
}

/// The body for a message, written out: the message stands between
/// `{"message":"` and `"}`, changed by escaping alone.
pub proof fn lemma_json_text(message: Seq<char>)
    ensures
        json_text(message) == "{\"message\":\""@ + escape(message) + "\"}"@,
{
    reveal_strlit("message");
    reveal_strlit("{\"message\":\"");
    reveal_strlit("\"}");
    lemma_escape_plain(MESSAGE_KEY@);
    assert(json_text(message) =~= "{\"message\":\""@ + escape(message) + "\"}"@);
}

/// The body of the response to a user agent: the greeting stands in it as it
/// is, and the user agent follows it in escaped form.
pub proof fn lemma_json_of_user_agent(user_agent: Seq<char>)
    ensures
        json_text(format_message(user_agent))
            == "{\"message\":\"Hello world!!!! Your user agent is "@ + escape(user_agent) + "\"}"@,
{
    reveal_strlit("Hello world!!!! Your user agent is ");
    reveal_strlit("{\"message\":\"");
    reveal_strlit("{\"message\":\"Hello world!!!! Your user agent is ");
    lemma_json_text(format_message(user_agent));
    lemma_escape_concat(greeting(), user_agent);
    lemma_escape_plain(greeting());
    assert("{\"message\":\""@ + greeting()
        =~= "{\"message\":\"Hello world!!!! Your user agent is "@);
    assert("{\"message\":\""@ + (greeting() + escape(user_agent)) =~= "{\"message\":\""@
        + greeting() + escape(user_agent));
}

} // verus!
