//! What an HTTP request came to, as plain values.

use vstd::prelude::*;

verus! {

/// What a request to a server came to.
pub enum Reply {
    /// No answer: the connection failed or timed out.
    Unreachable { cause: String },
    /// An answer: the status code, the status line as text, and the body, or
    /// why the body could not be read.
    Answered { status: u16, status_text: String, body: Result<String, String> },
}

/// The text of a body; one that could not be read counts as empty.
pub open spec fn body_text(body: Result<String, String>) -> Seq<char> {
    match body {
        Ok(text) => text@,
        Err(_) => Seq::empty(),
    }
}

/// The text of a body; one that could not be read counts as empty.
pub fn body_or_empty(body: &Result<String, String>) -> (text: &str)
    ensures
        text@ == body_text(*body),
{
    match body {
        Ok(read) => read.as_str(),
        Err(_) => {
            proof {
                reveal_strlit("");
                assert(""@ =~= Seq::<char>::empty());
            }
            ""
        },
    }
}

/// The answer is one of success whose body could not be read.
pub open spec fn is_unreadable(reply: Reply) -> bool {
    &&& reply matches Reply::Answered { status, status_text, body }
    &&& is_success_code(status)
    &&& body is Err
}

/// The status codes that count as success.
pub open spec fn is_success_code(status: u16) -> bool {
    200 <= status < 300
}

/// Is the status code one of success?
pub fn is_success(status: u16) -> (success: bool)
    ensures
        success == is_success_code(status),
{
    200 <= status && status < 300
}

} // verus!
